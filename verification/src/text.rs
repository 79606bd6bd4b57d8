//! Splitting of space-separated token fields.
//!
//! Several schema fields are flat encodings of a token list: tokens separated
//! by runs of whitespace. They are decoded eagerly at the boundary into an
//! ordered sequence of tokens; an empty field decodes to an empty sequence.
//! A separator is any character of Unicode's White_Space set, so that fields
//! authored with wide spaces (U+3000 between readings, say) split too.

use vstd::prelude::*;

verus! {

/// The characters that separate tokens: Unicode's White_Space set, the
/// 25 code points with the White_Space property.
pub open spec fn is_space_char(c: char) -> bool {
    let n = c as u32;
    n == 0x09 || n == 0x0A || n == 0x0B || n == 0x0C || n == 0x0D || n == 0x20 || n == 0x85 || n
        == 0xA0 || n == 0x1680 || (0x2000 <= n <= 0x200A) || n == 0x2028 || n == 0x2029 || n
        == 0x202F || n == 0x205F || n == 0x3000
}

/// Whether `c` separates tokens.
pub fn is_space(c: char) -> (r: bool)
    ensures
        r == is_space_char(c),
{
    let n = c as u32;
    n == 0x09 || n == 0x0A || n == 0x0B || n == 0x0C || n == 0x0D || n == 0x20 || n == 0x85 || n
        == 0xA0 || n == 0x1680 || (0x2000 <= n && n <= 0x200A) || n == 0x2028 || n == 0x2029 || n
        == 0x202F || n == 0x205F || n == 0x3000
}

/// State of a left-to-right scan of `s`: the tokens already finished, and the
/// pending token (the maximal run of non-space characters ending at the end
/// of `s`, possibly empty).
pub open spec fn split_scan(s: Seq<char>) -> (Seq<Seq<char>>, Seq<char>)
    decreases s.len(),
{
    if s.len() == 0 {
        (Seq::<Seq<char>>::empty(), Seq::<char>::empty())
    } else {
        let rest = split_scan(s.drop_last());
        let toks = rest.0;
        let cur = rest.1;
        let c = s.last();
        if is_space_char(c) {
            if cur.len() == 0 {
                (toks, cur)
            } else {
                (toks.push(cur), Seq::<char>::empty())
            }
        } else {
            (toks, cur.push(c))
        }
    }
}

/// The tokens of `s`: the maximal runs of non-space characters, in order.
pub open spec fn spec_tokens(s: Seq<char>) -> Seq<Seq<char>> {
    let scan = split_scan(s);
    if scan.1.len() == 0 {
        scan.0
    } else {
        scan.0.push(scan.1)
    }
}

/// No character of this token is a separator.
pub open spec fn no_space(t: Seq<char>) -> bool {
    forall|c: int| 0 <= c < t.len() ==> !is_space_char(#[trigger] t[c])
}

/// Each of these tokens is non-empty and free of separators.
pub open spec fn tokens_wf(toks: Seq<Seq<char>>) -> bool {
    forall|k: int| 0 <= k < toks.len() ==> (#[trigger] toks[k]).len() > 0 && no_space(toks[k])
}

proof fn lemma_split_scan_wf(s: Seq<char>)
    ensures
        tokens_wf(split_scan(s).0),
        no_space(split_scan(s).1),
    decreases s.len(),
{
    if s.len() > 0 {
        lemma_split_scan_wf(s.drop_last());
        let rest = split_scan(s.drop_last());
        let c = s.last();
        if is_space_char(c) {
            if rest.1.len() > 0 {
                let toks = rest.0.push(rest.1);
                assert forall|k: int| 0 <= k < toks.len() implies (#[trigger] toks[k]).len() > 0
                    && no_space(toks[k]) by {
                    if k < rest.0.len() {
                        assert(toks[k] == rest.0[k]);
                    } else {
                        assert(toks[k] == rest.1);
                    }
                }
            }
        } else {
            let cur = rest.1.push(c);
            assert forall|i: int| 0 <= i < cur.len() implies !is_space_char(
                #[trigger] cur[i],
            ) by {
                if i < rest.1.len() {
                    assert(cur[i] == rest.1[i]);
                } else {
                    assert(cur[i] == c);
                }
            }
        }
    }
}

/// The tokens of a field are its maximal runs of non-separator characters:
/// none is empty, and none contains a separator.
pub proof fn lemma_tokens_wf(s: Seq<char>)
    ensures
        tokens_wf(spec_tokens(s)),
{
    lemma_split_scan_wf(s);
    let scan = split_scan(s);
    if scan.1.len() > 0 {
        let toks = scan.0.push(scan.1);
        assert forall|k: int| 0 <= k < toks.len() implies (#[trigger] toks[k]).len() > 0
            && no_space(toks[k]) by {
            if k < scan.0.len() {
                assert(toks[k] == scan.0[k]);
            } else {
                assert(toks[k] == scan.1);
            }
        }
    }
}

/// An empty field holds no tokens.
pub proof fn lemma_empty_field_has_no_tokens(s: Seq<char>)
    requires
        s.len() == 0,
    ensures
        spec_tokens(s) =~= Seq::<Seq<char>>::empty(),
{
}

/// Split `s` into its whitespace-separated tokens.
pub fn split_tokens(s: &str) -> (r: Vec<String>)
    ensures
        r.deep_view() == spec_tokens(s@),
{
    let n = s.unicode_len();
    let mut toks: Vec<String> = Vec::new();
    let mut start: usize = 0;
    let mut i: usize = 0;
    while i < n
        invariant
            i <= n,
            start <= i,
            n == s@.len(),
            toks.deep_view() == split_scan(s@.take(i as int)).0,
            split_scan(s@.take(i as int)).1 == s@.subrange(start as int, i as int),
        decreases n - i,
    {
        let c = s.get_char(i);
        proof {
            assert(s@.take(i + 1).drop_last() =~= s@.take(i as int));
            assert(s@.take(i + 1).last() == s@[i as int]);
        }
        if is_space(c) {
            if start < i {
                let tok = s.substring_char(start, i).to_owned();
                let ghost old_toks = toks.deep_view();
                toks.push(tok);
                proof {
                    assert(toks.deep_view() =~= old_toks.push(tok@));
                }
            }
            start = i + 1;
            proof {
                assert(s@.subrange(start as int, i + 1) =~= Seq::<char>::empty());
            }
        } else {
            proof {
                assert(s@.subrange(start as int, i + 1) =~= s@.subrange(
                    start as int,
                    i as int,
                ).push(s@[i as int]));
            }
        }
        i = i + 1;
    }
    proof {
        assert(s@.take(n as int) =~= s@);
    }
    if start < n {
        let tok = s.substring_char(start, n).to_owned();
        let ghost old_toks = toks.deep_view();
        toks.push(tok);
        proof {
            assert(toks.deep_view() =~= old_toks.push(tok@));
        }
    }
    toks
}

} // verus!
