//! Classification of archive members by name.
//!
//! The classifier is the single source of truth for routing a member to a
//! decoder. A member not ending in the JSON suffix is skipped (archives may
//! carry decorative payloads); the fixed manifest name is the manifest; a
//! fixed list of prefixes marks the shard roles, metadata prefixes tested
//! before the plain ones; any other JSON member is unrecognized.

use vstd::prelude::*;

verus! {

/// The role of one archive member, decided by its name alone.
#[derive(PartialEq, Eq, Structural, Clone, Copy, Debug)]
pub enum MemberRole {
    Manifest,
    KanjiShard,
    KanjiMetaShard,
    TermShard,
    TermMetaShard,
    TagShard,
    Unrecognized,
    Skipped,
}

pub open spec fn json_suffix() -> Seq<char> {
    ".json"@
}

pub open spec fn manifest_name() -> Seq<char> {
    "index.json"@
}

pub open spec fn kanji_shard_prefix() -> Seq<char> {
    "kanji_bank_"@
}

pub open spec fn kanji_meta_prefix() -> Seq<char> {
    "kanji_meta_bank_"@
}

pub open spec fn term_shard_prefix() -> Seq<char> {
    "term_bank_"@
}

pub open spec fn term_meta_prefix() -> Seq<char> {
    "term_meta_bank_"@
}

pub open spec fn tag_shard_prefix() -> Seq<char> {
    "tag_bank_"@
}

pub open spec fn has_prefix(s: Seq<char>, p: Seq<char>) -> bool {
    s.len() >= p.len() && s.take(p.len() as int) == p
}

pub open spec fn has_suffix(s: Seq<char>, p: Seq<char>) -> bool {
    s.len() >= p.len() && s.skip(s.len() - p.len()) == p
}

/// The role of a member named `name`, by the rules above, in their priority
/// order.
pub open spec fn spec_classify(name: Seq<char>) -> MemberRole {
    if !has_suffix(name, json_suffix()) {
        MemberRole::Skipped
    } else if name == manifest_name() {
        MemberRole::Manifest
    } else if has_prefix(name, kanji_meta_prefix()) {
        MemberRole::KanjiMetaShard
    } else if has_prefix(name, kanji_shard_prefix()) {
        MemberRole::KanjiShard
    } else if has_prefix(name, term_meta_prefix()) {
        MemberRole::TermMetaShard
    } else if has_prefix(name, term_shard_prefix()) {
        MemberRole::TermShard
    } else if has_prefix(name, tag_shard_prefix()) {
        MemberRole::TagShard
    } else {
        MemberRole::Unrecognized
    }
}

fn str_has_prefix(s: &str, p: &str) -> (r: bool)
    ensures
        r == has_prefix(s@, p@),
{
    let n = s.unicode_len();
    let m = p.unicode_len();
    if n < m {
        return false;
    }
    let mut i: usize = 0;
    while i < m
        invariant
            i <= m,
            m <= n,
            n == s@.len(),
            m == p@.len(),
            forall|j: int| 0 <= j < i ==> s@[j] == p@[j],
        decreases m - i,
    {
        if s.get_char(i) != p.get_char(i) {
            proof {
                assert(s@.take(m as int)[i as int] != p@[i as int]);
            }
            return false;
        }
        i = i + 1;
    }
    proof {
        assert(s@.take(m as int) =~= p@);
    }
    true
}

fn str_has_suffix(s: &str, p: &str) -> (r: bool)
    ensures
        r == has_suffix(s@, p@),
{
    let n = s.unicode_len();
    let m = p.unicode_len();
    if n < m {
        return false;
    }
    let off = n - m;
    let mut i: usize = 0;
    while i < m
        invariant
            i <= m,
            m <= n,
            off == n - m,
            n == s@.len(),
            m == p@.len(),
            forall|j: int| 0 <= j < i ==> s@[off + j] == p@[j],
        decreases m - i,
    {
        if s.get_char(off + i) != p.get_char(i) {
            proof {
                assert(s@.skip(off as int)[i as int] != p@[i as int]);
            }
            return false;
        }
        i = i + 1;
    }
    proof {
        assert(s@.skip(off as int) =~= p@);
    }
    true
}

fn str_equal(s: &str, p: &str) -> (r: bool)
    ensures
        r == (s@ == p@),
{
    let n = s.unicode_len();
    let m = p.unicode_len();
    if n != m {
        return false;
    }
    let r = str_has_prefix(s, p);
    proof {
        assert(s@.take(m as int) =~= s@);
    }
    r
}

/// Classify one member by its name.
pub fn classify(name: &str) -> (r: MemberRole)
    ensures
        r == spec_classify(name@),
{
    if !str_has_suffix(name, ".json") {
        MemberRole::Skipped
    } else if str_equal(name, "index.json") {
        MemberRole::Manifest
    } else if str_has_prefix(name, "kanji_meta_bank_") {
        MemberRole::KanjiMetaShard
    } else if str_has_prefix(name, "kanji_bank_") {
        MemberRole::KanjiShard
    } else if str_has_prefix(name, "term_meta_bank_") {
        MemberRole::TermMetaShard
    } else if str_has_prefix(name, "term_bank_") {
        MemberRole::TermShard
    } else if str_has_prefix(name, "tag_bank_") {
        MemberRole::TagShard
    } else {
        MemberRole::Unrecognized
    }
}

/// The name prefix that marks each shard role.
pub open spec fn shard_prefix_of(role: MemberRole) -> Seq<char> {
    match role {
        MemberRole::KanjiShard => kanji_shard_prefix(),
        MemberRole::KanjiMetaShard => kanji_meta_prefix(),
        MemberRole::TermShard => term_shard_prefix(),
        MemberRole::TermMetaShard => term_meta_prefix(),
        MemberRole::TagShard => tag_shard_prefix(),
        _ => Seq::<char>::empty(),
    }
}

pub open spec fn is_shard_role(role: MemberRole) -> bool {
    role == MemberRole::KanjiShard || role == MemberRole::KanjiMetaShard || role
        == MemberRole::TermShard || role == MemberRole::TermMetaShard || role
        == MemberRole::TagShard
}

/// Every name made of a shard prefix, one or more digits, and the JSON
/// suffix classifies as that shard's role, whatever the digits are and
/// however many.
pub proof fn lemma_shard_name_classifies(role: MemberRole, digits: Seq<char>, name: Seq<char>)
    requires
        is_shard_role(role),
        digits.len() >= 1,
        forall|i: int| 0 <= i < digits.len() ==> '0' <= #[trigger] digits[i] <= '9',
        name == shard_prefix_of(role) + digits + json_suffix(),
    ensures
        spec_classify(name) == role,
{
    reveal_strlit(".json");
    reveal_strlit("index.json");
    reveal_strlit("kanji_bank_");
    reveal_strlit("kanji_meta_bank_");
    reveal_strlit("term_bank_");
    reveal_strlit("term_meta_bank_");
    reveal_strlit("tag_bank_");
    let p = shard_prefix_of(role);
    assert(name.len() == p.len() + digits.len() + 5);
    assert(name.skip(name.len() - 5) =~= json_suffix());
    assert(name.len() >= 15);
    assert(name != manifest_name());
    assert(name.take(p.len() as int) =~= p);
    assert(has_prefix(name, p));
    match role {
        MemberRole::KanjiShard => {
            assert(name[6] == 'b');
            assert(!has_prefix(name, kanji_meta_prefix()));
        },
        MemberRole::KanjiMetaShard => {
        },
        MemberRole::TermShard => {
            assert(name[0] == 't');
            assert(!has_prefix(name, kanji_meta_prefix()));
            assert(name[5] == 'b');
            assert(!has_prefix(name, term_meta_prefix()));
        },
        MemberRole::TermMetaShard => {
            assert(name[0] == 't');
            assert(!has_prefix(name, kanji_meta_prefix()));
        },
        MemberRole::TagShard => {
            assert(name[0] == 't');
            assert(!has_prefix(name, kanji_meta_prefix()));
            assert(name[1] == 'a');
            assert(name[2] == 'g');
            assert(!has_prefix(name, term_meta_prefix()));
            assert(!has_prefix(name, term_shard_prefix()));
        },
        _ => {
        },
    }
}

/// Every name that ends in the JSON suffix, is not the manifest name, and
/// carries no known shard prefix classifies as unrecognized.
pub proof fn lemma_unknown_json_member_is_unrecognized(name: Seq<char>)
    requires
        has_suffix(name, json_suffix()),
        name != manifest_name(),
        !has_prefix(name, kanji_meta_prefix()),
        !has_prefix(name, kanji_shard_prefix()),
        !has_prefix(name, term_meta_prefix()),
        !has_prefix(name, term_shard_prefix()),
        !has_prefix(name, tag_shard_prefix()),
    ensures
        spec_classify(name) == MemberRole::Unrecognized,
{
}

} // verus!
