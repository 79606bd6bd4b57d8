//! Decoding of member contents into the schema types.
//!
//! Every member's content is parsed into one untyped JSON value and then
//! checked structurally against the member's schema: positional rows for the
//! shard roles, named fields for the manifest. Each decoder is exact: it
//! succeeds on precisely the shapes its spec function accepts, and yields
//! precisely the view that spec function computes.

use vstd::prelude::*;

use crate::json::JsonData;
use crate::json::obj_lookup;
use crate::json::value_model;
use crate::json::value_field;
use crate::json::value_entries;
use crate::text::spec_tokens;
use crate::dictionary::yomichan::{
    Index, IndexData, Kanji, KanjiData, KanjiMeta, KanjiMetaMode, MetaEntryData, MetaPayloadData,
    SpaceSeparatedValues, Stats, Tag, TagData, Term, TermData, TermMeta, TermMetaMode,
};

verus! {

/// Decode every row of `elems` through `f`, in order; any failing row fails
/// the whole sequence.
pub open spec fn spec_rows_of<T>(elems: Seq<JsonData>, f: spec_fn(JsonData) -> Option<T>) -> Option<
    Seq<T>,
>
    decreases elems.len(),
{
    if elems.len() == 0 {
        Some(Seq::<T>::empty())
    } else {
        match spec_rows_of(elems.drop_last(), f) {
            None => None,
            Some(rest) => match f(elems.last()) {
                Some(t) => Some(rest.push(t)),
                None => None,
            },
        }
    }
}

pub proof fn lemma_rows_of_prefix_none<T>(
    elems: Seq<JsonData>,
    f: spec_fn(JsonData) -> Option<T>,
    i: int,
)
    requires
        0 <= i <= elems.len(),
        spec_rows_of(elems.take(i), f) is None,
    ensures
        spec_rows_of(elems, f) is None,
    decreases elems.len() - i,
{
    if i == elems.len() {
        assert(elems.take(i) =~= elems);
    } else {
        assert(elems.take(i + 1).drop_last() =~= elems.take(i));
        lemma_rows_of_prefix_none(elems, f, i + 1);
    }
}

/// Decode every object entry as a string-valued stat, in order.
pub open spec fn spec_stat_rows_of(entries: Seq<(Seq<char>, JsonData)>) -> Option<
    Seq<(Seq<char>, Seq<char>)>,
>
    decreases entries.len(),
{
    if entries.len() == 0 {
        Some(Seq::<(Seq<char>, Seq<char>)>::empty())
    } else {
        match spec_stat_rows_of(entries.drop_last()) {
            None => None,
            Some(rest) => match entries.last().1 {
                JsonData::Str(s) => Some(rest.push((entries.last().0, s))),
                _ => None,
            },
        }
    }
}

pub proof fn lemma_stat_rows_prefix_none(entries: Seq<(Seq<char>, JsonData)>, i: int)
    requires
        0 <= i <= entries.len(),
        spec_stat_rows_of(entries.take(i)) is None,
    ensures
        spec_stat_rows_of(entries) is None,
    decreases entries.len() - i,
{
    if i == entries.len() {
        assert(entries.take(i) =~= entries);
    } else {
        assert(entries.take(i + 1).drop_last() =~= entries.take(i));
        lemma_stat_rows_prefix_none(entries, i + 1);
    }
}

pub open spec fn spec_str_of(d: JsonData) -> Option<Seq<char>> {
    match d {
        JsonData::Str(s) => Some(s),
        _ => None,
    }
}

pub open spec fn spec_i16_of(d: JsonData) -> Option<i16> {
    match d {
        JsonData::UInt(n) => if n <= 32767 {
            Some(n as i16)
        } else {
            None
        },
        JsonData::Int(n) => if -32768 <= n <= 32767 {
            Some(n as i16)
        } else {
            None
        },
        _ => None,
    }
}

pub open spec fn spec_u32_of(d: JsonData) -> Option<u32> {
    match d {
        JsonData::UInt(n) => if n <= u32::MAX {
            Some(n as u32)
        } else {
            None
        },
        _ => None,
    }
}

pub open spec fn spec_u8_of(d: JsonData) -> Option<u8> {
    match d {
        JsonData::UInt(n) => if n <= 255 {
            Some(n as u8)
        } else {
            None
        },
        _ => None,
    }
}

fn read_str(v: &serde_json::Value) -> (r: Option<String>)
    ensures
        r.deep_view() == spec_str_of(value_model(*v)),
{
    match v.as_str() {
        Some(s) => Some(s.to_owned()),
        None => None,
    }
}

fn read_i16(v: &serde_json::Value) -> (r: Option<i16>)
    ensures
        r == spec_i16_of(value_model(*v)),
{
    match v.as_i64() {
        Some(k) => if -32768 <= k && k <= 32767 {
            Some(k as i16)
        } else {
            None
        },
        None => None,
    }
}

fn read_u32(v: &serde_json::Value) -> (r: Option<u32>)
    ensures
        r == spec_u32_of(value_model(*v)),
{
    match v.as_u64() {
        Some(n) => if n <= 0xFFFF_FFFF {
            Some(n as u32)
        } else {
            None
        },
        None => None,
    }
}

/// The payload of a metadata entry. The numeric interpretation is attempted
/// first; only on structural mismatch does the open-ended structured
/// interpretation apply, and it accepts any value. This trial order is
/// load-bearing: trying the structured branch first would swallow numeric
/// payloads. The entry's mode label plays no part in the choice.
pub open spec fn spec_meta_payload(d: JsonData) -> MetaPayloadData {
    match d {
        JsonData::UInt(n) => MetaPayloadData::Freq(n),
        _ => MetaPayloadData::Structured(d),
    }
}

/// Every metadata payload that is a non-negative integer resolves to the
/// frequency variant with that exact value; every other payload resolves to
/// the structured variant carrying the value unchanged.
pub proof fn lemma_meta_payload_resolution(d: JsonData)
    ensures
        forall|n: u64| d == JsonData::UInt(n) ==> spec_meta_payload(d) == MetaPayloadData::Freq(n),
        !(d is UInt) ==> spec_meta_payload(d) == MetaPayloadData::Structured(d),
{
}

fn resolve_kanji_payload(v: &serde_json::Value) -> (r: KanjiMetaMode)
    ensures
        r@ == spec_meta_payload(value_model(*v)),
{
    match v.as_u64() {
        Some(n) => KanjiMetaMode::Freq(n),
        None => KanjiMetaMode::Pitch(v.clone()),
    }
}

fn resolve_term_payload(v: &serde_json::Value) -> (r: TermMetaMode)
    ensures
        r@ == spec_meta_payload(value_model(*v)),
{
    match v.as_u64() {
        Some(n) => TermMetaMode::Freq(n),
        None => TermMetaMode::Pitch(v.clone()),
    }
}

pub open spec fn field_of(d: JsonData, key: Seq<char>) -> Option<JsonData> {
    match d {
        JsonData::Obj(es) => obj_lookup(es, key),
        _ => None,
    }
}

/// A required string field: present and a string, else the manifest is
/// rejected.
pub open spec fn spec_req_str(d: JsonData, key: Seq<char>) -> Option<Seq<char>> {
    match field_of(d, key) {
        Some(f) => spec_str_of(f),
        None => None,
    }
}

/// An optional string field: absent is fine, present must be a string.
pub open spec fn spec_opt_str(d: JsonData, key: Seq<char>) -> Option<Option<Seq<char>>> {
    match field_of(d, key) {
        None => Some(None),
        Some(JsonData::Str(s)) => Some(Some(s)),
        Some(_) => None,
    }
}

pub open spec fn spec_opt_bool(d: JsonData, key: Seq<char>) -> Option<Option<bool>> {
    match field_of(d, key) {
        None => Some(None),
        Some(JsonData::Bool(b)) => Some(Some(b)),
        Some(_) => None,
    }
}

pub open spec fn spec_opt_u8(d: JsonData, key: Seq<char>) -> Option<Option<u8>> {
    match field_of(d, key) {
        None => Some(None),
        Some(f) => match spec_u8_of(f) {
            Some(n) => Some(Some(n)),
            None => None,
        },
    }
}

fn read_req_str(v: &serde_json::Value, key: &str) -> (r: Option<String>)
    ensures
        r.deep_view() == spec_req_str(value_model(*v), key@),
{
    match value_field(v, key) {
        Some(f) => read_str(f),
        None => None,
    }
}

fn read_opt_str(v: &serde_json::Value, key: &str) -> (r: Option<Option<String>>)
    ensures
        r.deep_view() == spec_opt_str(value_model(*v), key@),
{
    match value_field(v, key) {
        Some(f) => match read_str(f) {
            Some(s) => Some(Some(s)),
            None => None,
        },
        None => Some(None),
    }
}

fn read_opt_bool(v: &serde_json::Value, key: &str) -> (r: Option<Option<bool>>)
    ensures
        r == spec_opt_bool(value_model(*v), key@),
{
    match value_field(v, key) {
        Some(f) => match f.as_bool() {
            Some(b) => Some(Some(b)),
            None => None,
        },
        None => Some(None),
    }
}

fn read_opt_u8(v: &serde_json::Value, key: &str) -> (r: Option<Option<u8>>)
    ensures
        r == spec_opt_u8(value_model(*v), key@),
{
    match value_field(v, key) {
        Some(f) => match f.as_u64() {
            Some(n) => if n <= 255 {
                Some(Some(n as u8))
            } else {
                None
            },
            None => None,
        },
        None => Some(None),
    }
}

/// The manifest: `title` and `revision` required, the rest optional; the
/// `format`/`version` alias pair is normalized into one logical field, the
/// first non-absent value winning.
pub open spec fn spec_manifest_of(d: JsonData) -> Option<IndexData> {
    match spec_req_str(d, "title"@) {
        None => None,
        Some(title) => match spec_req_str(d, "revision"@) {
            None => None,
            Some(revision) => match spec_opt_bool(d, "sequenced"@) {
                None => None,
                Some(sequenced) => match spec_opt_u8(d, "format"@) {
                    None => None,
                    Some(fmt) => match spec_opt_u8(d, "version"@) {
                        None => None,
                        Some(ver) => match spec_opt_str(d, "author"@) {
                            None => None,
                            Some(author) => match spec_opt_str(d, "url"@) {
                                None => None,
                                Some(url) => match spec_opt_str(d, "description"@) {
                                    None => None,
                                    Some(description) => match spec_opt_str(d, "attribution"@) {
                                        None => None,
                                        Some(attribution) => match spec_opt_str(
                                            d,
                                            "frequencyMode"@,
                                        ) {
                                            None => None,
                                            Some(frequency_mode) => Some(
                                                IndexData {
                                                    title,
                                                    revision,
                                                    sequenced,
                                                    format: if fmt is Some {
                                                        fmt
                                                    } else {
                                                        ver
                                                    },
                                                    author,
                                                    url,
                                                    description,
                                                    attribution,
                                                    frequency_mode,
                                                },
                                            ),
                                        },
                                    },
                                },
                            },
                        },
                    },
                },
            },
        },
    }
}

/// Decode the manifest member's value.
pub fn decode_manifest(v: &serde_json::Value) -> (r: Option<Index>)
    ensures
        (r is Some <==> spec_manifest_of(value_model(*v)) is Some),
        r matches Some(ix) ==> spec_manifest_of(value_model(*v)) == Some(ix@),
{
    let title = match read_req_str(v, "title") {
        Some(s) => s,
        None => {
            return None;
        },
    };
    let revision = match read_req_str(v, "revision") {
        Some(s) => s,
        None => {
            return None;
        },
    };
    let sequenced = match read_opt_bool(v, "sequenced") {
        Some(o) => o,
        None => {
            return None;
        },
    };
    let fmt = match read_opt_u8(v, "format") {
        Some(o) => o,
        None => {
            return None;
        },
    };
    let ver = match read_opt_u8(v, "version") {
        Some(o) => o,
        None => {
            return None;
        },
    };
    let author = match read_opt_str(v, "author") {
        Some(o) => o,
        None => {
            return None;
        },
    };
    let url = match read_opt_str(v, "url") {
        Some(o) => o,
        None => {
            return None;
        },
    };
    let description = match read_opt_str(v, "description") {
        Some(o) => o,
        None => {
            return None;
        },
    };
    let attribution = match read_opt_str(v, "attribution") {
        Some(o) => o,
        None => {
            return None;
        },
    };
    let frequency_mode = match read_opt_str(v, "frequencyMode") {
        Some(o) => o,
        None => {
            return None;
        },
    };
    let format = match fmt {
        Some(x) => Some(x),
        None => ver,
    };
    Some(
        Index {
            title,
            revision,
            sequenced,
            format,
            author,
            url,
            description,
            attribution,
            frequency_mode,
        },
    )
}

pub open spec fn glossary_row_fn() -> spec_fn(JsonData) -> Option<Seq<char>> {
    |g: JsonData| spec_str_of(g)
}

/// A glossary: an array whose elements are all strings.
pub open spec fn spec_glossary_of(d: JsonData) -> Option<Seq<Seq<char>>> {
    match d {
        JsonData::Arr(gs) => spec_rows_of(gs, glossary_row_fn()),
        _ => None,
    }
}

fn read_string_array(v: &serde_json::Value) -> (r: Option<Vec<String>>)
    ensures
        (r is Some <==> spec_glossary_of(value_model(*v)) is Some),
        r matches Some(out) ==> spec_glossary_of(value_model(*v)) == Some(out.deep_view()),
{
    let arr = match v.as_array() {
        Some(a) => a,
        None => {
            return None;
        },
    };
    let ghost es = value_model(*v)->Arr_0;
    let mut out: Vec<String> = Vec::new();
    let mut i: usize = 0;
    while i < arr.len()
        invariant
            i <= arr.len(),
            value_model(*v) == JsonData::Arr(es),
            arr@.len() == es.len(),
            forall|j: int| 0 <= j < arr@.len() ==> value_model(#[trigger] arr@[j]) == es[j],
            spec_rows_of(es.take(i as int), glossary_row_fn()) == Some(out.deep_view()),
        decreases arr.len() - i,
    {
        proof {
            assert(es.take(i + 1).drop_last() =~= es.take(i as int));
        }
        match read_str(&arr[i]) {
            Some(s) => {
                let ghost old_out = out.deep_view();
                out.push(s);
                proof {
                    assert(out.deep_view() =~= old_out.push(s@));
                }
            },
            None => {
                proof {
                    lemma_rows_of_prefix_none(es, glossary_row_fn(), i + 1);
                }
                return None;
            },
        }
        i = i + 1;
    }
    proof {
        assert(es.take(es.len() as int) =~= es);
    }
    Some(out)
}

/// The stats of a kanji row: an object whose values are all strings, taken
/// in the order the object's map yields its entries.
pub open spec fn spec_stats_of(d: JsonData) -> Option<Seq<(Seq<char>, Seq<char>)>> {
    match d {
        JsonData::Obj(entries) => spec_stat_rows_of(entries),
        _ => None,
    }
}

fn read_stats(v: &serde_json::Value) -> (r: Option<Stats>)
    ensures
        (r is Some <==> spec_stats_of(value_model(*v)) is Some),
        r matches Some(st) ==> spec_stats_of(value_model(*v)) == Some(st@),
        r matches Some(st) ==> st.keys_unique(),
{
    let es = match value_entries(v) {
        Some(es) => es,
        None => {
            return None;
        },
    };
    let ghost entries = value_model(*v)->Obj_0;
    let mut out: Vec<(String, String)> = Vec::new();
    let mut i: usize = 0;
    while i < es.len()
        invariant
            i <= es.len(),
            value_model(*v) == JsonData::Obj(entries),
            es@.len() == entries.len(),
            forall|j: int|
                0 <= j < es@.len() ==> (#[trigger] es@[j]).0@ == entries[j].0 && value_model(
                    es@[j].1,
                ) == entries[j].1,
            forall|j: int, k: int|
                0 <= j < k < entries.len() ==> (#[trigger] entries[j]).0 != (
                #[trigger] entries[k]).0,
            spec_stat_rows_of(entries.take(i as int)) == Some(out.deep_view()),
            out@.len() == i,
            forall|j: int| 0 <= j < i ==> (#[trigger] out@[j]).0@ == entries[j].0,
        decreases es.len() - i,
    {
        proof {
            assert(entries.take(i + 1).drop_last() =~= entries.take(i as int));
        }
        let pair = &es[i];
        match pair.1.as_str() {
            Some(s) => {
                let ghost old_out = out.deep_view();
                out.push((pair.0.clone(), s.to_owned()));
                proof {
                    assert(out.deep_view() =~= old_out.push((entries[i as int].0, s@)));
                }
            },
            None => {
                proof {
                    lemma_stat_rows_prefix_none(entries, i + 1);
                }
                return None;
            },
        }
        i = i + 1;
    }
    proof {
        assert(entries.take(entries.len() as int) =~= entries);
        let st = Stats(out);
        assert forall|j: int, k: int| 0 <= j < k < st@.len() implies st@[j].0 != st@[k].0 by {
            assert(st@[j].0 == out@[j].0@);
            assert(st@[k].0 == out@[k].0@);
        }
    }
    Some(Stats(out))
}

/// One term row: a positional 8-tuple of expression, reading, definition
/// tags, rules, score, glossary, sequence, term tags, in this exact order.
pub open spec fn spec_term_of(d: JsonData) -> Option<TermData> {
    match d {
        JsonData::Arr(es) => if es.len() != 8 {
            None
        } else {
            match spec_str_of(es[0]) {
                None => None,
                Some(expression) => match spec_str_of(es[1]) {
                    None => None,
                    Some(reading) => match spec_str_of(es[2]) {
                        None => None,
                        Some(dt) => match spec_str_of(es[3]) {
                            None => None,
                            Some(rl) => match spec_i16_of(es[4]) {
                                None => None,
                                Some(score) => match spec_glossary_of(es[5]) {
                                    None => None,
                                    Some(glossary) => match spec_u32_of(es[6]) {
                                        None => None,
                                        Some(sequence) => match spec_str_of(es[7]) {
                                            None => None,
                                            Some(tt) => Some(
                                                TermData {
                                                    expression,
                                                    reading,
                                                    definition_tags: spec_tokens(dt),
                                                    rules: spec_tokens(rl),
                                                    score,
                                                    glossary,
                                                    sequence,
                                                    term_tags: spec_tokens(tt),
                                                },
                                            ),
                                        },
                                    },
                                },
                            },
                        },
                    },
                },
            }
        },
        _ => None,
    }
}

fn read_token_field(v: &serde_json::Value) -> (r: Option<SpaceSeparatedValues>)
    ensures
        (r is Some <==> spec_str_of(value_model(*v)) is Some),
        r matches Some(t) ==> (match spec_str_of(value_model(*v)) {
            Some(s) => t@ == spec_tokens(s),
            None => false,
        }),
{
    match v.as_str() {
        Some(s) => Some(SpaceSeparatedValues::from_text(s)),
        None => None,
    }
}

/// Decode one term row.
pub fn decode_term(v: &serde_json::Value) -> (r: Option<Term>)
    ensures
        (r is Some <==> spec_term_of(value_model(*v)) is Some),
        r matches Some(t) ==> spec_term_of(value_model(*v)) == Some(t@),
{
    let arr = match v.as_array() {
        Some(a) => a,
        None => {
            return None;
        },
    };
    if arr.len() != 8 {
        return None;
    }
    let expression = match read_str(&arr[0]) {
        Some(s) => s,
        None => {
            return None;
        },
    };
    let reading = match read_str(&arr[1]) {
        Some(s) => s,
        None => {
            return None;
        },
    };
    let definition_tags = match read_token_field(&arr[2]) {
        Some(t) => t,
        None => {
            return None;
        },
    };
    let rules = match read_token_field(&arr[3]) {
        Some(t) => t,
        None => {
            return None;
        },
    };
    let score = match read_i16(&arr[4]) {
        Some(k) => k,
        None => {
            return None;
        },
    };
    let glossary = match read_string_array(&arr[5]) {
        Some(g) => g,
        None => {
            return None;
        },
    };
    let sequence = match read_u32(&arr[6]) {
        Some(n) => n,
        None => {
            return None;
        },
    };
    let term_tags = match read_token_field(&arr[7]) {
        Some(t) => t,
        None => {
            return None;
        },
    };
    Some(Term { expression, reading, definition_tags, rules, score, glossary, sequence, term_tags })
}

/// One kanji row: a positional 6-tuple of character, onyomi, kunyomi, tags,
/// meanings, stats, in this exact order.
pub open spec fn spec_kanji_of(d: JsonData) -> Option<KanjiData> {
    match d {
        JsonData::Arr(es) => if es.len() != 6 {
            None
        } else {
            match spec_str_of(es[0]) {
                None => None,
                Some(character) => match spec_str_of(es[1]) {
                    None => None,
                    Some(on) => match spec_str_of(es[2]) {
                        None => None,
                        Some(kun) => match spec_str_of(es[3]) {
                            None => None,
                            Some(tg) => match spec_glossary_of(es[4]) {
                                None => None,
                                Some(meanings) => match spec_stats_of(es[5]) {
                                    None => None,
                                    Some(stats) => Some(
                                        KanjiData {
                                            character,
                                            onyomi: spec_tokens(on),
                                            kunyomi: spec_tokens(kun),
                                            tags: spec_tokens(tg),
                                            meanings,
                                            stats,
                                        },
                                    ),
                                },
                            },
                        },
                    },
                },
            }
        },
        _ => None,
    }
}

/// Decode one kanji row.
pub fn decode_kanji(v: &serde_json::Value) -> (r: Option<Kanji>)
    ensures
        (r is Some <==> spec_kanji_of(value_model(*v)) is Some),
        r matches Some(k) ==> spec_kanji_of(value_model(*v)) == Some(k@),
        r matches Some(k) ==> k.stats.keys_unique(),
{
    let arr = match v.as_array() {
        Some(a) => a,
        None => {
            return None;
        },
    };
    if arr.len() != 6 {
        return None;
    }
    let character = match read_str(&arr[0]) {
        Some(s) => s,
        None => {
            return None;
        },
    };
    let onyomi = match read_token_field(&arr[1]) {
        Some(t) => t,
        None => {
            return None;
        },
    };
    let kunyomi = match read_token_field(&arr[2]) {
        Some(t) => t,
        None => {
            return None;
        },
    };
    let tags = match read_token_field(&arr[3]) {
        Some(t) => t,
        None => {
            return None;
        },
    };
    let meanings = match read_string_array(&arr[4]) {
        Some(g) => g,
        None => {
            return None;
        },
    };
    let stats = match read_stats(&arr[5]) {
        Some(st) => st,
        None => {
            return None;
        },
    };
    Some(Kanji { character, onyomi, kunyomi, tags, meanings, stats })
}

/// One metadata row, kanji or term: a positional 3-tuple of subject, mode
/// label, payload, the payload resolved numeric-first.
pub open spec fn spec_meta_of(d: JsonData) -> Option<MetaEntryData> {
    match d {
        JsonData::Arr(es) => if es.len() != 3 {
            None
        } else {
            match spec_str_of(es[0]) {
                None => None,
                Some(subject) => match spec_str_of(es[1]) {
                    None => None,
                    Some(mode) => Some(
                        MetaEntryData { character: subject, mode, data: spec_meta_payload(es[2]) },
                    ),
                },
            }
        },
        _ => None,
    }
}

/// Decode one kanji metadata row.
pub fn decode_kanji_meta(v: &serde_json::Value) -> (r: Option<KanjiMeta>)
    ensures
        (r is Some <==> spec_meta_of(value_model(*v)) is Some),
        r matches Some(m) ==> spec_meta_of(value_model(*v)) == Some(m@),
{
    let arr = match v.as_array() {
        Some(a) => a,
        None => {
            return None;
        },
    };
    if arr.len() != 3 {
        return None;
    }
    let character = match read_str(&arr[0]) {
        Some(s) => s,
        None => {
            return None;
        },
    };
    let mode = match read_str(&arr[1]) {
        Some(s) => s,
        None => {
            return None;
        },
    };
    let data = resolve_kanji_payload(&arr[2]);
    Some(KanjiMeta { character, mode, data })
}

/// Decode one term metadata row.
pub fn decode_term_meta(v: &serde_json::Value) -> (r: Option<TermMeta>)
    ensures
        (r is Some <==> spec_meta_of(value_model(*v)) is Some),
        r matches Some(m) ==> spec_meta_of(value_model(*v)) == Some(m@),
{
    let arr = match v.as_array() {
        Some(a) => a,
        None => {
            return None;
        },
    };
    if arr.len() != 3 {
        return None;
    }
    let character = match read_str(&arr[0]) {
        Some(s) => s,
        None => {
            return None;
        },
    };
    let mode = match read_str(&arr[1]) {
        Some(s) => s,
        None => {
            return None;
        },
    };
    let data = resolve_term_payload(&arr[2]);
    Some(TermMeta { character, mode, data })
}

/// One tag row: a positional 5-tuple of name, category, order, notes, score,
/// in this exact order.
pub open spec fn spec_tag_of(d: JsonData) -> Option<TagData> {
    match d {
        JsonData::Arr(es) => if es.len() != 5 {
            None
        } else {
            match spec_str_of(es[0]) {
                None => None,
                Some(name) => match spec_str_of(es[1]) {
                    None => None,
                    Some(category) => match spec_i16_of(es[2]) {
                        None => None,
                        Some(order) => match spec_str_of(es[3]) {
                            None => None,
                            Some(notes) => match spec_i16_of(es[4]) {
                                None => None,
                                Some(score) => Some(
                                    TagData { name, category, order, notes, score },
                                ),
                            },
                        },
                    },
                },
            }
        },
        _ => None,
    }
}

/// Decode one tag row.
pub fn decode_tag(v: &serde_json::Value) -> (r: Option<Tag>)
    ensures
        (r is Some <==> spec_tag_of(value_model(*v)) is Some),
        r matches Some(t) ==> spec_tag_of(value_model(*v)) == Some(t@),
{
    let arr = match v.as_array() {
        Some(a) => a,
        None => {
            return None;
        },
    };
    if arr.len() != 5 {
        return None;
    }
    let name = match read_str(&arr[0]) {
        Some(s) => s,
        None => {
            return None;
        },
    };
    let category = match read_str(&arr[1]) {
        Some(s) => s,
        None => {
            return None;
        },
    };
    let order = match read_i16(&arr[2]) {
        Some(k) => k,
        None => {
            return None;
        },
    };
    let notes = match read_str(&arr[3]) {
        Some(s) => s,
        None => {
            return None;
        },
    };
    let score = match read_i16(&arr[4]) {
        Some(k) => k,
        None => {
            return None;
        },
    };
    Some(Tag { name, category, order, notes, score })
}

pub open spec fn term_row_fn() -> spec_fn(JsonData) -> Option<TermData> {
    |r: JsonData| spec_term_of(r)
}

pub open spec fn kanji_row_fn() -> spec_fn(JsonData) -> Option<KanjiData> {
    |r: JsonData| spec_kanji_of(r)
}

pub open spec fn meta_row_fn() -> spec_fn(JsonData) -> Option<MetaEntryData> {
    |r: JsonData| spec_meta_of(r)
}

pub open spec fn tag_row_fn() -> spec_fn(JsonData) -> Option<TagData> {
    |r: JsonData| spec_tag_of(r)
}

/// A term shard: an array of term rows.
pub open spec fn spec_term_bank_of(d: JsonData) -> Option<Seq<TermData>> {
    match d {
        JsonData::Arr(rows) => spec_rows_of(rows, term_row_fn()),
        _ => None,
    }
}

/// A kanji shard: an array of kanji rows.
pub open spec fn spec_kanji_bank_of(d: JsonData) -> Option<Seq<KanjiData>> {
    match d {
        JsonData::Arr(rows) => spec_rows_of(rows, kanji_row_fn()),
        _ => None,
    }
}

/// A metadata shard, kanji or term: an array of metadata rows.
pub open spec fn spec_meta_bank_of(d: JsonData) -> Option<Seq<MetaEntryData>> {
    match d {
        JsonData::Arr(rows) => spec_rows_of(rows, meta_row_fn()),
        _ => None,
    }
}

/// A tag shard: an array of tag rows.
pub open spec fn spec_tag_bank_of(d: JsonData) -> Option<Seq<TagData>> {
    match d {
        JsonData::Arr(rows) => spec_rows_of(rows, tag_row_fn()),
        _ => None,
    }
}

/// Decode a whole term shard.
pub fn decode_term_bank(v: &serde_json::Value) -> (r: Option<Vec<Term>>)
    ensures
        (r is Some <==> spec_term_bank_of(value_model(*v)) is Some),
        r matches Some(rows) ==> spec_term_bank_of(value_model(*v)) == Some(rows.deep_view()),
{
    let arr = match v.as_array() {
        Some(a) => a,
        None => {
            return None;
        },
    };
    let ghost es = value_model(*v)->Arr_0;
    let mut out: Vec<Term> = Vec::new();
    let mut i: usize = 0;
    while i < arr.len()
        invariant
            i <= arr.len(),
            value_model(*v) == JsonData::Arr(es),
            arr@.len() == es.len(),
            forall|j: int| 0 <= j < arr@.len() ==> value_model(#[trigger] arr@[j]) == es[j],
            spec_rows_of(es.take(i as int), term_row_fn()) == Some(out.deep_view()),
        decreases arr.len() - i,
    {
        proof {
            assert(es.take(i + 1).drop_last() =~= es.take(i as int));
        }
        match decode_term(&arr[i]) {
            Some(t) => {
                let ghost old_out = out.deep_view();
                let ghost tv = t@;
                out.push(t);
                proof {
                    assert(out.deep_view() =~= old_out.push(tv));
                }
            },
            None => {
                proof {
                    lemma_rows_of_prefix_none(es, term_row_fn(), i + 1);
                }
                return None;
            },
        }
        i = i + 1;
    }
    proof {
        assert(es.take(es.len() as int) =~= es);
    }
    Some(out)
}

/// Decode a whole kanji shard.
pub fn decode_kanji_bank(v: &serde_json::Value) -> (r: Option<Vec<Kanji>>)
    ensures
        (r is Some <==> spec_kanji_bank_of(value_model(*v)) is Some),
        r matches Some(rows) ==> spec_kanji_bank_of(value_model(*v)) == Some(rows.deep_view()),
        r matches Some(rows) ==> forall|j: int|
            0 <= j < rows@.len() ==> (#[trigger] rows@[j]).stats.keys_unique(),
{
    let arr = match v.as_array() {
        Some(a) => a,
        None => {
            return None;
        },
    };
    let ghost es = value_model(*v)->Arr_0;
    let mut out: Vec<Kanji> = Vec::new();
    let mut i: usize = 0;
    while i < arr.len()
        invariant
            i <= arr.len(),
            value_model(*v) == JsonData::Arr(es),
            arr@.len() == es.len(),
            forall|j: int| 0 <= j < arr@.len() ==> value_model(#[trigger] arr@[j]) == es[j],
            spec_rows_of(es.take(i as int), kanji_row_fn()) == Some(out.deep_view()),
            forall|j: int| 0 <= j < out@.len() ==> (#[trigger] out@[j]).stats.keys_unique(),
        decreases arr.len() - i,
    {
        proof {
            assert(es.take(i + 1).drop_last() =~= es.take(i as int));
        }
        match decode_kanji(&arr[i]) {
            Some(k) => {
                let ghost old_out = out.deep_view();
                let ghost kv = k@;
                out.push(k);
                proof {
                    assert(out.deep_view() =~= old_out.push(kv));
                }
            },
            None => {
                proof {
                    lemma_rows_of_prefix_none(es, kanji_row_fn(), i + 1);
                }
                return None;
            },
        }
        i = i + 1;
    }
    proof {
        assert(es.take(es.len() as int) =~= es);
    }
    Some(out)
}

/// Decode a whole kanji metadata shard.
pub fn decode_kanji_meta_bank(v: &serde_json::Value) -> (r: Option<Vec<KanjiMeta>>)
    ensures
        (r is Some <==> spec_meta_bank_of(value_model(*v)) is Some),
        r matches Some(rows) ==> spec_meta_bank_of(value_model(*v)) == Some(rows.deep_view()),
{
    let arr = match v.as_array() {
        Some(a) => a,
        None => {
            return None;
        },
    };
    let ghost es = value_model(*v)->Arr_0;
    let mut out: Vec<KanjiMeta> = Vec::new();
    let mut i: usize = 0;
    while i < arr.len()
        invariant
            i <= arr.len(),
            value_model(*v) == JsonData::Arr(es),
            arr@.len() == es.len(),
            forall|j: int| 0 <= j < arr@.len() ==> value_model(#[trigger] arr@[j]) == es[j],
            spec_rows_of(es.take(i as int), meta_row_fn()) == Some(out.deep_view()),
        decreases arr.len() - i,
    {
        proof {
            assert(es.take(i + 1).drop_last() =~= es.take(i as int));
        }
        match decode_kanji_meta(&arr[i]) {
            Some(m) => {
                let ghost old_out = out.deep_view();
                let ghost mv = m@;
                out.push(m);
                proof {
                    assert(out.deep_view() =~= old_out.push(mv));
                }
            },
            None => {
                proof {
                    lemma_rows_of_prefix_none(es, meta_row_fn(), i + 1);
                }
                return None;
            },
        }
        i = i + 1;
    }
    proof {
        assert(es.take(es.len() as int) =~= es);
    }
    Some(out)
}

/// Decode a whole term metadata shard.
pub fn decode_term_meta_bank(v: &serde_json::Value) -> (r: Option<Vec<TermMeta>>)
    ensures
        (r is Some <==> spec_meta_bank_of(value_model(*v)) is Some),
        r matches Some(rows) ==> spec_meta_bank_of(value_model(*v)) == Some(rows.deep_view()),
{
    let arr = match v.as_array() {
        Some(a) => a,
        None => {
            return None;
        },
    };
    let ghost es = value_model(*v)->Arr_0;
    let mut out: Vec<TermMeta> = Vec::new();
    let mut i: usize = 0;
    while i < arr.len()
        invariant
            i <= arr.len(),
            value_model(*v) == JsonData::Arr(es),
            arr@.len() == es.len(),
            forall|j: int| 0 <= j < arr@.len() ==> value_model(#[trigger] arr@[j]) == es[j],
            spec_rows_of(es.take(i as int), meta_row_fn()) == Some(out.deep_view()),
        decreases arr.len() - i,
    {
        proof {
            assert(es.take(i + 1).drop_last() =~= es.take(i as int));
        }
        match decode_term_meta(&arr[i]) {
            Some(m) => {
                let ghost old_out = out.deep_view();
                let ghost mv = m@;
                out.push(m);
                proof {
                    assert(out.deep_view() =~= old_out.push(mv));
                }
            },
            None => {
                proof {
                    lemma_rows_of_prefix_none(es, meta_row_fn(), i + 1);
                }
                return None;
            },
        }
        i = i + 1;
    }
    proof {
        assert(es.take(es.len() as int) =~= es);
    }
    Some(out)
}

/// Decode a whole tag shard.
pub fn decode_tag_bank(v: &serde_json::Value) -> (r: Option<Vec<Tag>>)
    ensures
        (r is Some <==> spec_tag_bank_of(value_model(*v)) is Some),
        r matches Some(rows) ==> spec_tag_bank_of(value_model(*v)) == Some(rows.deep_view()),
{
    let arr = match v.as_array() {
        Some(a) => a,
        None => {
            return None;
        },
    };
    let ghost es = value_model(*v)->Arr_0;
    let mut out: Vec<Tag> = Vec::new();
    let mut i: usize = 0;
    while i < arr.len()
        invariant
            i <= arr.len(),
            value_model(*v) == JsonData::Arr(es),
            arr@.len() == es.len(),
            forall|j: int| 0 <= j < arr@.len() ==> value_model(#[trigger] arr@[j]) == es[j],
            spec_rows_of(es.take(i as int), tag_row_fn()) == Some(out.deep_view()),
        decreases arr.len() - i,
    {
        proof {
            assert(es.take(i + 1).drop_last() =~= es.take(i as int));
        }
        match decode_tag(&arr[i]) {
            Some(t) => {
                let ghost old_out = out.deep_view();
                let ghost tv = t@;
                out.push(t);
                proof {
                    assert(out.deep_view() =~= old_out.push(tv));
                }
            },
            None => {
                proof {
                    lemma_rows_of_prefix_none(es, tag_row_fn(), i + 1);
                }
                return None;
            },
        }
        i = i + 1;
    }
    proof {
        assert(es.take(es.len() as int) =~= es);
    }
    Some(out)
}

} // verus!
