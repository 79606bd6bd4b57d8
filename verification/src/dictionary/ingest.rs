//! Ingestion of one archive into a dictionary.
//!
//! One sequential pass over the container's members, in container order: each
//! member is classified by name, skipped or decoded, and every decoded
//! shard's rows are appended to the matching accumulator, so that same-role
//! shards merge into one logical collection. Ingestion is all-or-nothing: a
//! member that fails to decode aborts the pass with an error naming it, and a
//! pass that found no manifest fails too. The whole result is a function of
//! the archive's bytes alone, stated by `spec_ingest`.

use vstd::prelude::*;

use crate::archive::{archive_len, member_bytes_at, member_name_at, open_archive,
    spec_parse_archive, zip_members};
use crate::classify::{classify, spec_classify, MemberRole};
use crate::json::{parse_json, spec_parse_json};
use crate::dictionary::decode::{decode_kanji_bank, decode_kanji_meta_bank, decode_manifest,
    decode_tag_bank, decode_term_bank, decode_term_meta_bank, spec_kanji_bank_of,
    spec_manifest_of, spec_meta_bank_of, spec_tag_bank_of, spec_term_bank_of};
use crate::dictionary::yomichan::{Dictionary, DictionaryData, Index, IndexData, Kanji, KanjiData,
    KanjiMeta, MetaEntryData, Tag, TagData, Term, TermData, TermMeta};

verus! {

/// Why a member was rejected.
#[derive(PartialEq, Eq, Structural, Clone, Copy, Debug)]
pub enum DecodeCause {
    /// The member's content could not be read out of the container.
    Unreadable,
    /// The content is not one well-formed JSON document.
    MalformedJson,
    /// The document does not match the member's schema.
    Schema,
}

/// An ingestion failure. Fatal for the whole archive: no partial aggregate is
/// ever returned.
#[derive(Debug, Clone, PartialEq)]
pub enum IngestError {
    /// The container is unreadable or corrupt.
    ArchiveOpen,
    /// No manifest member was found.
    ManifestMissing,
    /// A member's content does not match its schema.
    Decode { member: String, cause: DecodeCause },
}

pub ghost enum IngestErrorData {
    ArchiveOpen,
    ManifestMissing,
    Decode { member: Seq<char>, cause: DecodeCause },
}

impl View for IngestError {
    type V = IngestErrorData;

    open spec fn view(&self) -> IngestErrorData {
        match self {
            IngestError::ArchiveOpen => IngestErrorData::ArchiveOpen,
            IngestError::ManifestMissing => IngestErrorData::ManifestMissing,
            IngestError::Decode { member, cause } => IngestErrorData::Decode {
                member: member@,
                cause: *cause,
            },
        }
    }
}

/// What one member contributes to the aggregate.
pub ghost enum MemberData {
    Ignored,
    ManifestOf(IndexData),
    KanjiRows(Seq<KanjiData>),
    KanjiMetaRows(Seq<MetaEntryData>),
    TermRows(Seq<TermData>),
    TermMetaRows(Seq<MetaEntryData>),
    TagRows(Seq<TagData>),
}

/// Decode one member, by its name's role. Independent of every other member.
pub open spec fn spec_member_decode(name: Seq<char>, content: Option<Seq<u8>>) -> Result<
    MemberData,
    IngestErrorData,
> {
    let role = spec_classify(name);
    if role == MemberRole::Skipped || role == MemberRole::Unrecognized {
        Ok(MemberData::Ignored)
    } else {
        match content {
            None => Err(IngestErrorData::Decode { member: name, cause: DecodeCause::Unreadable }),
            Some(bytes) => match spec_parse_json(bytes) {
                None => Err(
                    IngestErrorData::Decode { member: name, cause: DecodeCause::MalformedJson },
                ),
                Some(d) => match role {
                    MemberRole::Manifest => match spec_manifest_of(d) {
                        Some(ix) => Ok(MemberData::ManifestOf(ix)),
                        None => Err(
                            IngestErrorData::Decode { member: name, cause: DecodeCause::Schema },
                        ),
                    },
                    MemberRole::KanjiShard => match spec_kanji_bank_of(d) {
                        Some(rows) => Ok(MemberData::KanjiRows(rows)),
                        None => Err(
                            IngestErrorData::Decode { member: name, cause: DecodeCause::Schema },
                        ),
                    },
                    MemberRole::KanjiMetaShard => match spec_meta_bank_of(d) {
                        Some(rows) => Ok(MemberData::KanjiMetaRows(rows)),
                        None => Err(
                            IngestErrorData::Decode { member: name, cause: DecodeCause::Schema },
                        ),
                    },
                    MemberRole::TermShard => match spec_term_bank_of(d) {
                        Some(rows) => Ok(MemberData::TermRows(rows)),
                        None => Err(
                            IngestErrorData::Decode { member: name, cause: DecodeCause::Schema },
                        ),
                    },
                    MemberRole::TermMetaShard => match spec_meta_bank_of(d) {
                        Some(rows) => Ok(MemberData::TermMetaRows(rows)),
                        None => Err(
                            IngestErrorData::Decode { member: name, cause: DecodeCause::Schema },
                        ),
                    },
                    MemberRole::TagShard => match spec_tag_bank_of(d) {
                        Some(rows) => Ok(MemberData::TagRows(rows)),
                        None => Err(
                            IngestErrorData::Decode { member: name, cause: DecodeCause::Schema },
                        ),
                    },
                    _ => Ok(MemberData::Ignored),
                },
            },
        }
    }
}

/// The accumulators of one pass.
pub ghost struct IngestAcc {
    pub index: Option<IndexData>,
    pub kanji: Seq<KanjiData>,
    pub kanji_meta: Seq<MetaEntryData>,
    pub terms: Seq<TermData>,
    pub term_meta: Seq<MetaEntryData>,
    pub tag_meta: Seq<TagData>,
}

pub open spec fn empty_acc() -> IngestAcc {
    IngestAcc {
        index: None,
        kanji: Seq::<KanjiData>::empty(),
        kanji_meta: Seq::<MetaEntryData>::empty(),
        terms: Seq::<TermData>::empty(),
        term_meta: Seq::<MetaEntryData>::empty(),
        tag_meta: Seq::<TagData>::empty(),
    }
}

/// Merge one member's contribution: shard rows append to their collection; a
/// manifest sets the index, a later one winning over an earlier one.
pub open spec fn spec_apply(st: IngestAcc, md: MemberData) -> IngestAcc {
    match md {
        MemberData::Ignored => st,
        MemberData::ManifestOf(ix) => IngestAcc { index: Some(ix), ..st },
        MemberData::KanjiRows(rows) => IngestAcc { kanji: st.kanji + rows, ..st },
        MemberData::KanjiMetaRows(rows) => IngestAcc { kanji_meta: st.kanji_meta + rows, ..st },
        MemberData::TermRows(rows) => IngestAcc { terms: st.terms + rows, ..st },
        MemberData::TermMetaRows(rows) => IngestAcc { term_meta: st.term_meta + rows, ..st },
        MemberData::TagRows(rows) => IngestAcc { tag_meta: st.tag_meta + rows, ..st },
    }
}

pub open spec fn spec_ingest_step(st: IngestAcc, name: Seq<char>, content: Option<Seq<u8>>) -> Result<
    IngestAcc,
    IngestErrorData,
> {
    match spec_member_decode(name, content) {
        Ok(md) => Ok(spec_apply(st, md)),
        Err(e) => Err(e),
    }
}

/// Fold the pass over the members, in container order.
pub open spec fn spec_ingest_members(members: Seq<(Seq<char>, Option<Seq<u8>>)>) -> Result<
    IngestAcc,
    IngestErrorData,
>
    decreases members.len(),
{
    if members.len() == 0 {
        Ok(empty_acc())
    } else {
        match spec_ingest_members(members.drop_last()) {
            Err(e) => Err(e),
            Ok(st) => spec_ingest_step(st, members.last().0, members.last().1),
        }
    }
}

/// What ingesting these bytes yields: the aggregate, or the first failure.
pub open spec fn spec_ingest(bytes: Seq<u8>) -> Result<DictionaryData, IngestErrorData> {
    match spec_parse_archive(bytes) {
        None => Err(IngestErrorData::ArchiveOpen),
        Some(members) => match spec_ingest_members(members) {
            Err(e) => Err(e),
            Ok(st) => match st.index {
                None => Err(IngestErrorData::ManifestMissing),
                Some(ix) => Ok(
                    DictionaryData {
                        index: ix,
                        kanji: st.kanji,
                        kanji_meta: st.kanji_meta,
                        terms: st.terms,
                        term_meta: st.term_meta,
                        tag_meta: st.tag_meta,
                    },
                ),
            },
        },
    }
}

/// A pass that failed on some prefix of the members fails the same way on
/// the whole member list.
pub proof fn lemma_error_persists(members: Seq<(Seq<char>, Option<Seq<u8>>)>, i: int)
    requires
        0 <= i <= members.len(),
        spec_ingest_members(members.take(i)) is Err,
    ensures
        spec_ingest_members(members) == spec_ingest_members(members.take(i)),
    decreases members.len() - i,
{
    if i == members.len() {
        assert(members.take(i) =~= members);
    } else {
        assert(members.take(i + 1).drop_last() =~= members.take(i));
        lemma_error_persists(members, i + 1);
    }
}

/// The names of the JSON members that match no known role, in container
/// order. Such members never abort an ingestion; they are reported as
/// warnings by the caller.
pub open spec fn spec_unrecognized(members: Seq<(Seq<char>, Option<Seq<u8>>)>) -> Seq<Seq<char>>
    decreases members.len(),
{
    if members.len() == 0 {
        Seq::<Seq<char>>::empty()
    } else {
        spec_unrecognized(members.drop_last()) + (if spec_classify(members.last().0)
            == MemberRole::Unrecognized {
            seq![members.last().0]
        } else {
            Seq::<Seq<char>>::empty()
        })
    }
}

/// List the members of the archive that end in the JSON suffix but match no
/// known role, for the caller's warning log. `None` where the bytes are not
/// a well-formed archive.
pub fn unrecognized_members(data: &[u8]) -> (r: Option<Vec<String>>)
    ensures
        (r is Some <==> spec_parse_archive(data@) is Some),
        r matches Some(names) ==> (match spec_parse_archive(data@) {
            Some(members) => names.deep_view() == spec_unrecognized(members),
            None => false,
        }),
{
    let archive = match open_archive(data) {
        Some(a) => a,
        None => {
            return None;
        },
    };
    let ghost members = zip_members(archive);
    let n = archive_len(&archive);
    let mut out: Vec<String> = Vec::new();
    let mut i: usize = 0;
    proof {
        assert(members.take(0) =~= Seq::<(Seq<char>, Option<Seq<u8>>)>::empty());
        assert(out.deep_view() =~= Seq::<Seq<char>>::empty());
    }
    while i < n
        invariant
            i <= n,
            n == members.len(),
            zip_members(archive) == members,
            out.deep_view() == spec_unrecognized(members.take(i as int)),
        decreases n - i,
    {
        proof {
            assert(members.take(i + 1).drop_last() =~= members.take(i as int));
            assert(members.take(i + 1).last() == members[i as int]);
        }
        let name = member_name_at(&archive, i);
        let role = classify(name.as_str());
        if role == MemberRole::Unrecognized {
            let ghost old_out = out.deep_view();
            let ghost nv = name@;
            out.push(name);
            proof {
                assert(out.deep_view() =~= old_out.push(nv));
                assert(out.deep_view() =~= spec_unrecognized(members.take(i as int)) + seq![nv]);
            }
        } else {
            proof {
                assert(spec_unrecognized(members.take(i + 1)) =~= spec_unrecognized(
                    members.take(i as int),
                ));
            }
        }
        i = i + 1;
    }
    proof {
        assert(members.take(n as int) =~= members);
    }
    Some(out)
}

/// The ingestion summary of an aggregate: each non-empty collection's label
/// and element count, in a fixed order. An empty collection is omitted from
/// the summary, never from the aggregate.
pub open spec fn spec_summary(d: DictionaryData) -> Seq<(Seq<char>, usize)> {
    (if d.kanji.len() > 0 {
        seq![("kanji"@, d.kanji.len() as usize)]
    } else {
        Seq::<(Seq<char>, usize)>::empty()
    }) + (if d.kanji_meta.len() > 0 {
        seq![("kanji meta"@, d.kanji_meta.len() as usize)]
    } else {
        Seq::<(Seq<char>, usize)>::empty()
    }) + (if d.terms.len() > 0 {
        seq![("terms"@, d.terms.len() as usize)]
    } else {
        Seq::<(Seq<char>, usize)>::empty()
    }) + (if d.term_meta.len() > 0 {
        seq![("term meta"@, d.term_meta.len() as usize)]
    } else {
        Seq::<(Seq<char>, usize)>::empty()
    }) + (if d.tag_meta.len() > 0 {
        seq![("tags"@, d.tag_meta.len() as usize)]
    } else {
        Seq::<(Seq<char>, usize)>::empty()
    })
}

impl Dictionary {
    /// The ingestion summary: labels and counts of the non-empty
    /// collections. Informational output only.
    pub fn summary(&self) -> (r: Vec<(String, usize)>)
        ensures
            r.deep_view() == spec_summary(self@),
    {
        let mut out: Vec<(String, usize)> = Vec::new();
        if self.kanji.len() > 0 {
            out.push(("kanji".to_owned(), self.kanji.len()));
        }
        if self.kanji_meta.len() > 0 {
            out.push(("kanji meta".to_owned(), self.kanji_meta.len()));
        }
        if self.terms.len() > 0 {
            out.push(("terms".to_owned(), self.terms.len()));
        }
        if self.term_meta.len() > 0 {
            out.push(("term meta".to_owned(), self.term_meta.len()));
        }
        if self.tag_meta.len() > 0 {
            out.push(("tags".to_owned(), self.tag_meta.len()));
        }
        proof {
            assert(out.deep_view() =~= spec_summary(self@));
        }
        out
    }
}

impl Dictionary {
    /// Ingest one archive, given the container's full bytes. Returns the
    /// aggregate exactly where `spec_ingest` accepts the bytes, and the same
    /// error `spec_ingest` names otherwise.
    pub fn new(data: &[u8]) -> (r: Result<Dictionary, IngestError>)
        ensures
            (match r {
                Ok(d) => spec_ingest(data@) == Ok::<DictionaryData, IngestErrorData>(d@),
                Err(e) => spec_ingest(data@) == Err::<DictionaryData, IngestErrorData>(e@),
            }),
            r matches Ok(d) ==> forall|j: int|
                0 <= j < d.kanji@.len() ==> (#[trigger] d.kanji@[j]).stats.keys_unique(),
    {
        let mut archive = match open_archive(data) {
            Some(a) => a,
            None => {
                return Err(IngestError::ArchiveOpen);
            },
        };
        let ghost members = zip_members(archive);
        let n = archive_len(&archive);
        let mut index: Option<Index> = None;
        let mut kanji: Vec<Kanji> = Vec::new();
        let mut kanji_meta: Vec<KanjiMeta> = Vec::new();
        let mut terms: Vec<Term> = Vec::new();
        let mut term_meta: Vec<TermMeta> = Vec::new();
        let mut tag_meta: Vec<Tag> = Vec::new();
        let mut i: usize = 0;
        proof {
            assert(members.take(0) =~= Seq::<(Seq<char>, Option<Seq<u8>>)>::empty());
            assert(kanji.deep_view() =~= Seq::<KanjiData>::empty());
            assert(kanji_meta.deep_view() =~= Seq::<MetaEntryData>::empty());
            assert(terms.deep_view() =~= Seq::<TermData>::empty());
            assert(term_meta.deep_view() =~= Seq::<MetaEntryData>::empty());
            assert(tag_meta.deep_view() =~= Seq::<TagData>::empty());
        }
        while i < n
            invariant
                i <= n,
                n == members.len(),
                zip_members(archive) == members,
                spec_parse_archive(data@) == Some(members),
                spec_ingest_members(members.take(i as int)) == Ok::<IngestAcc, IngestErrorData>(
                    IngestAcc {
                        index: index.deep_view(),
                        kanji: kanji.deep_view(),
                        kanji_meta: kanji_meta.deep_view(),
                        terms: terms.deep_view(),
                        term_meta: term_meta.deep_view(),
                        tag_meta: tag_meta.deep_view(),
                    },
                ),
                forall|j: int| 0 <= j < kanji@.len() ==> (#[trigger] kanji@[j]).stats.keys_unique(),
            decreases n - i,
        {
            proof {
                assert(members.take(i + 1).drop_last() =~= members.take(i as int));
                assert(members.take(i + 1).last() == members[i as int]);
            }
            let name = member_name_at(&archive, i);
            let role = classify(name.as_str());
            let skip = match role {
                MemberRole::Skipped | MemberRole::Unrecognized => true,
                _ => false,
            };
            if !skip {
                let bytes = match member_bytes_at(&mut archive, i) {
                    Some(b) => b,
                    None => {
                        proof {
                            lemma_error_persists(members, i + 1);
                        }
                        return Err(
                            IngestError::Decode { member: name, cause: DecodeCause::Unreadable },
                        );
                    },
                };
                let v = match parse_json(bytes.as_slice()) {
                    Some(v) => v,
                    None => {
                        proof {
                            lemma_error_persists(members, i + 1);
                        }
                        return Err(
                            IngestError::Decode { member: name, cause: DecodeCause::MalformedJson },
                        );
                    },
                };
                match role {
                    MemberRole::Manifest => {
                        match decode_manifest(&v) {
                            Some(ix) => {
                                index = Some(ix);
                            },
                            None => {
                                proof {
                                    lemma_error_persists(members, i + 1);
                                }
                                return Err(
                                    IngestError::Decode {
                                        member: name,
                                        cause: DecodeCause::Schema,
                                    },
                                );
                            },
                        }
                    },
                    MemberRole::KanjiShard => {
                        match decode_kanji_bank(&v) {
                            Some(mut rows) => {
                                let ghost old_dv = kanji.deep_view();
                                let ghost rows_dv = rows.deep_view();
                                kanji.append(&mut rows);
                                proof {
                                    assert(kanji.deep_view() =~= old_dv + rows_dv);
                                }
                            },
                            None => {
                                proof {
                                    lemma_error_persists(members, i + 1);
                                }
                                return Err(
                                    IngestError::Decode {
                                        member: name,
                                        cause: DecodeCause::Schema,
                                    },
                                );
                            },
                        }
                    },
                    MemberRole::KanjiMetaShard => {
                        match decode_kanji_meta_bank(&v) {
                            Some(mut rows) => {
                                let ghost old_dv = kanji_meta.deep_view();
                                let ghost rows_dv = rows.deep_view();
                                kanji_meta.append(&mut rows);
                                proof {
                                    assert(kanji_meta.deep_view() =~= old_dv + rows_dv);
                                }
                            },
                            None => {
                                proof {
                                    lemma_error_persists(members, i + 1);
                                }
                                return Err(
                                    IngestError::Decode {
                                        member: name,
                                        cause: DecodeCause::Schema,
                                    },
                                );
                            },
                        }
                    },
                    MemberRole::TermShard => {
                        match decode_term_bank(&v) {
                            Some(mut rows) => {
                                let ghost old_dv = terms.deep_view();
                                let ghost rows_dv = rows.deep_view();
                                terms.append(&mut rows);
                                proof {
                                    assert(terms.deep_view() =~= old_dv + rows_dv);
                                }
                            },
                            None => {
                                proof {
                                    lemma_error_persists(members, i + 1);
                                }
                                return Err(
                                    IngestError::Decode {
                                        member: name,
                                        cause: DecodeCause::Schema,
                                    },
                                );
                            },
                        }
                    },
                    MemberRole::TermMetaShard => {
                        match decode_term_meta_bank(&v) {
                            Some(mut rows) => {
                                let ghost old_dv = term_meta.deep_view();
                                let ghost rows_dv = rows.deep_view();
                                term_meta.append(&mut rows);
                                proof {
                                    assert(term_meta.deep_view() =~= old_dv + rows_dv);
                                }
                            },
                            None => {
                                proof {
                                    lemma_error_persists(members, i + 1);
                                }
                                return Err(
                                    IngestError::Decode {
                                        member: name,
                                        cause: DecodeCause::Schema,
                                    },
                                );
                            },
                        }
                    },
                    MemberRole::TagShard => {
                        match decode_tag_bank(&v) {
                            Some(mut rows) => {
                                let ghost old_dv = tag_meta.deep_view();
                                let ghost rows_dv = rows.deep_view();
                                tag_meta.append(&mut rows);
                                proof {
                                    assert(tag_meta.deep_view() =~= old_dv + rows_dv);
                                }
                            },
                            None => {
                                proof {
                                    lemma_error_persists(members, i + 1);
                                }
                                return Err(
                                    IngestError::Decode {
                                        member: name,
                                        cause: DecodeCause::Schema,
                                    },
                                );
                            },
                        }
                    },
                    MemberRole::Skipped | MemberRole::Unrecognized => {
                    },
                }
            }
            i = i + 1;
        }
        proof {
            assert(members.take(n as int) =~= members);
        }
        match index {
            Some(ix) => Ok(Dictionary { index: ix, kanji, kanji_meta, terms, term_meta, tag_meta }),
            None => Err(IngestError::ManifestMissing),
        }
    }
}

} // verus!
