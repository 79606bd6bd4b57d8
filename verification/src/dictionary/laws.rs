//! Laws of the ingestion pass, proved over `spec_ingest`.

use vstd::prelude::*;

use crate::archive::spec_parse_archive;
use crate::classify::{spec_classify, MemberRole};
use crate::dictionary::ingest::{empty_acc, lemma_error_persists, spec_ingest, spec_ingest_members,
    spec_member_decode, IngestAcc, IngestErrorData, MemberData};
use crate::dictionary::yomichan::{DictionaryData, TermData};

verus! {

pub open spec fn acc_of(r: Result<IngestAcc, IngestErrorData>) -> IngestAcc {
    match r {
        Ok(st) => st,
        Err(_) => empty_acc(),
    }
}

pub open spec fn member_err_of(r: Result<MemberData, IngestErrorData>) -> IngestErrorData {
    match r {
        Err(e) => e,
        Ok(_) => IngestErrorData::ArchiveOpen,
    }
}

/// The term rows one member contributes: the decoded rows of a term shard,
/// nothing from any member of another role.
pub open spec fn member_term_rows(m: (Seq<char>, Option<Seq<u8>>)) -> Seq<TermData> {
    match spec_member_decode(m.0, m.1) {
        Ok(MemberData::TermRows(rows)) => rows,
        _ => Seq::<TermData>::empty(),
    }
}

/// Concatenation of all members' term rows: member order first, in-file
/// order within one member.
pub open spec fn spec_term_concat(members: Seq<(Seq<char>, Option<Seq<u8>>)>) -> Seq<TermData>
    decreases members.len(),
{
    if members.len() == 0 {
        Seq::<TermData>::empty()
    } else {
        spec_term_concat(members.drop_last()) + member_term_rows(members.last())
    }
}

/// A pass that succeeds collects exactly the concatenation of its term
/// shards' rows, in member order then in-file order.
pub proof fn lemma_terms_are_shard_concat(members: Seq<(Seq<char>, Option<Seq<u8>>)>)
    requires
        spec_ingest_members(members) is Ok,
    ensures
        acc_of(spec_ingest_members(members)).terms == spec_term_concat(members),
    decreases members.len(),
{
    if members.len() == 0 {
        assert(acc_of(spec_ingest_members(members)).terms =~= spec_term_concat(members));
    } else {
        assert(spec_ingest_members(members.drop_last()) is Ok);
        lemma_terms_are_shard_concat(members.drop_last());
        assert(acc_of(spec_ingest_members(members)).terms =~= spec_term_concat(members));
    }
}

/// Ingesting an archive yields the term collection equal to the
/// concatenation of its term shards' rows, in container order.
pub proof fn lemma_ingest_terms_in_order(
    bytes: Seq<u8>,
    members: Seq<(Seq<char>, Option<Seq<u8>>)>,
    d: DictionaryData,
)
    requires
        spec_parse_archive(bytes) == Some(members),
        spec_ingest(bytes) == Ok::<DictionaryData, IngestErrorData>(d),
    ensures
        d.terms == spec_term_concat(members),
{
    lemma_terms_are_shard_concat(members);
}

/// The number of members that classify as term shards.
pub open spec fn count_term_shards(members: Seq<(Seq<char>, Option<Seq<u8>>)>) -> nat
    decreases members.len(),
{
    if members.len() == 0 {
        0nat
    } else {
        count_term_shards(members.drop_last()) + (if spec_classify(members.last().0)
            == MemberRole::TermShard {
            1nat
        } else {
            0nat
        })
    }
}

/// A member that does not classify as a term shard contributes no term rows.
pub proof fn lemma_non_term_member_rows_empty(m: (Seq<char>, Option<Seq<u8>>))
    requires
        spec_classify(m.0) != MemberRole::TermShard,
    ensures
        member_term_rows(m) =~= Seq::<TermData>::empty(),
{
}

/// An archive of N term shards, each holding k rows, yields exactly N * k
/// term entries.
pub proof fn lemma_term_count(members: Seq<(Seq<char>, Option<Seq<u8>>)>, k: nat)
    requires
        spec_ingest_members(members) is Ok,
        forall|i: int|
            0 <= i < members.len() && spec_classify((#[trigger] members[i]).0)
                == MemberRole::TermShard ==> member_term_rows(members[i]).len() == k,
    ensures
        spec_term_concat(members).len() == count_term_shards(members) * k,
    decreases members.len(),
{
    if members.len() == 0 {
        assert(count_term_shards(members) == 0nat);
        assert(count_term_shards(members) * k == 0nat) by (nonlinear_arith)
            requires
                count_term_shards(members) == 0nat,
        ;
        assert(spec_term_concat(members).len() == 0nat);
    } else {
        let prefix = members.drop_last();
        assert(spec_ingest_members(prefix) is Ok);
        assert(forall|i: int|
            0 <= i < prefix.len() && spec_classify((#[trigger] prefix[i]).0)
                == MemberRole::TermShard ==> member_term_rows(prefix[i]).len() == k) by {
            assert(forall|i: int| 0 <= i < prefix.len() ==> #[trigger] prefix[i] == members[i]);
        }
        lemma_term_count(prefix, k);
        let n0 = count_term_shards(prefix);
        assert(spec_term_concat(prefix).len() == n0 * k);
        if spec_classify(members.last().0) == MemberRole::TermShard {
            assert(members.last() == members[members.len() - 1]);
            assert(member_term_rows(members.last()).len() == k);
            assert(count_term_shards(members) == n0 + 1);
            assert(spec_term_concat(members).len() == n0 * k + k);
            assert((n0 + 1) * k == n0 * k + k) by (nonlinear_arith);
        } else {
            lemma_non_term_member_rows_empty(members.last());
            assert(count_term_shards(members) == n0);
            assert(spec_term_concat(members).len() == n0 * k);
        }
    }
}

/// A pass that succeeds on the whole member list succeeds on every prefix.
pub proof fn lemma_fold_ok_prefix_ok(members: Seq<(Seq<char>, Option<Seq<u8>>)>, m: int)
    requires
        0 <= m <= members.len(),
        spec_ingest_members(members) is Ok,
    ensures
        spec_ingest_members(members.take(m)) is Ok,
    decreases members.len() - m,
{
    if m == members.len() {
        assert(members.take(m) =~= members);
    } else {
        lemma_fold_ok_prefix_ok(members, m + 1);
        assert(members.take(m + 1).drop_last() =~= members.take(m));
    }
}

/// Where every member before `m` decodes, the pass reaches `m` successfully.
pub proof fn lemma_all_ok_fold_ok(members: Seq<(Seq<char>, Option<Seq<u8>>)>, m: int)
    requires
        0 <= m <= members.len(),
        forall|i: int|
            0 <= i < m ==> spec_member_decode((#[trigger] members[i]).0, members[i].1) is Ok,
    ensures
        spec_ingest_members(members.take(m)) is Ok,
    decreases m,
{
    if m == 0 {
        assert(members.take(0) =~= Seq::<(Seq<char>, Option<Seq<u8>>)>::empty());
    } else {
        lemma_all_ok_fold_ok(members, m - 1);
        assert(members.take(m).drop_last() =~= members.take(m - 1));
        assert(members.take(m).last() == members[m - 1]);
    }
}

/// A pass that succeeds found a manifest member wherever its index is set.
pub proof fn lemma_no_manifest_no_index(members: Seq<(Seq<char>, Option<Seq<u8>>)>)
    requires
        spec_ingest_members(members) is Ok,
        forall|i: int|
            0 <= i < members.len() ==> spec_classify((#[trigger] members[i]).0)
                != MemberRole::Manifest,
    ensures
        acc_of(spec_ingest_members(members)).index is None,
    decreases members.len(),
{
    if members.len() == 0 {
    } else {
        let prefix = members.drop_last();
        assert(spec_ingest_members(prefix) is Ok);
        assert(forall|i: int| 0 <= i < prefix.len() ==> #[trigger] prefix[i] == members[i]);
        lemma_no_manifest_no_index(prefix);
        assert(members.last() == members[members.len() - 1]);
    }
}

/// An archive with no manifest member never yields an aggregate; where every
/// data member decodes, the failure is exactly the missing manifest.
pub proof fn lemma_missing_manifest(bytes: Seq<u8>, members: Seq<(Seq<char>, Option<Seq<u8>>)>)
    requires
        spec_parse_archive(bytes) == Some(members),
        forall|i: int|
            0 <= i < members.len() ==> spec_classify((#[trigger] members[i]).0)
                != MemberRole::Manifest,
    ensures
        spec_ingest(bytes) is Err,
        spec_ingest_members(members) is Ok ==> spec_ingest(bytes) == Err::<
            DictionaryData,
            IngestErrorData,
        >(IngestErrorData::ManifestMissing),
{
    if spec_ingest_members(members) is Ok {
        lemma_no_manifest_no_index(members);
    }
}

/// A member of a data role that fails to decode fails the whole ingestion:
/// no aggregate is returned even where every other member is valid. Where
/// every earlier member decodes, the failure names exactly that member.
pub proof fn lemma_corrupt_member_rejects(
    bytes: Seq<u8>,
    members: Seq<(Seq<char>, Option<Seq<u8>>)>,
    j: int,
)
    requires
        spec_parse_archive(bytes) == Some(members),
        0 <= j < members.len(),
        spec_member_decode(members[j].0, members[j].1) is Err,
    ensures
        spec_ingest(bytes) is Err,
        (forall|i: int|
            0 <= i < j ==> spec_member_decode((#[trigger] members[i]).0, members[i].1) is Ok)
            ==> spec_ingest(bytes) == Err::<DictionaryData, IngestErrorData>(
            member_err_of(spec_member_decode(members[j].0, members[j].1)),
        ),
{
    if spec_ingest_members(members) is Ok {
        lemma_fold_ok_prefix_ok(members, j + 1);
        lemma_fold_ok_prefix_ok(members, j);
        assert(members.take(j + 1).drop_last() =~= members.take(j));
        assert(members.take(j + 1).last() == members[j]);
        assert(false);
    }
    if forall|i: int|
        0 <= i < j ==> spec_member_decode((#[trigger] members[i]).0, members[i].1) is Ok {
        lemma_all_ok_fold_ok(members, j);
        assert(members.take(j + 1).drop_last() =~= members.take(j));
        assert(members.take(j + 1).last() == members[j]);
        lemma_error_persists(members, j + 1);
    }
}

/// Ingestion is a function of the container's bytes alone: equal bytes give
/// equal results, so ingesting the same archive twice yields element-wise
/// equal aggregates.
pub proof fn lemma_ingest_deterministic(b1: Seq<u8>, b2: Seq<u8>)
    requires
        b1 == b2,
    ensures
        spec_ingest(b1) == spec_ingest(b2),
{
}

} // verus!
