//! The compressed container, held behind trusted items.
//!
//! An open archive is a `zip::ZipArchive` over an in-memory cursor. Its
//! members are abstracted as a sequence of pairs: the member's name, and the
//! member's bytes or `None` where the member's content cannot be read (an
//! encrypted entry, an unsupported method, a corrupt stream). Both the
//! directory and each member's readability are functions of the archive's
//! bytes alone, so opening equal bytes yields equal member sequences.

use vstd::prelude::*;

verus! {

#[verifier::external_type_specification]
#[verifier::external_body]
#[verifier::reject_recursive_types(R)]
pub struct ExZipArchive<R>(zip::ZipArchive<R>);

#[verifier::external_type_specification]
#[verifier::external_body]
#[verifier::reject_recursive_types(T)]
pub struct ExCursor<T>(std::io::Cursor<T>);

/// The members of an open archive, in container order: each member's name,
/// and its bytes where they can be read.
pub uninterp spec fn zip_members(a: zip::ZipArchive<std::io::Cursor<Vec<u8>>>) -> Seq<
    (Seq<char>, Option<Seq<u8>>),
>;

/// What opening these bytes yields: `None` where they are not a well-formed
/// archive, else the member sequence.
pub uninterp spec fn spec_parse_archive(bytes: Seq<u8>) -> Option<Seq<(Seq<char>, Option<Seq<u8>>)>>;

/// Relies on zip::ZipArchive::new over an in-memory cursor: parses the
/// archive's central directory; fails on a corrupt or non-archive input.
#[verifier::external_body]
pub(crate) fn open_archive(bytes: &[u8]) -> (r: Option<zip::ZipArchive<std::io::Cursor<Vec<u8>>>>)
    ensures
        (r is Some <==> spec_parse_archive(bytes@) is Some),
        r matches Some(a) ==> spec_parse_archive(bytes@) == Some(zip_members(a)),
{
    zip::ZipArchive::new(std::io::Cursor::new(bytes.to_vec())).ok()
}

/// Relies on zip::ZipArchive::len: the number of members.
#[verifier::external_body]
pub(crate) fn archive_len(a: &zip::ZipArchive<std::io::Cursor<Vec<u8>>>) -> (n: usize)
    ensures
        n == zip_members(*a).len(),
{
    a.len()
}

/// Relies on zip::ZipArchive::name_for_index: the member's name, read from
/// the already parsed directory, present for every index under the length.
#[verifier::external_body]
pub(crate) fn member_name_at(a: &zip::ZipArchive<std::io::Cursor<Vec<u8>>>, i: usize) -> (r: String)
    requires
        i < zip_members(*a).len(),
    ensures
        r@ == zip_members(*a)[i as int].0,
{
    a.name_for_index(i).unwrap().to_owned()
}

/// Relies on zip::ZipArchive::by_index and std::io::Read::read_to_end: the
/// member's bytes, `None` where they cannot be read.
#[verifier::external_body]
pub(crate) fn member_bytes_at(a: &mut zip::ZipArchive<std::io::Cursor<Vec<u8>>>, i: usize) -> (r: Option<
    Vec<u8>,
>)
    requires
        i < zip_members(*old(a)).len(),
    ensures
        zip_members(*final(a)) == zip_members(*old(a)),
        (r is Some <==> zip_members(*old(a))[i as int].1 is Some),
        r matches Some(b) ==> zip_members(*old(a))[i as int].1 == Some(b@),
{
    let mut f = match a.by_index(i) {
        Ok(f) => f,
        Err(_) => return None,
    };
    let mut buf: Vec<u8> = Vec::new();
    match std::io::Read::read_to_end(&mut f, &mut buf) {
        Ok(_) => Some(buf),
        Err(_) => None,
    }
}

} // verus!
