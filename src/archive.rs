//! Reading an archive's entries out of its bytes.

use vstd::prelude::*;
use std::io::Cursor;
use zip::ZipArchive;
use zip::result::ZipError;
use crate::install_tree::InstallTree;
use crate::processor::{apply_archive, pass_result, slot_view, slots_view, ApplyReport, ArchiveEntry, SlotView};

verus! {

/// `std::io::Cursor`, the in-memory reader an archive is opened over.
#[verifier::external_type_specification]
#[verifier::external_body]
#[verifier::reject_recursive_types(T)]
pub struct ExCursor<T>(Cursor<T>);

/// `zip::ZipArchive`, an opened archive.
#[verifier::external_type_specification]
#[verifier::external_body]
#[verifier::reject_recursive_types(R)]
pub struct ExZipArchive<R>(ZipArchive<R>);

/// `zip::result::ZipError`.
#[verifier::external_type_specification]
#[verifier::external_body]
pub struct ExZipError(ZipError);

/// An archive opened over bytes held in memory.
pub type MemArchive = ZipArchive<Cursor<Vec<u8>>>;

/// The entries an opened archive holds, in storage order: each one's name
/// and payload (`None` where the payload cannot be read), or `None` where the
/// entry itself cannot be reached.
pub uninterp spec fn zip_entries(a: ZipArchive<Cursor<Vec<u8>>>) -> Seq<SlotView>;

/// The entries of the archive held in `data`, or `None` where `data` is not
/// an archive that can be opened.
pub uninterp spec fn zip_listing(data: Seq<u8>) -> Option<Seq<SlotView>>;

/// Relies on `zip::ZipArchive::new`: reads the archive's central directory;
/// whether it succeeds, and what the archive then holds, depend on the bytes
/// alone.
#[verifier::external_body]
fn open_zip(data: Vec<u8>) -> (r: Result<MemArchive, ZipError>)
    ensures
        match r {
            Ok(a) => zip_listing(data@) == Some(zip_entries(a)),
            Err(_) => zip_listing(data@) is None,
        },
{
    ZipArchive::new(Cursor::new(data))
}

/// Relies on `zip::ZipArchive::len`: the number of entries listed.
#[verifier::external_body]
fn zip_len(a: &MemArchive) -> (r: usize)
    ensures
        r == zip_entries(*a).len(),
{
    a.len()
}

/// Relies on `zip::ZipArchive::by_index_decrypt` and on the entry it hands
/// out (its `name` and its `Read`): entry `i`, as the archive holds it, or
/// `None` where it cannot be reached. An empty password is passed: the call
/// then reports a password mismatch as a value where `by_index` would panic,
/// and an entry that needs no password is read as it is. Reading moves the
/// underlying cursor only; the entries stay as they are.
#[verifier::external_body]
fn zip_entry(a: &mut MemArchive, i: usize) -> (r: Option<(String, Option<Vec<u8>>)>)
    requires
        i < zip_entries(*old(a)).len(),
    ensures
        zip_entries(*final(a)) == zip_entries(*old(a)),
        match r {
            Some((name, payload)) => zip_entries(*old(a))[i as int] == Some(
                (
                    name@,
                    match payload {
                        Some(v) => Some(v@),
                        None => None,
                    },
                ),
            ),
            None => zip_entries(*old(a))[i as int] is None,
        },
{
    let mut f = match a.by_index_decrypt(i, &[]) {
        Ok(Ok(f)) => f,
        Ok(Err(_)) => return None,
        Err(_) => return None,
    };
    let name = f.name().to_string();
    let mut buf = Vec::new();
    match std::io::Read::read_to_end(&mut f, &mut buf) {
        Ok(_) => Some((name, Some(buf))),
        Err(_) => Some((name, None)),
    }
}

/// Why an archive could not be read at all.
#[derive(Clone, Copy, Debug, PartialEq, Eq, Structural)]
pub enum ArchiveError {
    /// The bytes are not an archive that can be opened.
    Unopenable,
}

/// Opens the archive held in `data`.
pub fn open_archive(data: Vec<u8>) -> (r: Result<MemArchive, ArchiveError>)
    ensures
        match r {
            Ok(a) => zip_listing(data@) == Some(zip_entries(a)),
            Err(e) => zip_listing(data@) is None && e == ArchiveError::Unopenable,
        },
{
    match open_zip(data) {
        Ok(a) => Ok(a),
        Err(_) => Err(ArchiveError::Unopenable),
    }
}

/// Reads every entry of `a`, in storage order.
pub fn list_entries(a: &mut MemArchive) -> (r: Vec<Option<ArchiveEntry>>)
    ensures
        slots_view(r@) == zip_entries(*old(a)),
{
    let ghost listed = zip_entries(*a);
    let n = zip_len(a);
    let mut out: Vec<Option<ArchiveEntry>> = Vec::new();
    let mut i: usize = 0;
    while i < n
        invariant
            i <= n,
            n == listed.len(),
            listed == zip_entries(*a),
            listed == zip_entries(*old(a)),
            out@.len() == i,
            forall|k: int| 0 <= k < i ==> slot_view(#[trigger] out@[k]) == listed[k],
        decreases n - i,
    {
        match zip_entry(a, i) {
            Some((name, payload)) => out.push(Some(ArchiveEntry { name, payload })),
            None => out.push(None),
        }
        i = i + 1;
    }
    assert(slots_view(out@) =~= listed);
    out
}

/// Opens the archive in `data` and applies its entries to `tree`. The pass
/// fails only where `data` cannot be opened, and then `tree` is untouched;
/// otherwise the report and `tree` are those of applying the archive's
/// entries one by one.
pub fn apply_archive_bytes(tree: &mut InstallTree, data: Vec<u8>, self_exe_name: &str) -> (r: Result<ApplyReport, ArchiveError>)
    requires
        old(tree).wf(),
    ensures
        final(tree).wf(),
        match r {
            Err(e) => zip_listing(data@) is None && e == ArchiveError::Unopenable && final(tree)@ == old(tree)@,
            Ok(rep) => zip_listing(data@) is Some && pass_result(
                old(tree)@,
                zip_listing(data@)->0,
                self_exe_name@,
                rep,
                final(tree)@,
            ),
        },
{
    let mut a = match open_archive(data) {
        Ok(a) => a,
        Err(e) => return Err(e),
    };
    let entries = list_entries(&mut a);
    let rep = apply_archive(tree, &entries, self_exe_name);
    Ok(rep)
}

} // verus!
