//! Trusted surface of the zip container library.
//!
//! The archive lives in memory as plain bytes; opening it, walking its central
//! directory and locating an entry's compressed bytes are pure functions of
//! those bytes. The directory's parse is given a name here — `zip_prefix` for
//! the records a walk yields, `zip_complete` for whether the walk ends cleanly
//! — and each wrapper states one step of the walk over those names. Verified
//! code builds the index, gates sizes and checks integrity on top.

use vstd::prelude::*;

verus! {

#[verifier::external_type_specification]
#[verifier::external_body]
#[verifier::reject_recursive_types(T)]
pub struct ExZipSliceArchive<T>(rawzip::ZipSliceArchive<T>);

#[verifier::external_type_specification]
#[verifier::external_body]
pub struct ExZipSliceEntries<'a>(rawzip::ZipSliceEntries<'a>);

#[verifier::external_type_specification]
#[verifier::external_body]
pub struct ExZipFileHeaderRecord<'a>(rawzip::ZipFileHeaderRecord<'a>);

#[verifier::external_type_specification]
#[verifier::external_body]
pub struct ExZipArchiveEntryWayfinder(rawzip::ZipArchiveEntryWayfinder);

#[verifier::external_type_specification]
#[verifier::external_body]
pub struct ExZipError(rawzip::Error);

/// One central-directory record, as the mathematics sees it: the normalized
/// name, the directory flag, the declared checksum and sizes, and the locator
/// for the entry's raw bytes.
pub ghost struct EntryView {
    pub name: Seq<u8>,
    pub is_dir: bool,
    pub crc: u32,
    pub compressed_size: u64,
    pub uncompressed_size: u64,
    pub wf: rawzip::ZipArchiveEntryWayfinder,
}

/// One central-directory record, as the pipeline carries it.
pub struct DirRecord {
    pub name: Vec<u8>,
    pub is_dir: bool,
    pub crc: u32,
    pub compressed_size: u64,
    pub uncompressed_size: u64,
    pub wf: rawzip::ZipArchiveEntryWayfinder,
}

impl View for DirRecord {
    type V = EntryView;

    open spec fn view(&self) -> EntryView {
        EntryView {
            name: self.name@,
            is_dir: self.is_dir,
            crc: self.crc,
            compressed_size: self.compressed_size,
            uncompressed_size: self.uncompressed_size,
            wf: self.wf,
        }
    }
}

/// Whether these bytes hold a locatable end-of-central-directory record, so
/// that the archive opens at all. A pure function of the bytes.
pub uninterp spec fn zip_openable(b: Seq<u8>) -> bool;

/// The bytes an opened archive was built over.
pub uninterp spec fn archive_bytes(a: rawzip::ZipSliceArchive<Vec<u8>>) -> Seq<u8>;

/// The central-directory records a walk of these bytes yields, in directory
/// order, up to the first record (if any) that fails to parse or — for a
/// non-directory record — to normalize. Non-directory names are normalized;
/// a directory record, which the index drops anyway, keeps its raw name. A
/// pure function of the bytes.
pub uninterp spec fn zip_prefix(b: Seq<u8>) -> Seq<EntryView>;

/// Whether a walk of these bytes ends cleanly after `zip_prefix(b)`, rather
/// than on a malformed record. A pure function of the bytes.
pub uninterp spec fn zip_complete(b: Seq<u8>) -> bool;

/// The bytes a directory cursor is walking.
pub uninterp spec fn iter_bytes(it: rawzip::ZipSliceEntries) -> Seq<u8>;

/// How many records a directory cursor has yielded.
pub uninterp spec fn iter_taken(it: rawzip::ZipSliceEntries) -> nat;

/// The compressed bytes this locator resolves to within an archive of these
/// bytes, or None if resolving it fails. A pure function of both.
pub uninterp spec fn wf_payload(b: Seq<u8>, wf: rawzip::ZipArchiveEntryWayfinder) -> Option<
    Seq<u8>,
>;

/// The IEEE CRC-32 checksum, a pure function of the bytes.
pub uninterp spec fn crc32_of(b: Seq<u8>) -> u32;

/// Relies on rawzip::ZipArchive::from_slice: locating and validating the
/// end-of-central-directory record is deterministic in the bytes.
#[verifier::external_body]
pub(crate) fn open_archive(data: Vec<u8>) -> (r: Result<
    rawzip::ZipSliceArchive<Vec<u8>>,
    rawzip::Error,
>)
    ensures
        r is Ok ==> archive_bytes(r->Ok_0) == data@ && zip_openable(data@),
        r is Err ==> !zip_openable(data@),
{
    rawzip::ZipArchive::from_slice(data)
}

/// Relies on rawzip::ZipSliceArchive::entries: a fresh cursor over the
/// archive's central directory.
#[verifier::external_body]
pub(crate) fn archive_entries<'a>(a: &'a rawzip::ZipSliceArchive<Vec<u8>>) -> (it:
    rawzip::ZipSliceEntries<'a>)
    ensures
        iter_bytes(it) == archive_bytes(*a),
        iter_taken(it) == 0,
{
    a.entries()
}

/// Relies on rawzip::ZipSliceArchive::entries_hint: the entry count recorded
/// in the end-of-central-directory record. Untrusted data from the archive,
/// used only to size allocations, so nothing is stated of it.
#[verifier::external_body]
pub(crate) fn entries_hint(a: &rawzip::ZipSliceArchive<Vec<u8>>) -> u64 {
    a.entries_hint()
}

/// Relies on rawzip::ZipSliceEntries::next_entry, the ZipFileHeaderRecord
/// accessors (is_dir, crc32, the size hints, wayfinder) and
/// rawzip::ZipFilePath::try_normalize: the walk yields the directory's records
/// in order, deterministically in the archive bytes; a record that fails to
/// parse, or a non-directory record whose name fails to normalize, ends the
/// walk with an error. Directory records are yielded with their raw name and
/// never normalized, since indexing drops them.
#[verifier::external_body]
pub(crate) fn next_record(it: &mut rawzip::ZipSliceEntries) -> (r: Result<
    Option<DirRecord>,
    rawzip::Error,
>)
    ensures
        iter_bytes(*final(it)) == iter_bytes(*old(it)),
        ({
            let s = zip_prefix(iter_bytes(*old(it)));
            let k = iter_taken(*old(it));
            &&& (k < s.len() ==> r is Ok && r->Ok_0 is Some && (r->Ok_0->Some_0)@ == s[k as int]
                && iter_taken(*final(it)) == k + 1)
            &&& (k == s.len() && zip_complete(iter_bytes(*old(it))) ==> r is Ok
                && r->Ok_0 is None && iter_taken(*final(it)) == k)
            &&& (k == s.len() && !zip_complete(iter_bytes(*old(it))) ==> r is Err
                && iter_taken(*final(it)) == k + 1)
        }),
{
    let e = match it.next_entry() {
        Err(e) => return Err(e),
        Ok(None) => return Ok(None),
        Ok(Some(e)) => e,
    };
    let name: Vec<u8> = if e.is_dir() {
        e.file_path().as_ref().to_vec()
    } else {
        AsRef::<str>::as_ref(&e.file_path().try_normalize()?).as_bytes().to_vec()
    };
    let (compressed_size, uncompressed_size) = (e.compressed_size_hint(), e.uncompressed_size_hint());
    Ok(Some(DirRecord { name, is_dir: e.is_dir(), crc: e.crc32(), compressed_size, uncompressed_size, wf: e.wayfinder() }))
}

/// Relies on rawzip::ZipSliceArchive::get_entry and ZipSliceEntry::data: the
/// compressed bytes a locator resolves to are deterministic in the archive
/// bytes, and resolving validates the entry's local header.
#[verifier::external_body]
pub(crate) fn load_entry(
    a: &rawzip::ZipSliceArchive<Vec<u8>>,
    wf: rawzip::ZipArchiveEntryWayfinder,
    buf: &mut Vec<u8>,
) -> (r: Result<(), rawzip::Error>)
    ensures
        r is Ok ==> wf_payload(archive_bytes(*a), wf) == Some(final(buf)@),
        r is Err ==> wf_payload(archive_bytes(*a), wf) is None && final(buf)@ == old(buf)@,
{
    let e = match a.get_entry(wf) {
        Ok(e) => e,
        Err(err) => return Err(err),
    };
    buf.clear();
    buf.extend_from_slice(e.data());
    Ok(())
}

/// Relies on rawzip::crc32: the IEEE CRC-32 checksum of the bytes.
#[verifier::external_body]
pub(crate) fn crc32_bytes(data: &[u8]) -> (r: u32)
    ensures
        r == crc32_of(data@),
{
    rawzip::crc32(data)
}

/// Relies on rawzip::Error's Display implementation for diagnostics.
#[verifier::external_body]
pub(crate) fn zip_error_bytes(e: &rawzip::Error) -> Vec<u8> {
    format!("{}", e).into_bytes()
}

} // verus!
