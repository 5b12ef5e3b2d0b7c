//! The archive's directory, read once into a compact table.
//!
//! Directory-type entries are dropped at indexing time; every other record
//! keeps its declared checksum, sizes and locator. Names live in one
//! contiguous byte buffer — a pair of offsets per entry instead of one
//! allocation per name — and the entry-count hint from the archive is capped
//! before it sizes anything, so a hostile count cannot force a huge
//! allocation.

use vstd::prelude::*;

use crate::outcome::ArchiveOpenError;
use crate::zip_ext::{
    archive_bytes, archive_entries, entries_hint, iter_bytes, iter_taken, next_record,
    zip_complete, zip_error_bytes, zip_prefix, EntryView,
};

verus! {

/// The most entries the archive's own count hint is believed for when sizing
/// the index's allocations.
pub const ENTRY_HINT_CAP: u64 = 1_000_000;

/// One indexed entry: where its name sits in the shared buffer, its declared
/// checksum and sizes, and the locator for its raw bytes.
pub struct IndexEntry {
    pub name_start: usize,
    pub name_end: usize,
    pub crc: u32,
    pub compressed_size: u64,
    pub uncompressed_size: u64,
    pub wf: rawzip::ZipArchiveEntryWayfinder,
}

/// The archive's non-directory entries, in directory order.
pub struct ArchiveIndex {
    names: Vec<u8>,
    entries: Vec<IndexEntry>,
}

/// The non-directory records of a directory walk, in order.
pub open spec fn non_dirs(s: Seq<EntryView>) -> Seq<EntryView>
    decreases s.len(),
{
    if s.len() == 0 {
        Seq::empty()
    } else if s.last().is_dir {
        non_dirs(s.drop_last())
    } else {
        non_dirs(s.drop_last()).push(s.last())
    }
}

impl ArchiveIndex {
    pub closed spec fn entry_at(&self, i: int) -> EntryView {
        entry_view_of(self.names@, self.entries@[i])
    }

    pub closed spec fn wf(&self) -> bool {
        forall|i: int|
            0 <= i < self.entries@.len() ==> (#[trigger] self.entries@[i]).name_start
                <= self.entries@[i].name_end && self.entries@[i].name_end <= self.names@.len()
    }

    pub fn len(&self) -> (n: usize)
        ensures
            n == self@.len(),
    {
        self.entries.len()
    }

    /// A copy of entry `i`'s name.
    pub fn entry_name(&self, i: usize) -> (name: Vec<u8>)
        requires
            self.wf(),
            i < self@.len(),
        ensures
            name@ == self@[i as int].name,
    {
        let e = &self.entries[i];
        let s = vstd::slice::slice_subrange(self.names.as_slice(), e.name_start, e.name_end);
        vstd::slice::slice_to_vec(s)
    }

    /// Entry `i`'s declared checksum, sizes and locator.
    pub fn entry(&self, i: usize) -> (e: &IndexEntry)
        requires
            i < self@.len(),
        ensures
            e.crc == self@[i as int].crc,
            e.compressed_size == self@[i as int].compressed_size,
            e.uncompressed_size == self@[i as int].uncompressed_size,
            e.wf == self@[i as int].wf,
            !self@[i as int].is_dir,
    {
        &self.entries[i]
    }
}

impl View for ArchiveIndex {
    type V = Seq<EntryView>;

    closed spec fn view(&self) -> Seq<EntryView> {
        Seq::new(self.entries@.len(), |i: int| self.entry_at(i))
    }
}

/// Walk the archive's directory once and index every non-directory entry, in
/// order. A record that cannot be parsed or normalized is fatal: no entry can
/// be trusted past it, so the whole run aborts.
pub fn build_index(a: &rawzip::ZipSliceArchive<Vec<u8>>) -> (r: Result<
    ArchiveIndex,
    ArchiveOpenError,
>)
    ensures
        r is Ok ==> {
            &&& zip_complete(archive_bytes(*a))
            &&& (r->Ok_0).wf()
            &&& (r->Ok_0)@ == non_dirs(zip_prefix(archive_bytes(*a)))
        },
        r is Err ==> !zip_complete(archive_bytes(*a)),
{
    let hint = entries_hint(a);
    let capped: usize = if hint > ENTRY_HINT_CAP {
        ENTRY_HINT_CAP as usize
    } else {
        hint as usize
    };
    let mut names: Vec<u8> = Vec::with_capacity(capped * 52);
    let mut entries: Vec<IndexEntry> = Vec::with_capacity(capped);
    let mut it = archive_entries(a);
    let ghost b = archive_bytes(*a);
    let ghost s = zip_prefix(b);

    loop
        invariant
            iter_bytes(it) == b,
            iter_taken(it) <= s.len(),
            s == zip_prefix(b),
            b == archive_bytes(*a),
            forall|i: int|
                0 <= i < entries@.len() ==> (#[trigger] entries@[i]).name_start
                    <= entries@[i].name_end && entries@[i].name_end <= names@.len(),
            Seq::new(entries@.len(), |i: int| entry_view_of(names@, entries@[i])) == non_dirs(
                s.take(iter_taken(it) as int),
            ),
        decreases s.len() - iter_taken(it),
    {
        let ghost k = iter_taken(it);
        let ghost old_names = names@;
        let ghost old_entries = entries@;
        match next_record(&mut it) {
            Err(e) => {
                return Err(ArchiveOpenError { message: zip_error_bytes(&e) });
            },
            Ok(None) => {
                proof {
                    assert(k == s.len());
                    assert(s.take(k as int) =~= s);
                }
                let idx = ArchiveIndex { names, entries };
                proof {
                    assert(idx@ =~= Seq::new(
                        idx.entries@.len(),
                        |i: int| entry_view_of(idx.names@, idx.entries@[i]),
                    ));
                }
                return Ok(idx);
            },
            Ok(Some(rec)) => {
                proof {
                    assert(k < s.len());
                    assert(rec@ == s[k as int]);
                    assert(s.take(k + 1int).drop_last() =~= s.take(k as int));
                    assert(s.take(k + 1int).last() == s[k as int]);
                }
                if !rec.is_dir {
                    let start = names.len();
                    names.extend_from_slice(rec.name.as_slice());
                    let end = names.len();
                    entries.push(
                        IndexEntry {
                            name_start: start,
                            name_end: end,
                            crc: rec.crc,
                            compressed_size: rec.compressed_size,
                            uncompressed_size: rec.uncompressed_size,
                            wf: rec.wf,
                        },
                    );
                    proof {
                        assert(names@.subrange(start as int, end as int) =~= rec.name@);
                        assert forall|i: int| 0 <= i < old_entries.len() implies entry_view_of(
                            names@,
                            entries@[i],
                        ) == entry_view_of(old_names, old_entries[i]) by {
                            assert(entries@[i] == old_entries[i]);
                            assert(names@.subrange(
                                old_entries[i].name_start as int,
                                old_entries[i].name_end as int,
                            ) =~= old_names.subrange(
                                old_entries[i].name_start as int,
                                old_entries[i].name_end as int,
                            ));
                        }
                        assert(Seq::new(
                            entries@.len(),
                            |i: int| entry_view_of(names@, entries@[i]),
                        ) =~= non_dirs(s.take(k + 1int)));
                    }
                } else {
                    proof {
                        assert(Seq::new(
                            entries@.len(),
                            |i: int| entry_view_of(names@, entries@[i]),
                        ) =~= non_dirs(s.take(k + 1int)));
                    }
                }
            },
        }
    }
}

/// The view an index gives entry `e` against name buffer `names`.
pub open spec fn entry_view_of(names: Seq<u8>, e: IndexEntry) -> EntryView {
    EntryView {
        name: names.subrange(e.name_start as int, e.name_end as int),
        is_dir: false,
        crc: e.crc,
        compressed_size: e.compressed_size,
        uncompressed_size: e.uncompressed_size,
        wf: e.wf,
    }
}

} // verus!
