//! The archive pipeline: locate, gate, read, inflate, verify, parse — once
//! per indexed entry.
//!
//! Every entry runs the same stage order and yields exactly one outcome, a
//! pure function of the archive bytes, that entry's record and the options.
//! A failed entry is recorded and the run moves on; nothing an entry holds
//! can abort the batch once the directory has been walked.

use vstd::prelude::*;
use vstd::string::StrSliceExecFns;

use crate::index::{build_index, non_dirs, ArchiveIndex};
use crate::inflate_ext::{inflate, inflate_error_bytes, inflate_of, new_decompressor};
use crate::outcome::{
    integrity_detail, spec_integrity_detail, ArchiveOpenError, EntryOutcome, OutcomeBody,
    OutcomeKind, ParseOpts, Stage,
};
use crate::pool::BufferPool;
use crate::replay_ext::{parse_error_bytes, parse_replay_raw, replay_parses};
use crate::zip_ext::{
    archive_bytes, crc32_bytes, crc32_of, load_entry, open_archive, wf_payload, zip_complete,
    zip_error_bytes, zip_openable, zip_prefix, EntryView,
};

verus! {

/// One run's configuration.
pub struct PipelineOptions {
    /// Settings handed to the replay parser.
    pub parse: ParseOpts,
    /// How many workers the run is sized for; bounds the buffer pool.
    pub workers: usize,
    /// Ceiling on an entry's declared sizes; larger entries are rejected
    /// without reading a byte.
    pub size_ceiling: u64,
}

/// The larger of an entry's two declared sizes.
pub open spec fn max_declared(e: EntryView) -> u64 {
    if e.compressed_size > e.uncompressed_size {
        e.compressed_size
    } else {
        e.uncompressed_size
    }
}

/// What one entry must come to: the stage gates in their fixed order —
/// oversize before any read, locate, inflate, checksum-and-size before the
/// parser ever sees a byte, parse last. A pure function of the archive bytes,
/// the entry's record and the options.
pub open spec fn spec_outcome(b: Seq<u8>, e: EntryView, opts: ParseOpts, ceiling: u64) -> OutcomeKind {
    if max_declared(e) > ceiling {
        OutcomeKind::Failure(Stage::Oversize)
    } else {
        match wf_payload(b, e.wf) {
            None => OutcomeKind::Failure(Stage::Locate),
            Some(raw) => match inflate_of(raw, e.uncompressed_size as nat) {
                None => OutcomeKind::Failure(Stage::Integrity),
                Some(out) => if out.len() != e.uncompressed_size || crc32_of(out) != e.crc {
                    OutcomeKind::Failure(Stage::Integrity)
                } else if replay_parses(out, opts.crc_check, opts.network_parse) {
                    OutcomeKind::Success
                } else {
                    OutcomeKind::Failure(Stage::Parse)
                },
            },
        }
    }
}

/// The name and outcome tag owed to each non-directory entry of an archive,
/// in directory order.
pub open spec fn spec_outcomes(b: Seq<u8>, opts: ParseOpts, ceiling: u64) -> Seq<
    (Seq<u8>, OutcomeKind),
> {
    non_dirs(zip_prefix(b)).map_values(|e: EntryView| (e.name, spec_outcome(b, e, opts, ceiling)))
}

/// The name and outcome tag a produced outcome carries.
pub open spec fn outcome_pairs(s: Seq<EntryOutcome>) -> Seq<(Seq<u8>, OutcomeKind)> {
    s.map_values(|o: EntryOutcome| (o.name@, o.kind()))
}

/// When an entry passes the size gate but its inflated bytes miss their
/// declared checksum or size, its outcome carries the mismatch cause: the
/// declared and actual values.
pub open spec fn integrity_detail_ok(b: Seq<u8>, e: EntryView, o: EntryOutcome, ceiling: u64) -> bool {
    max_declared(e) <= ceiling ==> match wf_payload(b, e.wf) {
        Some(raw) => match inflate_of(raw, e.uncompressed_size as nat) {
            Some(out) => (out.len() != e.uncompressed_size || crc32_of(out) != e.crc)
                ==> o.detail() == spec_integrity_detail(
                e.crc,
                crc32_of(out),
                e.uncompressed_size,
                out.len() as u64,
            ),
            None => true,
        },
        None => true,
    }
}

/// Run one entry through the pipeline's stages. The raw buffer comes from the
/// pool and goes back to it; the inflate scratch and the decompressor are the
/// calling worker's reusable state.
pub fn process_entry(
    a: &rawzip::ZipSliceArchive<Vec<u8>>,
    name: Vec<u8>,
    crc: u32,
    compressed_size: u64,
    uncompressed_size: u64,
    wf: rawzip::ZipArchiveEntryWayfinder,
    opts: ParseOpts,
    ceiling: u64,
    pool: &mut BufferPool,
    scratch: &mut Vec<u8>,
    d: &mut libdeflater::Decompressor,
) -> (o: EntryOutcome)
    requires
        old(pool).wf(),
        ceiling <= usize::MAX,
    ensures
        final(pool).wf(),
        final(pool).bound() == old(pool).bound(),
        final(pool).loans() == old(pool).loans(),
        final(pool).live() <= old(pool).live() + 1,
        o.name@ == name@,
        ({
            let e = EntryView {
                name: name@,
                is_dir: false,
                crc,
                compressed_size,
                uncompressed_size,
                wf,
            };
            o.kind() == spec_outcome(archive_bytes(*a), e, opts, ceiling)
                && integrity_detail_ok(archive_bytes(*a), e, o, ceiling)
        }),
{
    let max = if compressed_size > uncompressed_size {
        compressed_size
    } else {
        uncompressed_size
    };
    if max > ceiling {
        let detail = "declared size exceeds the configured ceiling".as_bytes_vec();
        return EntryOutcome { name, body: OutcomeBody::Failure(Stage::Oversize, detail) };
    }

    let mut raw = pool.acquire(compressed_size as usize);
    match load_entry(a, wf, &mut raw) {
        Err(e) => {
            let detail = zip_error_bytes(&e);
            pool.release(raw);
            return EntryOutcome { name, body: OutcomeBody::Failure(Stage::Locate, detail) };
        },
        Ok(()) => {},
    }

    let want: usize = uncompressed_size as usize;
    scratch.resize(want, 0u8);
    let n = match inflate(d, &raw, scratch) {
        Err(e) => {
            let detail = inflate_error_bytes(&e);
            pool.release(raw);
            return EntryOutcome { name, body: OutcomeBody::Failure(Stage::Integrity, detail) };
        },
        Ok(n) => n,
    };
    pool.release(raw);

    let inflated = vstd::slice::slice_subrange(scratch.as_slice(), 0, n);
    let actual_crc = crc32_bytes(inflated);
    if n as u64 != uncompressed_size || actual_crc != crc {
        let detail = integrity_detail(crc, actual_crc, uncompressed_size, n as u64);
        return EntryOutcome { name, body: OutcomeBody::Failure(Stage::Integrity, detail) };
    }

    proof {
        assert(scratch@.take(n as int) =~= scratch@);
    }
    match parse_replay_raw(scratch, opts.crc_check, opts.network_parse) {
        Ok(replay) => EntryOutcome { name, body: OutcomeBody::Success(replay) },
        Err(e) => {
            let detail = parse_error_bytes(&e);
            EntryOutcome { name, body: OutcomeBody::Failure(Stage::Parse, detail) }
        },
    }
}

/// Run the whole pipeline over an in-memory archive: open it, walk its
/// directory once, and produce exactly one outcome per non-directory entry,
/// in directory order. Only an archive that cannot be opened or whose
/// directory cannot be walked aborts the run.
pub fn run_archive(data: Vec<u8>, opts: &PipelineOptions) -> (r: Result<
    Vec<EntryOutcome>,
    ArchiveOpenError,
>)
    requires
        opts.size_ceiling <= usize::MAX,
    ensures
        r is Ok <==> zip_openable(data@) && zip_complete(data@),
        r is Ok ==> r->Ok_0@.len() == non_dirs(zip_prefix(data@)).len(),
        r is Ok ==> outcome_pairs(r->Ok_0@) == spec_outcomes(data@, opts.parse, opts.size_ceiling),
        r is Ok ==> forall|i: int|
            0 <= i < r->Ok_0@.len() ==> integrity_detail_ok(
                data@,
                non_dirs(zip_prefix(data@))[i],
                #[trigger] r->Ok_0@[i],
                opts.size_ceiling,
            ),
{
    let ghost bytes = data@;
    let a = match open_archive(data) {
        Ok(a) => a,
        Err(e) => {
            return Err(ArchiveOpenError { message: zip_error_bytes(&e) });
        },
    };
    let idx = match build_index(&a) {
        Ok(idx) => idx,
        Err(e) => {
            return Err(e);
        },
    };

    let n = idx.len();
    let mut out: Vec<EntryOutcome> = Vec::with_capacity(n);
    let mut pool = BufferPool::new(opts.workers);
    let mut scratch: Vec<u8> = Vec::new();
    let mut d = new_decompressor();
    let mut i: usize = 0;
    while i < n
        invariant
            n == idx@.len(),
            idx.wf(),
            idx@ == non_dirs(zip_prefix(bytes)),
            archive_bytes(a) == bytes,
            pool.wf(),
            opts.size_ceiling <= usize::MAX,
            i <= n,
            out@.len() == i,
            forall|j: int|
                0 <= j < i ==> (#[trigger] out@[j]).name@ == idx@[j].name && out@[j].kind()
                    == spec_outcome(bytes, idx@[j], opts.parse, opts.size_ceiling)
                    && integrity_detail_ok(bytes, idx@[j], out@[j], opts.size_ceiling),
        decreases n - i,
    {
        let name = idx.entry_name(i);
        let e = idx.entry(i);
        let o = process_entry(
            &a,
            name,
            e.crc,
            e.compressed_size,
            e.uncompressed_size,
            e.wf,
            opts.parse,
            opts.size_ceiling,
            &mut pool,
            &mut scratch,
            &mut d,
        );
        proof {
            assert(EntryView {
                name: idx@[i as int].name,
                is_dir: false,
                crc: idx@[i as int].crc,
                compressed_size: idx@[i as int].compressed_size,
                uncompressed_size: idx@[i as int].uncompressed_size,
                wf: idx@[i as int].wf,
            } == idx@[i as int]);
        }
        out.push(o);
        i = i + 1;
    }
    proof {
        assert(outcome_pairs(out@) =~= spec_outcomes(bytes, opts.parse, opts.size_ceiling));
    }
    Ok(out)
}

} // verus!
