//! The pipeline's guarantees, stated on their own.
//!
//! Each law is proved from what the pipeline's contracts state, so it holds
//! of every run, not of the runs some test happened to see. The buffer-bound
//! law lives with the pool itself.

use vstd::prelude::*;

use crate::index::non_dirs;
use crate::inflate_ext::inflate_of;
use crate::outcome::{EntryOutcome, OutcomeKind, ParseOpts, Stage};
use crate::pipeline::{max_declared, outcome_pairs, spec_outcome, spec_outcomes};
use crate::zip_ext::{crc32_of, wf_payload, zip_prefix, EntryView};

verus! {

/// Law (completeness): an archive with N non-directory entries is owed
/// exactly N outcomes — one per entry in directory order, none dropped, none
/// duplicated — whether each parsed or failed.
pub proof fn lemma_completeness(b: Seq<u8>, opts: ParseOpts, ceiling: u64)
    ensures
        spec_outcomes(b, opts, ceiling).len() == non_dirs(zip_prefix(b)).len(),
        forall|i: int|
            0 <= i < non_dirs(zip_prefix(b)).len() ==> #[trigger] spec_outcomes(
                b,
                opts,
                ceiling,
            )[i].0 == non_dirs(zip_prefix(b))[i].name,
{
}

/// Law (integrity gate): an entry whose inflated bytes miss the declared
/// checksum or size always fails at Integrity. `spec_outcome` consults the
/// parser only in the branch where both match, so the parser never sees
/// unverified bytes.
pub proof fn lemma_integrity_gate(
    b: Seq<u8>,
    e: EntryView,
    opts: ParseOpts,
    ceiling: u64,
    raw: Seq<u8>,
    out: Seq<u8>,
)
    requires
        max_declared(e) <= ceiling,
        wf_payload(b, e.wf) == Some(raw),
        inflate_of(raw, e.uncompressed_size as nat) == Some(out),
        out.len() != e.uncompressed_size || crc32_of(out) != e.crc,
    ensures
        spec_outcome(b, e, opts, ceiling) == OutcomeKind::Failure(Stage::Integrity),
{
}

/// Law (integrity gate, malformed stream): an entry whose compressed bytes do
/// not inflate — the stream is corrupt or overruns its declared size — always
/// fails at Integrity, and the parser is never consulted.
pub proof fn lemma_integrity_gate_malformed(
    b: Seq<u8>,
    e: EntryView,
    opts: ParseOpts,
    ceiling: u64,
    raw: Seq<u8>,
)
    requires
        max_declared(e) <= ceiling,
        wf_payload(b, e.wf) == Some(raw),
        inflate_of(raw, e.uncompressed_size as nat) is None,
    ensures
        spec_outcome(b, e, opts, ceiling) == OutcomeKind::Failure(Stage::Integrity),
{
}

/// Law (oversize gate): an entry whose declared size exceeds the ceiling
/// always fails at Oversize. `spec_outcome` never consults the entry's bytes
/// in that branch: the size check comes before any read or inflate work.
pub proof fn lemma_oversize_gate(b: Seq<u8>, e: EntryView, opts: ParseOpts, ceiling: u64)
    requires
        max_declared(e) > ceiling,
    ensures
        spec_outcome(b, e, opts, ceiling) == OutcomeKind::Failure(Stage::Oversize),
{
}

/// Law (failure isolation): entry `i`'s outcome is a function of the archive
/// bytes and entry `i`'s own record alone. However any other entry fares —
/// Integrity, Parse, anything — entry `i` is still processed and its outcome
/// is unchanged; only failing to open or walk the archive aborts a run.
pub proof fn lemma_failure_isolation(b: Seq<u8>, opts: ParseOpts, ceiling: u64, i: int)
    requires
        0 <= i < non_dirs(zip_prefix(b)).len(),
    ensures
        spec_outcomes(b, opts, ceiling)[i] == (
            non_dirs(zip_prefix(b))[i].name,
            spec_outcome(b, non_dirs(zip_prefix(b))[i], opts, ceiling),
        ),
{
}

/// Law (integrity gate, whole run): within a run, any entry whose inflated
/// bytes miss their declared checksum or size is reported as an Integrity
/// failure under its own name, wherever in the archive it sits.
pub proof fn lemma_run_integrity_gate(
    b: Seq<u8>,
    opts: ParseOpts,
    ceiling: u64,
    i: int,
    raw: Seq<u8>,
    out: Seq<u8>,
)
    requires
        0 <= i < non_dirs(zip_prefix(b)).len(),
        max_declared(non_dirs(zip_prefix(b))[i]) <= ceiling,
        wf_payload(b, non_dirs(zip_prefix(b))[i].wf) == Some(raw),
        inflate_of(raw, non_dirs(zip_prefix(b))[i].uncompressed_size as nat) == Some(out),
        out.len() != non_dirs(zip_prefix(b))[i].uncompressed_size || crc32_of(out) != non_dirs(
            zip_prefix(b),
        )[i].crc,
    ensures
        spec_outcomes(b, opts, ceiling)[i] == (
            non_dirs(zip_prefix(b))[i].name,
            OutcomeKind::Failure(Stage::Integrity),
        ),
{
    lemma_failure_isolation(b, opts, ceiling, i);
    lemma_integrity_gate(b, non_dirs(zip_prefix(b))[i], opts, ceiling, raw, out);
}

/// Law (oversize gate, whole run): within a run, any entry whose declared
/// size exceeds the ceiling is reported as an Oversize failure under its own
/// name, and its bytes are never consulted.
pub proof fn lemma_run_oversize_gate(b: Seq<u8>, opts: ParseOpts, ceiling: u64, i: int)
    requires
        0 <= i < non_dirs(zip_prefix(b)).len(),
        max_declared(non_dirs(zip_prefix(b))[i]) > ceiling,
    ensures
        spec_outcomes(b, opts, ceiling)[i] == (
            non_dirs(zip_prefix(b))[i].name,
            OutcomeKind::Failure(Stage::Oversize),
        ),
{
    lemma_failure_isolation(b, opts, ceiling, i);
    lemma_oversize_gate(b, non_dirs(zip_prefix(b))[i], opts, ceiling);
}

/// Law (idempotence): two runs over the same archive bytes with the same
/// options owe identical outcome sequences — in particular the same multiset
/// of name-to-outcome pairs, whatever order results are later emitted in.
pub proof fn lemma_idempotent(
    o1: Seq<EntryOutcome>,
    o2: Seq<EntryOutcome>,
    b: Seq<u8>,
    opts: ParseOpts,
    ceiling: u64,
)
    requires
        outcome_pairs(o1) == spec_outcomes(b, opts, ceiling),
        outcome_pairs(o2) == spec_outcomes(b, opts, ceiling),
    ensures
        outcome_pairs(o1) == outcome_pairs(o2),
        outcome_pairs(o1).to_multiset() == outcome_pairs(o2).to_multiset(),
{
}

} // verus!
