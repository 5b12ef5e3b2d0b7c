//! Per-entry outcomes and the pipeline's error taxonomy.
//!
//! Every archive entry flows through the same stages — locate, size gate,
//! read, inflate, integrity check, parse — and ends as exactly one
//! `EntryOutcome`. Per-entry failures are data, never aborts; only a failure
//! to open or walk the archive's directory itself is fatal.

use vstd::prelude::*;
use vstd::string::{StrSliceExecFns, StringSliceAdditionalSpecFns};

verus! {

/// The stage at which an entry failed.
#[derive(Clone, Copy, Debug, PartialEq, Eq, Structural)]
pub enum Stage {
    /// The entry's locator could not be resolved to its bytes.
    Locate,
    /// The entry's raw bytes could not be read in full. With the archive held
    /// in memory a short read surfaces as a `Locate` failure instead, so this
    /// stage is reserved for front ends that hand bytes in by other means.
    Read,
    /// The entry's declared size exceeds the configured ceiling.
    Oversize,
    /// The inflated bytes do not match the declared checksum or size,
    /// or the compressed stream itself is malformed.
    Integrity,
    /// The replay parser rejected the verified bytes.
    Parse,
    /// The parsed record could not be serialized.
    Serialize,
}

/// What one entry came to: a parsed replay, or a failure at some stage.
pub enum OutcomeBody {
    Success(boxcars::Replay),
    Failure(Stage, Vec<u8>),
}

/// The unit flowing out of the pipeline: one per non-directory entry.
pub struct EntryOutcome {
    /// The entry's normalized name.
    pub name: Vec<u8>,
    pub body: OutcomeBody,
}

/// The mathematical shadow of an outcome: its stage tag, with the opaque
/// replay value and the human-readable failure detail dropped.
pub enum OutcomeKind {
    Success,
    Failure(Stage),
}

impl EntryOutcome {
    /// The outcome's tag, as contracts speak of it.
    pub open spec fn kind(&self) -> OutcomeKind {
        match self.body {
            OutcomeBody::Success(_) => OutcomeKind::Success,
            OutcomeBody::Failure(s, _) => OutcomeKind::Failure(s),
        }
    }

    /// The failure detail carried by the outcome; empty on success.
    pub open spec fn detail(&self) -> Seq<u8> {
        match self.body {
            OutcomeBody::Success(_) => Seq::empty(),
            OutcomeBody::Failure(_, d) => d@,
        }
    }
}

/// The decimal digits of `n`.
pub open spec fn spec_dec_u64(n: nat) -> Seq<u8>
    decreases n,
{
    if n < 10 {
        seq![(48 + n) as u8]
    } else {
        spec_dec_u64(n / 10).push((48 + n % 10) as u8)
    }
}

/// Render `n` in decimal.
pub fn dec_u64(n: u64) -> (v: Vec<u8>)
    ensures
        v@ == spec_dec_u64(n as nat),
    decreases n,
{
    if n < 10 {
        let mut v: Vec<u8> = Vec::new();
        v.push(48 + n as u8);
        proof {
            assert(v@ =~= spec_dec_u64(n as nat));
        }
        v
    } else {
        let mut v = dec_u64(n / 10);
        v.push(48 + (n % 10) as u8);
        proof {
            assert(v@ =~= spec_dec_u64(n as nat));
        }
        v
    }
}

/// The cause an integrity failure carries: the declared value and the value
/// the inflated bytes actually had — the size when the sizes disagree, else
/// the checksum.
pub open spec fn spec_integrity_detail(
    declared_crc: u32,
    actual_crc: u32,
    declared_size: u64,
    actual_size: u64,
) -> Seq<u8> {
    if actual_size != declared_size {
        "Invalid size: expected ".spec_bytes() + spec_dec_u64(declared_size as nat)
            + ", got ".spec_bytes() + spec_dec_u64(actual_size as nat)
    } else {
        "Invalid checksum: expected ".spec_bytes() + spec_dec_u64(declared_crc as nat)
            + ", got ".spec_bytes() + spec_dec_u64(actual_crc as nat)
    }
}

/// Build the integrity-failure cause, byte for byte as
/// `spec_integrity_detail` states it.
pub fn integrity_detail(
    declared_crc: u32,
    actual_crc: u32,
    declared_size: u64,
    actual_size: u64,
) -> (v: Vec<u8>)
    ensures
        v@ == spec_integrity_detail(declared_crc, actual_crc, declared_size, actual_size),
{
    let mut v: Vec<u8>;
    if actual_size != declared_size {
        v = "Invalid size: expected ".as_bytes_vec();
        let expected = dec_u64(declared_size);
        v.extend_from_slice(expected.as_slice());
        let sep = ", got ".as_bytes_vec();
        v.extend_from_slice(sep.as_slice());
        let actual = dec_u64(actual_size);
        v.extend_from_slice(actual.as_slice());
    } else {
        v = "Invalid checksum: expected ".as_bytes_vec();
        let expected = dec_u64(declared_crc as u64);
        v.extend_from_slice(expected.as_slice());
        let sep = ", got ".as_bytes_vec();
        v.extend_from_slice(sep.as_slice());
        let actual = dec_u64(actual_crc as u64);
        v.extend_from_slice(actual.as_slice());
    }
    proof {
        assert(v@ =~= spec_integrity_detail(declared_crc, actual_crc, declared_size, actual_size));
    }
    v
}

/// A fatal error: the archive itself could not be opened or its directory
/// could not be walked. No entries can be recovered; the run aborts.
#[derive(Debug)]
pub struct ArchiveOpenError {
    pub message: Vec<u8>,
}

/// The two replay-parser settings the pipeline forwards to the parser.
#[derive(Clone, Copy, Debug, PartialEq, Eq, Structural)]
pub struct ParseOpts {
    /// Force a checksum pass even when the replay parses cleanly.
    pub crc_check: bool,
    /// Decode the network body instead of skipping it.
    pub network_parse: bool,
}

} // verus!
