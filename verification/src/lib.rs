//! A verified core for a parallel replay-archive pipeline.
//!
//! The library walks a zip archive's central directory, reads each entry's
//! raw bytes into a recycled buffer, inflates them, verifies the declared
//! checksum and size, and hands verified bytes to the replay parser. Every
//! entry yields exactly one outcome; a single entry's failure never disturbs
//! the others. Archive structure, inflation, checksumming and replay parsing
//! come from outside crates through a small trusted layer; everything that
//! decides, routes and accounts is verified.

pub mod inflate_ext;
pub mod index;
pub mod laws;
pub mod outcome;
pub mod pipeline;
pub mod pool;
pub mod replay;
pub mod replay_ext;
pub mod sink;
pub mod zip_ext;

use vstd::prelude::*;

verus! {

/// The default ceiling on an entry's declared sizes, in bytes. Entries whose
/// declared compressed or uncompressed size exceeds this are rejected without
/// reading a byte, so a corrupted or hostile size field cannot force a huge
/// allocation. A tunable default, not a format constant.
pub const DEFAULT_SIZE_CEILING: u64 = 20_000_000;

} // verus!
