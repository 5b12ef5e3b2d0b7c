//! Trusted surface of the DEFLATE decompressor.
//!
//! Inflating a raw stream into a buffer of a given size is a pure function of
//! the stream and that size: either it fails (malformed stream, or the buffer
//! is too small for the decompressed data) or it yields the same bytes every
//! time. The decompressor instance itself only carries reusable scratch state
//! and never influences the result.

use vstd::prelude::*;

verus! {

#[verifier::external_type_specification]
#[verifier::external_body]
pub struct ExDecompressor(libdeflater::Decompressor);

#[verifier::external_type_specification]
#[verifier::external_body]
pub struct ExDecompressionError(libdeflater::DecompressionError);

/// What inflating `raw` into a buffer of `cap` bytes yields: the decompressed
/// bytes (at most `cap` of them), or None if the stream is malformed or the
/// decompressed data does not fit. A pure function of both arguments.
pub uninterp spec fn inflate_of(raw: Seq<u8>, cap: nat) -> Option<Seq<u8>>;

/// Relies on libdeflater::Decompressor::new.
#[verifier::external_body]
pub(crate) fn new_decompressor() -> libdeflater::Decompressor {
    libdeflater::Decompressor::new()
}

/// Relies on libdeflater::Decompressor::deflate_decompress: on success it
/// returns how many bytes it wrote at the front of `out` and those bytes are
/// the full decompressed stream; on failure `out`'s contents are unspecified.
/// The result is deterministic in the stream and `out`'s length alone.
#[verifier::external_body]
pub(crate) fn inflate(
    d: &mut libdeflater::Decompressor,
    raw: &Vec<u8>,
    out: &mut Vec<u8>,
) -> (r: Result<usize, libdeflater::DecompressionError>)
    ensures
        final(out)@.len() == old(out)@.len(),
        match r {
            Ok(n) => n <= final(out)@.len() && inflate_of(raw@, old(out)@.len() as nat) == Some(
                final(out)@.take(n as int),
            ),
            Err(_) => inflate_of(raw@, old(out)@.len() as nat) is None,
        },
{
    d.deflate_decompress(raw.as_slice(), out.as_mut_slice())
}

/// Relies on libdeflater::DecompressionError's Display implementation for
/// diagnostics.
#[verifier::external_body]
pub(crate) fn inflate_error_bytes(e: &libdeflater::DecompressionError) -> Vec<u8> {
    format!("{}", e).into_bytes()
}

} // verus!
