//! Trusted surface of the replay-parser and serializer collaborators.
//!
//! The parser turns verified decompressed bytes into a structured replay; the
//! serializer turns a replay into JSON. Both are opaque to the verifier: the
//! replay value itself is carried through, and only what the collaborators'
//! sources plainly show is stated here.

use vstd::prelude::*;

verus! {

#[verifier::external_type_specification]
#[verifier::external_body]
pub struct ExReplay(boxcars::Replay);

#[verifier::external_type_specification]
#[verifier::external_body]
pub struct ExParseError(boxcars::ParseError);

#[verifier::external_type_specification]
#[verifier::external_body]
pub struct ExJsonError(serde_json::Error);

/// Whether the replay parser accepts these bytes under these settings.
/// Parsing is a pure function of the bytes and the two settings, so the
/// same input parses the same way on every run.
pub uninterp spec fn replay_parses(data: Seq<u8>, crc_always: bool, net_always: bool) -> bool;

/// Relies on boxcars::ParserBuilder::parse: parsing is deterministic in the
/// input bytes and the two settings. `crc_always` selects CrcCheck::Always
/// over CrcCheck::OnError; `net_always` selects NetworkParse::Always over
/// NetworkParse::Never, exactly the four configurations the pipeline uses.
#[verifier::external_body]
pub(crate) fn parse_replay_raw(data: &Vec<u8>, crc_always: bool, net_always: bool) -> (r: Result<
    boxcars::Replay,
    boxcars::ParseError,
>)
    ensures
        r is Ok <==> replay_parses(data@, crc_always, net_always),
{
    let crc = if crc_always { boxcars::CrcCheck::Always } else { boxcars::CrcCheck::OnError };
    let net = if net_always {
        boxcars::NetworkParse::Always
    } else {
        boxcars::NetworkParse::Never
    };
    boxcars::ParserBuilder::new(data.as_slice()).with_crc_check(crc).with_network_parse(net).parse()
}

/// Relies on boxcars::ParseError's Display implementation for diagnostics.
#[verifier::external_body]
pub(crate) fn parse_error_bytes(e: &boxcars::ParseError) -> Vec<u8> {
    format!("{}", e).into_bytes()
}

/// Relies on serde_json::to_vec: the compact JSON encoding of a replay. The
/// compact formatter writes no whitespace between tokens and escapes every
/// control character inside strings, so the encoding holds no newline byte.
#[verifier::external_body]
pub(crate) fn replay_json_compact(r: &boxcars::Replay) -> (res: Result<Vec<u8>, serde_json::Error>)
    ensures
        res is Ok ==> forall|i: int| 0 <= i < (res->Ok_0)@.len() ==> (res->Ok_0)@[i] != 10u8,
{
    serde_json::to_vec(r)
}

/// Relies on serde_json::to_vec_pretty: the pretty JSON encoding of a replay.
#[verifier::external_body]
pub(crate) fn replay_json_pretty(r: &boxcars::Replay) -> Result<Vec<u8>, serde_json::Error> {
    serde_json::to_vec_pretty(r)
}

/// Relies on serde_json::Error's Display implementation for diagnostics.
#[verifier::external_body]
pub(crate) fn json_error_bytes(e: &serde_json::Error) -> Vec<u8> {
    format!("{}", e).into_bytes()
}

} // verus!
