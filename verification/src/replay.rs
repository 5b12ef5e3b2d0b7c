//! Parsing and serializing a single replay, outside any archive.
//!
//! The single-file and batch modes hand whole replay files here: the bytes go
//! to the parser under the two configured settings, and a parsed replay is
//! serialized compactly or pretty. Whether the bytes parse is a pure function
//! of the bytes and the settings, so the contract can say exactly when `Ok`
//! is owed.

use vstd::prelude::*;

use crate::outcome::ParseOpts;
use crate::sink::newline_free;
use crate::replay_ext::{
    json_error_bytes, parse_error_bytes, parse_replay_raw, replay_json_compact,
    replay_json_pretty, replay_parses,
};

verus! {

/// Parse one replay's bytes under the given settings. Returns the parsed
/// replay exactly when the parser accepts the bytes; otherwise the parser's
/// diagnostic.
pub fn parse_replay_data(data: &Vec<u8>, opts: ParseOpts) -> (r: Result<boxcars::Replay, Vec<u8>>)
    ensures
        r is Ok <==> replay_parses(data@, opts.crc_check, opts.network_parse),
{
    match parse_replay_raw(data, opts.crc_check, opts.network_parse) {
        Ok(replay) => Ok(replay),
        Err(e) => Err(parse_error_bytes(&e)),
    }
}

/// Serialize a parsed replay to JSON, compact or pretty; on failure, the
/// serializer's diagnostic. A compact encoding sits on a single line: it
/// holds no newline byte, so one record per output line is owed downstream.
/// The encoding itself is the serializer collaborator's and stays opaque
/// here, as does which replays it rejects.
pub fn replay_to_json(replay: &boxcars::Replay, pretty: bool) -> (r: Result<Vec<u8>, Vec<u8>>)
    ensures
        !pretty && r is Ok ==> newline_free((r->Ok_0)@),
{
    let res = if pretty {
        replay_json_pretty(replay)
    } else {
        replay_json_compact(replay)
    };
    match res {
        Ok(j) => Ok(j),
        Err(e) => Err(json_error_bytes(&e)),
    }
}

} // verus!
