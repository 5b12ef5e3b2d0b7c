//! Tests of single-replay parsing and serialization, the sink's exact line
//! formats, and the buffer pool's bound.

use rrrocket::outcome::{EntryOutcome, OutcomeBody, ParseOpts, Stage};
use rrrocket::pool::BufferPool;
use rrrocket::replay::{parse_replay_data, replay_to_json};
use rrrocket::sink::{json_line, push_json_escaped, report_line};

/// The smallest replay the parser accepts (see the pipeline tests).
fn minimal_replay() -> Vec<u8> {
    let mut header = Vec::new();
    header.extend_from_slice(&1i32.to_le_bytes());
    header.extend_from_slice(&0i32.to_le_bytes());
    let game_type = b"TAGame.Replay_Soccar_TA\0";
    header.extend_from_slice(&(game_type.len() as i32).to_le_bytes());
    header.extend_from_slice(game_type);
    let none = b"None\0";
    header.extend_from_slice(&(none.len() as i32).to_le_bytes());
    header.extend_from_slice(none);
    let body = [0u8; 40];
    let mut v = Vec::new();
    v.extend_from_slice(&(header.len() as i32).to_le_bytes());
    v.extend_from_slice(&0u32.to_le_bytes());
    v.extend_from_slice(&header);
    v.extend_from_slice(&(body.len() as i32).to_le_bytes());
    v.extend_from_slice(&0u32.to_le_bytes());
    v.extend_from_slice(&body);
    v
}

const NO_CHECKS: ParseOpts = ParseOpts { crc_check: false, network_parse: false };

#[test]
fn minimal_replay_parses() {
    let replay = parse_replay_data(&minimal_replay(), NO_CHECKS);
    assert!(replay.is_ok());
}

#[test]
fn garbage_does_not_parse() {
    let r = parse_replay_data(&b"not a replay".to_vec(), NO_CHECKS);
    assert!(r.is_err());
}

#[test]
fn forced_crc_check_rejects_wrong_crc() {
    // The minimal replay declares a zero header checksum, so forcing the
    // check must reject it even though it parses cleanly.
    let forced = ParseOpts { crc_check: true, network_parse: false };
    let r = parse_replay_data(&minimal_replay(), forced);
    assert!(r.is_err());
    let msg = String::from_utf8(r.err().unwrap()).unwrap();
    assert!(msg.contains("Crc mismatch"));
}

#[test]
fn replay_serializes_compact_and_pretty() {
    let replay = parse_replay_data(&minimal_replay(), NO_CHECKS).unwrap();
    let compact = replay_to_json(&replay, false).unwrap();
    let text = String::from_utf8(compact).unwrap();
    assert!(text.starts_with("{\"header_size\":"));
    assert!(!text.contains('\n'));
    let pretty = replay_to_json(&replay, true).unwrap();
    let pretty_text = String::from_utf8(pretty).unwrap();
    assert!(pretty_text.contains('\n'));
    let v: serde_json::Value = serde_json::from_str(&text).unwrap();
    assert_eq!(v["game_type"], "TAGame.Replay_Soccar_TA");
}

#[test]
fn names_are_escaped_for_json() {
    let mut out = Vec::new();
    let name = b"a\"b\\c\nd\x01e".to_vec();
    push_json_escaped(&mut out, &name);
    assert_eq!(out, b"a\\\"b\\\\c\\nd\\u0001e".to_vec());
}

#[test]
fn json_line_wraps_name_and_record() {
    let line = json_line(&b"x.replay".to_vec(), &b"{\"k\":1}".to_vec());
    assert_eq!(line, b"{\"file\":\"x.replay\",\"replay\":{\"k\":1}}\n".to_vec());
}

#[test]
fn report_line_formats_failure() {
    let o = EntryOutcome {
        name: b"x.replay".to_vec(),
        body: OutcomeBody::Failure(Stage::Integrity, b"checksum mismatch".to_vec()),
    };
    let line = report_line(&o);
    assert_eq!(line, b"Failed x.replay: integrity: checksum mismatch\n".to_vec());
}

#[test]
fn decimal_rendering_is_exact() {
    assert_eq!(rrrocket::outcome::dec_u64(0), b"0".to_vec());
    assert_eq!(rrrocket::outcome::dec_u64(7), b"7".to_vec());
    assert_eq!(rrrocket::outcome::dec_u64(3_765_941_959), b"3765941959".to_vec());
    assert_eq!(rrrocket::outcome::dec_u64(u64::MAX), b"18446744073709551615".to_vec());
}

#[test]
fn pool_retains_at_most_its_bound() {
    let mut pool = BufferPool::new(2);
    let a = pool.acquire(10);
    let b = pool.acquire(20);
    let c = pool.acquire(30);
    assert_eq!(a.len(), 10);
    assert_eq!(b.len(), 20);
    assert_eq!(c.len(), 30);
    assert_eq!(pool.stored_len(), 0);
    pool.release(a);
    pool.release(b);
    pool.release(c);
    assert_eq!(pool.stored_len(), 2);
    let d = pool.acquire(5);
    assert_eq!(d.len(), 5);
    assert_eq!(pool.stored_len(), 1);
}
