//! End-to-end tests of the archive pipeline on hand-built zip archives.

use rrrocket::outcome::{OutcomeBody, ParseOpts, Stage};
use rrrocket::pipeline::{run_archive, PipelineOptions};
use rrrocket::sink::{render_report, render_stream};
use rrrocket::DEFAULT_SIZE_CEILING;

/// A raw DEFLATE stream of stored (uncompressed) blocks holding `data`.
fn deflate_stored(data: &[u8]) -> Vec<u8> {
    let mut out = Vec::new();
    let mut chunks: Vec<&[u8]> = data.chunks(0xFFFF).collect();
    if chunks.is_empty() {
        chunks.push(&[]);
    }
    let last = chunks.len() - 1;
    for (i, chunk) in chunks.iter().enumerate() {
        out.push(if i == last { 0x01 } else { 0x00 });
        let len = chunk.len() as u16;
        out.extend_from_slice(&len.to_le_bytes());
        out.extend_from_slice(&(!len).to_le_bytes());
        out.extend_from_slice(chunk);
    }
    out
}

struct TestEntry {
    name: &'static str,
    compressed: Vec<u8>,
    crc: u32,
    uncompressed_size: u32,
}

/// A well-formed single-disk zip archive around the given entries.
/// Directory entries are those whose name ends in '/'.
fn build_zip(entries: &[TestEntry]) -> Vec<u8> {
    let mut out = Vec::new();
    let mut locals: Vec<(u32, &TestEntry)> = Vec::new();
    for e in entries {
        let offset = out.len() as u32;
        locals.push((offset, e));
        let method: u16 = if e.name.ends_with('/') { 0 } else { 8 };
        out.extend_from_slice(&0x04034b50u32.to_le_bytes());
        out.extend_from_slice(&20u16.to_le_bytes()); // version needed
        out.extend_from_slice(&0u16.to_le_bytes()); // flags
        out.extend_from_slice(&method.to_le_bytes());
        out.extend_from_slice(&0u16.to_le_bytes()); // mod time
        out.extend_from_slice(&0x21u16.to_le_bytes()); // mod date
        out.extend_from_slice(&e.crc.to_le_bytes());
        out.extend_from_slice(&(e.compressed.len() as u32).to_le_bytes());
        out.extend_from_slice(&e.uncompressed_size.to_le_bytes());
        out.extend_from_slice(&(e.name.len() as u16).to_le_bytes());
        out.extend_from_slice(&0u16.to_le_bytes()); // extra len
        out.extend_from_slice(e.name.as_bytes());
        out.extend_from_slice(&e.compressed);
    }
    let cd_offset = out.len() as u32;
    for (offset, e) in &locals {
        let method: u16 = if e.name.ends_with('/') { 0 } else { 8 };
        out.extend_from_slice(&0x02014b50u32.to_le_bytes());
        out.extend_from_slice(&20u16.to_le_bytes()); // version made by
        out.extend_from_slice(&20u16.to_le_bytes()); // version needed
        out.extend_from_slice(&0u16.to_le_bytes()); // flags
        out.extend_from_slice(&method.to_le_bytes());
        out.extend_from_slice(&0u16.to_le_bytes()); // mod time
        out.extend_from_slice(&0x21u16.to_le_bytes()); // mod date
        out.extend_from_slice(&e.crc.to_le_bytes());
        out.extend_from_slice(&(e.compressed.len() as u32).to_le_bytes());
        out.extend_from_slice(&e.uncompressed_size.to_le_bytes());
        out.extend_from_slice(&(e.name.len() as u16).to_le_bytes());
        out.extend_from_slice(&0u16.to_le_bytes()); // extra len
        out.extend_from_slice(&0u16.to_le_bytes()); // comment len
        out.extend_from_slice(&0u16.to_le_bytes()); // disk number
        out.extend_from_slice(&0u16.to_le_bytes()); // internal attrs
        out.extend_from_slice(&0u32.to_le_bytes()); // external attrs
        out.extend_from_slice(&offset.to_le_bytes());
        out.extend_from_slice(e.name.as_bytes());
    }
    let cd_size = out.len() as u32 - cd_offset;
    let count = entries.len() as u16;
    out.extend_from_slice(&0x06054b50u32.to_le_bytes());
    out.extend_from_slice(&0u16.to_le_bytes()); // disk number
    out.extend_from_slice(&0u16.to_le_bytes()); // central dir disk
    out.extend_from_slice(&count.to_le_bytes());
    out.extend_from_slice(&count.to_le_bytes());
    out.extend_from_slice(&cd_size.to_le_bytes());
    out.extend_from_slice(&cd_offset.to_le_bytes());
    out.extend_from_slice(&0u16.to_le_bytes()); // comment len
    out
}

fn file_entry(name: &'static str, payload: &[u8]) -> TestEntry {
    TestEntry {
        name,
        compressed: deflate_stored(payload),
        crc: rawzip::crc32(payload),
        uncompressed_size: payload.len() as u32,
    }
}

fn dir_entry(name: &'static str) -> TestEntry {
    TestEntry { name, compressed: Vec::new(), crc: 0, uncompressed_size: 0 }
}

/// The smallest replay the parser accepts: a header with no properties and a
/// body whose every list is empty.
fn minimal_replay() -> Vec<u8> {
    let mut header = Vec::new();
    header.extend_from_slice(&1i32.to_le_bytes()); // major version
    header.extend_from_slice(&0i32.to_le_bytes()); // minor version
    let game_type = b"TAGame.Replay_Soccar_TA\0";
    header.extend_from_slice(&(game_type.len() as i32).to_le_bytes());
    header.extend_from_slice(game_type);
    let none = b"None\0";
    header.extend_from_slice(&(none.len() as i32).to_le_bytes());
    header.extend_from_slice(none);

    let body = [0u8; 40]; // ten empty lists / zero sizes

    let mut v = Vec::new();
    v.extend_from_slice(&(header.len() as i32).to_le_bytes());
    v.extend_from_slice(&0u32.to_le_bytes()); // header crc, unchecked on success
    v.extend_from_slice(&header);
    v.extend_from_slice(&(body.len() as i32).to_le_bytes());
    v.extend_from_slice(&0u32.to_le_bytes()); // content crc, unchecked on success
    v.extend_from_slice(&body);
    v
}

fn options() -> PipelineOptions {
    PipelineOptions {
        parse: ParseOpts { crc_check: false, network_parse: false },
        workers: 4,
        size_ceiling: DEFAULT_SIZE_CEILING,
    }
}

fn kind_name(body: &OutcomeBody) -> (&'static str, Option<Stage>) {
    match body {
        OutcomeBody::Success(_) => ("success", None),
        OutcomeBody::Failure(stage, _) => ("failure", Some(*stage)),
    }
}

#[test]
fn test_zip() {
    let zip = build_zip(&[dir_entry("replays/"), file_entry(
        "replays/1ec9.replay",
        &minimal_replay(),
    )]);
    let outcomes = run_archive(zip, &options()).expect("archive should open");
    assert_eq!(outcomes.len(), 1);
    let report = render_report(&outcomes);
    let text = String::from_utf8(report).unwrap();
    assert!(text.contains("Parsed replays/1ec9.replay"));
}

#[test]
fn completeness_one_outcome_per_entry() {
    let zip = build_zip(&[
        file_entry("a.replay", &minimal_replay()),
        dir_entry("nested/"),
        file_entry("nested/b.replay", b"not a replay at all"),
        file_entry("nested/c.replay", &minimal_replay()),
    ]);
    let outcomes = run_archive(zip, &options()).expect("archive should open");
    assert_eq!(outcomes.len(), 3);
    assert_eq!(outcomes[0].name, b"a.replay".to_vec());
    assert_eq!(outcomes[1].name, b"nested/b.replay".to_vec());
    assert_eq!(outcomes[2].name, b"nested/c.replay".to_vec());
}

#[test]
fn empty_archive_yields_no_outcomes() {
    let zip = build_zip(&[]);
    let outcomes = run_archive(zip, &options()).expect("archive should open");
    assert_eq!(outcomes.len(), 0);
}

#[test]
fn garbage_bytes_fail_to_open() {
    let r = run_archive(b"this is no archive".to_vec(), &options());
    assert!(r.is_err());
}

#[test]
fn oversize_entry_is_gated() {
    let mut e = file_entry("big.replay", &minimal_replay());
    e.uncompressed_size = 21_000_000;
    let zip = build_zip(&[e]);
    let outcomes = run_archive(zip, &options()).expect("archive should open");
    assert_eq!(outcomes.len(), 1);
    assert_eq!(kind_name(&outcomes[0].body), ("failure", Some(Stage::Oversize)));
}

#[test]
fn checksum_mismatch_is_integrity_failure() {
    let payload = minimal_replay();
    let actual_crc = rawzip::crc32(&payload);
    let mut e = file_entry("bad.replay", &payload);
    e.crc ^= 0xDEAD_BEEF;
    let declared_crc = e.crc;
    let zip = build_zip(&[e]);
    let outcomes = run_archive(zip, &options()).expect("archive should open");
    assert_eq!(outcomes.len(), 1);
    assert_eq!(kind_name(&outcomes[0].body), ("failure", Some(Stage::Integrity)));
    match &outcomes[0].body {
        OutcomeBody::Failure(_, detail) => {
            let expected =
                format!("Invalid checksum: expected {}, got {}", declared_crc, actual_crc);
            assert_eq!(String::from_utf8_lossy(detail), expected);
        }
        OutcomeBody::Success(_) => unreachable!(),
    }
}

#[test]
fn malformed_stream_is_integrity_failure() {
    let payload = minimal_replay();
    let e = TestEntry {
        name: "torn.replay",
        compressed: vec![0xAA, 0xBB, 0xCC, 0xDD],
        crc: rawzip::crc32(&payload),
        uncompressed_size: payload.len() as u32,
    };
    let zip = build_zip(&[e]);
    let outcomes = run_archive(zip, &options()).expect("archive should open");
    assert_eq!(kind_name(&outcomes[0].body), ("failure", Some(Stage::Integrity)));
}

#[test]
fn size_mismatch_is_integrity_failure() {
    let payload = minimal_replay();
    let mut e = file_entry("short.replay", &payload);
    e.uncompressed_size += 7;
    let declared = e.uncompressed_size;
    let zip = build_zip(&[e]);
    let outcomes = run_archive(zip, &options()).expect("archive should open");
    assert_eq!(kind_name(&outcomes[0].body), ("failure", Some(Stage::Integrity)));
    match &outcomes[0].body {
        OutcomeBody::Failure(_, detail) => {
            let expected = format!("Invalid size: expected {}, got {}", declared, payload.len());
            assert_eq!(String::from_utf8_lossy(detail), expected);
        }
        OutcomeBody::Success(_) => unreachable!(),
    }
}

#[test]
fn corrupt_local_header_is_locate_failure() {
    let e = file_entry("lost.replay", &minimal_replay());
    let mut zip = build_zip(&[e]);
    // The first entry's local header starts at offset zero; break its signature.
    zip[0] ^= 0xFF;
    let outcomes = run_archive(zip, &options()).expect("archive should open");
    assert_eq!(kind_name(&outcomes[0].body), ("failure", Some(Stage::Locate)));
}

#[test]
fn unparseable_payload_is_parse_failure() {
    let zip = build_zip(&[file_entry("junk.replay", b"these bytes are no replay")]);
    let outcomes = run_archive(zip, &options()).expect("archive should open");
    assert_eq!(kind_name(&outcomes[0].body), ("failure", Some(Stage::Parse)));
}

#[test]
fn report_names_entry_and_stage() {
    let zip = build_zip(&[
        file_entry("good.replay", &minimal_replay()),
        {
            let mut e = file_entry("corrupt.replay", &minimal_replay());
            e.crc ^= 1;
            e
        },
    ]);
    let outcomes = run_archive(zip, &options()).expect("archive should open");
    assert_eq!(outcomes.len(), 2);
    let text = String::from_utf8(render_report(&outcomes)).unwrap();
    let lines: Vec<&str> = text.lines().collect();
    assert_eq!(lines.len(), 2);
    assert_eq!(lines[0], "Parsed good.replay");
    assert!(lines[1].starts_with("Failed corrupt.replay: integrity: "));
}

#[test]
fn stream_emits_one_line_per_parsed_entry() {
    let zip = build_zip(&[file_entry("one.replay", &minimal_replay())]);
    let outcomes = run_archive(zip, &options()).expect("archive should open");
    let (out, diag) = render_stream(&outcomes);
    assert!(diag.is_empty());
    let newlines = out.iter().filter(|&&b| b == b'\n').count();
    assert_eq!(newlines, 1);
    assert_eq!(*out.last().unwrap(), b'\n');
    let line = &out[..out.len() - 1];
    let v: serde_json::Value = serde_json::from_slice(line).expect("line should be JSON");
    assert_eq!(v["file"], serde_json::Value::String("one.replay".to_string()));
    assert!(v["replay"].is_object());
}

#[test]
fn stream_keeps_failures_off_the_record_stream() {
    let mut bad = file_entry("bad.replay", &minimal_replay());
    bad.crc ^= 1;
    let zip = build_zip(&[bad, file_entry("good.replay", &minimal_replay())]);
    let outcomes = run_archive(zip, &options()).expect("archive should open");
    let (out, diag) = render_stream(&outcomes);
    let newlines = out.iter().filter(|&&b| b == b'\n').count();
    assert_eq!(newlines, 1);
    let text = String::from_utf8(diag).unwrap();
    assert!(text.starts_with("Failed bad.replay: integrity: "));
}

#[test]
fn reruns_agree_on_names_and_stages() {
    let zip = build_zip(&[
        file_entry("a.replay", &minimal_replay()),
        file_entry("b.replay", b"garbage"),
        {
            let mut e = file_entry("c.replay", &minimal_replay());
            e.crc ^= 1;
            e
        },
    ]);
    let first = run_archive(zip.clone(), &options()).expect("archive should open");
    let second = run_archive(zip, &options()).expect("archive should open");
    let mut first_pairs: Vec<(Vec<u8>, String)> = first
        .iter()
        .map(|o| (o.name.clone(), format!("{:?}", kind_name(&o.body))))
        .collect();
    let mut second_pairs: Vec<(Vec<u8>, String)> = second
        .iter()
        .map(|o| (o.name.clone(), format!("{:?}", kind_name(&o.body))))
        .collect();
    first_pairs.sort();
    second_pairs.sort();
    assert_eq!(first_pairs, second_pairs);
}

#[test]
fn stream_escapes_awkward_names() {
    let zip = build_zip(&[file_entry("odd\"name.replay", &minimal_replay())]);
    let outcomes = run_archive(zip, &options()).expect("archive should open");
    let (out, _) = render_stream(&outcomes);
    let line = &out[..out.len() - 1];
    let v: serde_json::Value = serde_json::from_slice(line).expect("line should be JSON");
    assert_eq!(v["file"], serde_json::Value::String("odd\"name.replay".to_string()));
}
