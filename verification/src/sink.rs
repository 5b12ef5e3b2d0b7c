//! The result sink: one line per outcome, never interleaved mid-record.
//!
//! Report mode renders a status line per outcome. Streaming mode renders one
//! JSON record per parsed entry — `{"file":"<name>","replay":<json>}` and a
//! newline — with the name escaped here, byte for byte as the contracts
//! state; failures go to a separate diagnostic rendering so they cannot
//! corrupt the structured stream.

use vstd::prelude::*;

use crate::outcome::{EntryOutcome, OutcomeBody, OutcomeKind, Stage};
use crate::replay_ext::{json_error_bytes, replay_json_compact};

verus! {

/// The line terminator.
pub const NEWLINE: u8 = 10;

/// The lowercase hex digit for `x`, which must be below 16.
pub open spec fn spec_hex_digit(x: u8) -> u8 {
    if x < 10 {
        (48 + x) as u8
    } else {
        (87 + x) as u8
    }
}

/// How one byte of a name appears inside a JSON string: quote and backslash
/// get a backslash escape, the named control characters their short forms,
/// the remaining control characters a `\u00XX` escape, everything else
/// passes through.
pub open spec fn spec_escape_byte(c: u8) -> Seq<u8> {
    if c == 34 {
        seq![92u8, 34u8]
    } else if c == 92 {
        seq![92u8, 92u8]
    } else if c == 8 {
        seq![92u8, 98u8]
    } else if c == 9 {
        seq![92u8, 116u8]
    } else if c == 10 {
        seq![92u8, 110u8]
    } else if c == 12 {
        seq![92u8, 102u8]
    } else if c == 13 {
        seq![92u8, 114u8]
    } else if c < 32 {
        seq![92u8, 117u8, 48u8, 48u8, spec_hex_digit(c / 16), spec_hex_digit(c % 16)]
    } else {
        seq![c]
    }
}

/// A name as it appears inside a JSON string.
pub open spec fn spec_json_escaped(s: Seq<u8>) -> Seq<u8>
    decreases s.len(),
{
    if s.len() == 0 {
        Seq::empty()
    } else {
        spec_json_escaped(s.drop_last()) + spec_escape_byte(s.last())
    }
}

/// `{"file":"` — the record envelope's opening.
pub open spec fn spec_file_prefix() -> Seq<u8> {
    seq![123u8, 34u8, 102u8, 105u8, 108u8, 101u8, 34u8, 58u8, 34u8]
}

/// `","replay":` — between the escaped name and the serialized replay.
pub open spec fn spec_replay_infix() -> Seq<u8> {
    seq![34u8, 44u8, 34u8, 114u8, 101u8, 112u8, 108u8, 97u8, 121u8, 34u8, 58u8]
}

/// One streamed record: the envelope around an escaped name and a serialized
/// replay, closed and newline-terminated.
pub open spec fn spec_json_line(name: Seq<u8>, replay_json: Seq<u8>) -> Seq<u8> {
    spec_file_prefix() + spec_json_escaped(name) + spec_replay_infix() + replay_json + seq![
        125u8,
        NEWLINE,
    ]
}

/// `Parsed ` — the report line for a success.
pub open spec fn spec_parsed_prefix() -> Seq<u8> {
    seq![80u8, 97u8, 114u8, 115u8, 101u8, 100u8, 32u8]
}

/// `Failed ` — the report line for a failure.
pub open spec fn spec_failed_prefix() -> Seq<u8> {
    seq![70u8, 97u8, 105u8, 108u8, 101u8, 100u8, 32u8]
}

/// `: ` — between name, stage and cause in a failure line.
pub open spec fn spec_separator() -> Seq<u8> {
    seq![58u8, 32u8]
}

/// The stage's lowercase label.
pub open spec fn spec_stage_label(s: Stage) -> Seq<u8> {
    match s {
        Stage::Locate => seq![108u8, 111u8, 99u8, 97u8, 116u8, 101u8],
        Stage::Read => seq![114u8, 101u8, 97u8, 100u8],
        Stage::Oversize => seq![111u8, 118u8, 101u8, 114u8, 115u8, 105u8, 122u8, 101u8],
        Stage::Integrity => seq![
            105u8,
            110u8,
            116u8,
            101u8,
            103u8,
            114u8,
            105u8,
            116u8,
            121u8,
        ],
        Stage::Parse => seq![112u8, 97u8, 114u8, 115u8, 101u8],
        Stage::Serialize => seq![
            115u8,
            101u8,
            114u8,
            105u8,
            97u8,
            108u8,
            105u8,
            122u8,
            101u8,
        ],
    }
}

/// One report line: `Parsed <name>` for a success, otherwise
/// `Failed <name>: <stage>: <cause>`, newline-terminated either way.
pub open spec fn spec_report_line(name: Seq<u8>, kind: OutcomeKind, detail: Seq<u8>) -> Seq<u8> {
    match kind {
        OutcomeKind::Success => spec_parsed_prefix() + name + seq![NEWLINE],
        OutcomeKind::Failure(st) => spec_failed_prefix() + name + spec_separator()
            + spec_stage_label(st) + spec_separator() + detail + seq![NEWLINE],
    }
}

/// A whole report: one line per outcome, in order.
pub open spec fn spec_report(outs: Seq<EntryOutcome>) -> Seq<u8>
    decreases outs.len(),
{
    if outs.len() == 0 {
        Seq::empty()
    } else {
        spec_report(outs.drop_last()) + spec_report_line(
            outs.last().name@,
            outs.last().kind(),
            outs.last().detail(),
        )
    }
}

/// The lowercase hex digit for `x`.
fn hex_digit(x: u8) -> (d: u8)
    requires
        x < 16,
    ensures
        d == spec_hex_digit(x),
{
    if x < 10 {
        48 + x
    } else {
        87 + x
    }
}

/// Append one name byte's JSON escape.
fn push_escape_byte(out: &mut Vec<u8>, c: u8)
    ensures
        final(out)@ == old(out)@ + spec_escape_byte(c),
{
    let ghost o0 = out@;
    if c == 34 {
        out.push(92);
        out.push(34);
    } else if c == 92 {
        out.push(92);
        out.push(92);
    } else if c == 8 {
        out.push(92);
        out.push(98);
    } else if c == 9 {
        out.push(92);
        out.push(116);
    } else if c == 10 {
        out.push(92);
        out.push(110);
    } else if c == 12 {
        out.push(92);
        out.push(102);
    } else if c == 13 {
        out.push(92);
        out.push(114);
    } else if c < 32 {
        out.push(92);
        out.push(117);
        out.push(48);
        out.push(48);
        out.push(hex_digit(c / 16));
        out.push(hex_digit(c % 16));
    } else {
        out.push(c);
    }
    proof {
        assert(out@ =~= o0 + spec_escape_byte(c));
    }
}

/// Append a name, escaped for a JSON string.
pub fn push_json_escaped(out: &mut Vec<u8>, name: &Vec<u8>)
    ensures
        final(out)@ == old(out)@ + spec_json_escaped(name@),
{
    let ghost o0 = out@;
    let mut i: usize = 0;
    while i < name.len()
        invariant
            i <= name@.len(),
            out@ == o0 + spec_json_escaped(name@.take(i as int)),
        decreases name@.len() - i,
    {
        push_escape_byte(out, name[i]);
        proof {
            assert(name@.take(i + 1int).drop_last() =~= name@.take(i as int));
            assert(name@.take(i + 1int).last() == name@[i as int]);
            assert(out@ =~= o0 + spec_json_escaped(name@.take(i + 1int)));
        }
        i = i + 1;
    }
    proof {
        assert(name@.take(name@.len() as int) =~= name@);
    }
}

/// Append `{"file":"`.
fn push_file_prefix(out: &mut Vec<u8>)
    ensures
        final(out)@ == old(out)@ + spec_file_prefix(),
{
    let ghost o0 = out@;
    out.push(123);
    out.push(34);
    out.push(102);
    out.push(105);
    out.push(108);
    out.push(101);
    out.push(34);
    out.push(58);
    out.push(34);
    proof {
        assert(out@ =~= o0 + spec_file_prefix());
    }
}

/// Append `","replay":`.
fn push_replay_infix(out: &mut Vec<u8>)
    ensures
        final(out)@ == old(out)@ + spec_replay_infix(),
{
    let ghost o0 = out@;
    out.push(34);
    out.push(44);
    out.push(34);
    out.push(114);
    out.push(101);
    out.push(112);
    out.push(108);
    out.push(97);
    out.push(121);
    out.push(34);
    out.push(58);
    proof {
        assert(out@ =~= o0 + spec_replay_infix());
    }
}

/// One streamed record line for a parsed entry, byte for byte as
/// `spec_json_line` states it.
pub fn json_line(name: &Vec<u8>, replay_json: &Vec<u8>) -> (line: Vec<u8>)
    ensures
        line@ == spec_json_line(name@, replay_json@),
{
    let mut line: Vec<u8> = Vec::new();
    push_file_prefix(&mut line);
    push_json_escaped(&mut line, name);
    push_replay_infix(&mut line);
    line.extend_from_slice(replay_json.as_slice());
    line.push(125);
    line.push(NEWLINE);
    proof {
        assert(line@ =~= spec_json_line(name@, replay_json@));
    }
    line
}

/// Append the stage's lowercase label.
fn push_stage_label(out: &mut Vec<u8>, s: Stage)
    ensures
        final(out)@ == old(out)@ + spec_stage_label(s),
{
    let ghost o0 = out@;
    match s {
        Stage::Locate => {
            out.push(108);
            out.push(111);
            out.push(99);
            out.push(97);
            out.push(116);
            out.push(101);
        },
        Stage::Read => {
            out.push(114);
            out.push(101);
            out.push(97);
            out.push(100);
        },
        Stage::Oversize => {
            out.push(111);
            out.push(118);
            out.push(101);
            out.push(114);
            out.push(115);
            out.push(105);
            out.push(122);
            out.push(101);
        },
        Stage::Integrity => {
            out.push(105);
            out.push(110);
            out.push(116);
            out.push(101);
            out.push(103);
            out.push(114);
            out.push(105);
            out.push(116);
            out.push(121);
        },
        Stage::Parse => {
            out.push(112);
            out.push(97);
            out.push(114);
            out.push(115);
            out.push(101);
        },
        Stage::Serialize => {
            out.push(115);
            out.push(101);
            out.push(114);
            out.push(105);
            out.push(97);
            out.push(108);
            out.push(105);
            out.push(122);
            out.push(101);
        },
    }
    proof {
        assert(out@ =~= o0 + spec_stage_label(s));
    }
}

/// One `Failed <name>: <stage>: <cause>` line, byte for byte as
/// `spec_report_line` states it.
pub fn report_line_parts(name: &Vec<u8>, st: Stage, detail: &Vec<u8>) -> (line: Vec<u8>)
    ensures
        line@ == spec_report_line(name@, OutcomeKind::Failure(st), detail@),
{
    let mut line: Vec<u8> = Vec::new();
    line.push(70);
    line.push(97);
    line.push(105);
    line.push(108);
    line.push(101);
    line.push(100);
    line.push(32);
    line.extend_from_slice(name.as_slice());
    line.push(58);
    line.push(32);
    push_stage_label(&mut line, st);
    line.push(58);
    line.push(32);
    line.extend_from_slice(detail.as_slice());
    line.push(NEWLINE);
    proof {
        assert(line@ =~= spec_report_line(name@, OutcomeKind::Failure(st), detail@));
    }
    line
}

/// One report line for an outcome, byte for byte as `spec_report_line`
/// states it.
pub fn report_line(o: &EntryOutcome) -> (line: Vec<u8>)
    ensures
        line@ == spec_report_line(o.name@, o.kind(), o.detail()),
{
    match &o.body {
        OutcomeBody::Success(_) => {
            let mut line: Vec<u8> = Vec::new();
            line.push(80);
            line.push(97);
            line.push(114);
            line.push(115);
            line.push(101);
            line.push(100);
            line.push(32);
            line.extend_from_slice(o.name.as_slice());
            line.push(NEWLINE);
            proof {
                assert(line@ =~= spec_report_line(o.name@, o.kind(), o.detail()));
            }
            line
        },
        OutcomeBody::Failure(st, detail) => report_line_parts(&o.name, *st, detail),
    }
}

/// A whole report, one line per outcome in order.
pub fn render_report(outs: &Vec<EntryOutcome>) -> (out: Vec<u8>)
    ensures
        out@ == spec_report(outs@),
{
    let mut out: Vec<u8> = Vec::new();
    let mut i: usize = 0;
    while i < outs.len()
        invariant
            i <= outs@.len(),
            out@ == spec_report(outs@.take(i as int)),
        decreases outs@.len() - i,
    {
        let line = report_line(&outs[i]);
        out.extend_from_slice(line.as_slice());
        proof {
            assert(outs@.take(i + 1int).drop_last() =~= outs@.take(i as int));
            assert(outs@.take(i + 1int).last() == outs@[i as int]);
        }
        i = i + 1;
    }
    proof {
        assert(outs@.take(outs@.len() as int) =~= outs@);
    }
    out
}

/// No byte of this sequence is a newline.
pub open spec fn newline_free(s: Seq<u8>) -> bool {
    forall|i: int| 0 <= i < s.len() ==> s[i] != NEWLINE
}

/// `whole` ends with `line`, and `rest` is what comes before it.
pub open spec fn ends_with_line(whole: Seq<u8>, rest: Seq<u8>, line: Seq<u8>) -> bool {
    whole == rest + line
}

/// How the stream and its diagnostics account for the outcomes, in order:
/// a failure contributes exactly its report line to the diagnostics; a parsed
/// entry contributes exactly one record line — with a newline-free serialized
/// body — to the stream, or, when its serialization failed, exactly one
/// serialize-stage report line to the diagnostics. Nothing else is written,
/// so no outcome is dropped and no record is ever interleaved or split.
pub open spec fn stream_render_ok(outs: Seq<EntryOutcome>, out: Seq<u8>, diag: Seq<u8>) -> bool
    decreases outs.len(),
{
    if outs.len() == 0 {
        out == Seq::<u8>::empty() && diag == Seq::<u8>::empty()
    } else {
        let o = outs.last();
        let rest = outs.drop_last();
        if o.kind() is Success {
            (exists|j: Seq<u8>|
                #![trigger newline_free(j)]
                {
                    let line = spec_json_line(o.name@, j);
                    &&& newline_free(j)
                    &&& out.len() >= line.len()
                    &&& ends_with_line(out, out.take(out.len() - line.len()), line)
                    &&& stream_render_ok(rest, out.take(out.len() - line.len()), diag)
                }) || (exists|msg: Seq<u8>|
                #![trigger spec_report_line(o.name@, OutcomeKind::Failure(Stage::Serialize), msg)]
                {
                    let line = spec_report_line(
                        o.name@,
                        OutcomeKind::Failure(Stage::Serialize),
                        msg,
                    );
                    &&& diag.len() >= line.len()
                    &&& ends_with_line(diag, diag.take(diag.len() - line.len()), line)
                    &&& stream_render_ok(rest, out, diag.take(diag.len() - line.len()))
                })
        } else {
            let line = spec_report_line(o.name@, o.kind(), o.detail());
            &&& diag.len() >= line.len()
            &&& ends_with_line(diag, diag.take(diag.len() - line.len()), line)
            &&& stream_render_ok(rest, out, diag.take(diag.len() - line.len()))
        }
    }
}

/// Render the structured stream and its diagnostics: every parsed entry that
/// serializes becomes one record line on the stream; every failure — and
/// every record the serializer rejected — becomes exactly one report line on
/// the diagnostic side, so the structured stream is never corrupted and no
/// outcome goes unaccounted.
pub fn render_stream(outs: &Vec<EntryOutcome>) -> (r: (Vec<u8>, Vec<u8>))
    ensures
        stream_render_ok(outs@, r.0@, r.1@),
{
    let mut out: Vec<u8> = Vec::new();
    let mut diag: Vec<u8> = Vec::new();
    let mut i: usize = 0;
    while i < outs.len()
        invariant
            i <= outs@.len(),
            stream_render_ok(outs@.take(i as int), out@, diag@),
        decreases outs@.len() - i,
    {
        let ghost prev_out = out@;
        let ghost prev_diag = diag@;
        let ghost t1 = outs@.take(i + 1int);
        proof {
            assert(t1.drop_last() =~= outs@.take(i as int));
            assert(t1.last() == outs@[i as int]);
        }
        let o = &outs[i];
        match &o.body {
            OutcomeBody::Success(replay) => {
                match replay_json_compact(replay) {
                    Ok(j) => {
                        let line = json_line(&o.name, &j);
                        out.extend_from_slice(line.as_slice());
                        proof {
                            let sl = spec_json_line(t1.last().name@, j@);
                            assert(newline_free(j@));
                            assert(out@ =~= prev_out + sl);
                            assert(out@.take(out@.len() - sl.len()) =~= prev_out);
                            assert(stream_render_ok(t1, out@, diag@));
                        }
                    },
                    Err(e) => {
                        let detail = json_error_bytes(&e);
                        let line = report_line_parts(&o.name, Stage::Serialize, &detail);
                        diag.extend_from_slice(line.as_slice());
                        proof {
                            let sl = spec_report_line(
                                t1.last().name@,
                                OutcomeKind::Failure(Stage::Serialize),
                                detail@,
                            );
                            assert(diag@ =~= prev_diag + sl);
                            assert(diag@.take(diag@.len() - sl.len()) =~= prev_diag);
                            assert(stream_render_ok(t1, out@, diag@));
                        }
                    },
                }
            },
            OutcomeBody::Failure(_, _) => {
                let line = report_line(o);
                diag.extend_from_slice(line.as_slice());
                proof {
                    let sl = spec_report_line(t1.last().name@, t1.last().kind(), t1.last().detail());
                    assert(diag@ =~= prev_diag + sl);
                    assert(diag@.take(diag@.len() - sl.len()) =~= prev_diag);
                    assert(stream_render_ok(t1, out@, diag@));
                }
            },
        }
        i = i + 1;
    }
    proof {
        assert(outs@.take(outs@.len() as int) =~= outs@);
    }
    (out, diag)
}

/// A name's JSON escape never contains a raw newline: a newline in the name
/// becomes the two bytes `\n`.
pub proof fn lemma_escaped_newline_free(name: Seq<u8>)
    ensures
        newline_free(spec_json_escaped(name)),
    decreases name.len(),
{
    if name.len() > 0 {
        lemma_escaped_newline_free(name.drop_last());
        assert(newline_free(spec_escape_byte(name.last())));
    }
}

/// Law: when a run's one outcome is a parsed entry and the stream is
/// nonempty, the stream is exactly one record line: its only newline is its
/// last byte. An empty stream can only mean the record's serialization
/// failed, which the relation then charges to the diagnostics.
pub proof fn lemma_stream_single_record(o: EntryOutcome, out: Seq<u8>, diag: Seq<u8>)
    requires
        o.kind() is Success,
        stream_render_ok(seq![o], out, diag),
        out.len() > 0,
    ensures
        out.last() == NEWLINE,
        forall|i: int| 0 <= i < out.len() - 1 ==> out[i] != NEWLINE,
{
    let outs = seq![o];
    let oo = outs.last();
    let rest = outs.drop_last();
    assert(outs.len() == 1);
    if exists|msg: Seq<u8>|
        #![trigger spec_report_line(oo.name@, OutcomeKind::Failure(Stage::Serialize), msg)]
        {
            let line = spec_report_line(oo.name@, OutcomeKind::Failure(Stage::Serialize), msg);
            &&& diag.len() >= line.len()
            &&& ends_with_line(diag, diag.take(diag.len() - line.len()), line)
            &&& stream_render_ok(rest, out, diag.take(diag.len() - line.len()))
        } {
        // the serialize-failure disjunct leaves the stream as the empty
        // base case demands, against the nonempty hypothesis
        assert(rest.len() == 0);
        assert(false);
    }
    let j = choose|j: Seq<u8>|
        #![trigger newline_free(j)]
        {
            let line = spec_json_line(oo.name@, j);
            &&& newline_free(j)
            &&& out.len() >= line.len()
            &&& ends_with_line(out, out.take(out.len() - line.len()), line)
            &&& stream_render_ok(rest, out.take(out.len() - line.len()), diag)
        };
    let line = spec_json_line(oo.name@, j);
    assert(rest.len() == 0);
    assert(out.take(out.len() - line.len()) == Seq::<u8>::empty());
    assert(out =~= line);
    lemma_stream_line_single_newline(oo.name@, j);
}

/// Law: one streamed record is exactly one line — its only newline is its
/// last byte — whenever the serialized replay itself contains none (compact
/// JSON encodes newlines as escapes). Concurrent workers hand the sink whole
/// lines, so records can never interleave mid-record.
pub proof fn lemma_stream_line_single_newline(name: Seq<u8>, j: Seq<u8>)
    requires
        newline_free(j),
    ensures
        spec_json_line(name, j).len() > 0,
        spec_json_line(name, j).last() == NEWLINE,
        forall|i: int|
            0 <= i < spec_json_line(name, j).len() - 1 ==> spec_json_line(name, j)[i] != NEWLINE,
{
    lemma_escaped_newline_free(name);
    assert(newline_free(spec_file_prefix()));
    assert(newline_free(spec_replay_infix()));
    let line = spec_json_line(name, j);
    assert forall|i: int| 0 <= i < line.len() - 1 implies line[i] != NEWLINE by {
        let p = spec_file_prefix();
        let e = spec_json_escaped(name);
        let m = spec_replay_infix();
        if i < p.len() {
            assert(line[i] == p[i]);
        } else if i < p.len() + e.len() {
            assert(line[i] == e[i - p.len()]);
        } else if i < p.len() + e.len() + m.len() {
            assert(line[i] == m[i - p.len() - e.len()]);
        } else if i < p.len() + e.len() + m.len() + j.len() {
            assert(line[i] == j[i - p.len() - e.len() - m.len()]);
        } else {
            assert(line[i] == 125u8);
        }
    }
}

} // verus!
