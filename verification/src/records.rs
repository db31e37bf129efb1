//! The decoded sensor samples and the one-line CSV rendering of each.

use vstd::prelude::*;
use crate::config::Config;
use crate::text::{dec_int, dec_of, i64_string, u64_string};

verus! {

/// One decoded heart-rate sample: beats per minute and zero or more
/// beat-to-beat (RR) interval readings.
#[derive(Clone, Debug)]
pub struct HeartRateSample {
    pub bpm: u8,
    pub rr: Vec<u16>,
}

/// One point of a measurement batch: a 3-axis accelerometer reading or a
/// single ECG scalar.
#[derive(Clone, Copy, Debug)]
pub enum SamplePoint {
    Acc { x: i32, y: i32, z: i32 },
    Ecg { val: i32 },
}

/// One decoded measurement batch: a mix of accelerometer and ECG points
/// sharing a single capture timestamp.
#[derive(Clone, Debug)]
pub struct MeasurementBatch {
    pub time_stamp: u64,
    pub points: Vec<SamplePoint>,
}

/// The `,interval` suffix of a heart-rate line, one element per reading.
pub open spec fn rr_suffix(rr: Seq<u16>) -> Seq<char>
    decreases rr.len(),
{
    if rr.len() == 0 {
        Seq::empty()
    } else {
        rr_suffix(rr.drop_last()) + ","@ + dec_of(rr.last() as nat)
    }
}

/// A heart-rate record line: `sequence,bpm[,interval]*` and a newline.
/// The leading column is the per-session sequence number, not a timestamp.
pub open spec fn hr_line(seq_no: nat, bpm: u8, rr: Seq<u16>) -> Seq<char> {
    dec_of(seq_no) + ","@ + dec_of(bpm as nat) + rr_suffix(rr) + "\n"@
}

/// An accelerometer record line: `timestamp,x,y,z` and a newline.
pub open spec fn acc_line(ts: u64, x: i32, y: i32, z: i32) -> Seq<char> {
    dec_of(ts as nat) + ","@ + dec_int(x as int) + ","@ + dec_int(y as int) + ","@ + dec_int(
        z as int,
    ) + "\n"@
}

/// An ECG record line: `timestamp,value` and a newline.
pub open spec fn ecg_line(ts: u64, val: i32) -> Seq<char> {
    dec_of(ts as nat) + ","@ + dec_int(val as int) + "\n"@
}

/// The metadata line every channel file starts with: participant id,
/// session number, trial id, capture timestamp and description, each
/// quoted to tolerate embedded delimiters.
pub open spec fn metadata_line(
    participant_id: Seq<char>,
    session_number: u64,
    trial_id: u64,
    captured_at: Seq<char>,
    description: Seq<char>,
) -> Seq<char> {
    "\""@ + participant_id + "\",\""@ + dec_of(session_number as nat) + "\",\""@ + dec_of(
        trial_id as nat,
    ) + "\",\""@ + captured_at + "\",\""@ + description + "\"\n"@
}

/// The metadata line of a config, given the capture timestamp.
pub open spec fn metadata_line_of(config: Config, captured_at: Seq<char>) -> Seq<char> {
    metadata_line(
        config.participant_id@,
        config.session_number,
        config.trial_id,
        captured_at,
        config.description@,
    )
}

/// The accelerometer lines of a measurement batch, in delivery order.
pub open spec fn acc_lines_of(ts: u64, pts: Seq<SamplePoint>) -> Seq<Seq<char>>
    decreases pts.len(),
{
    if pts.len() == 0 {
        Seq::empty()
    } else {
        acc_lines_of(ts, pts.drop_last()) + (match pts.last() {
            SamplePoint::Acc { x, y, z } => seq![acc_line(ts, x, y, z)],
            SamplePoint::Ecg { .. } => Seq::empty(),
        })
    }
}

/// The ECG lines of a measurement batch, in delivery order.
pub open spec fn ecg_lines_of(ts: u64, pts: Seq<SamplePoint>) -> Seq<Seq<char>>
    decreases pts.len(),
{
    if pts.len() == 0 {
        Seq::empty()
    } else {
        ecg_lines_of(ts, pts.drop_last()) + (match pts.last() {
            SamplePoint::Ecg { val } => seq![ecg_line(ts, val)],
            SamplePoint::Acc { .. } => Seq::empty(),
        })
    }
}

/// No character of `s` is a newline.
pub open spec fn no_newline(s: Seq<char>) -> bool {
    forall|i: int| 0 <= i < s.len() ==> (#[trigger] s[i]) != '\n'
}

/// `l` is one complete line: newline-terminated, with no newline inside.
pub open spec fn is_single_line(l: Seq<char>) -> bool {
    l.len() > 0 && l.last() == '\n' && no_newline(l.drop_last())
}

pub proof fn lemma_no_newline_concat(a: Seq<char>, b: Seq<char>)
    requires
        no_newline(a),
        no_newline(b),
    ensures
        no_newline(a + b),
{
    assert forall|i: int| 0 <= i < (a + b).len() implies (#[trigger] (a + b)[i]) != '\n' by {
        if i < a.len() {
            assert((a + b)[i] == a[i]);
        } else {
            assert((a + b)[i] == b[i - a.len()]);
        }
    }
}

/// A newline-free body followed by one newline is one complete line.
pub proof fn lemma_line_end(x: Seq<char>)
    requires
        no_newline(x),
    ensures
        is_single_line(x + seq!['\n']),
{
    assert((x + seq!['\n']).drop_last() =~= x);
}

pub proof fn lemma_dec_of_no_newline(n: nat)
    ensures
        no_newline(dec_of(n)),
{
    crate::text::lemma_dec_of_digits(n);
}

pub proof fn lemma_dec_int_no_newline(v: int)
    ensures
        no_newline(dec_int(v)),
{
    crate::text::lemma_dec_int_plain(v);
}

pub proof fn lemma_comma_lit()
    ensures
        ","@ =~= seq![','],
        no_newline(","@),
{
    reveal_strlit(",");
}

pub proof fn lemma_newline_lit()
    ensures
        "\n"@ =~= seq!['\n'],
{
    reveal_strlit("\n");
}

pub proof fn lemma_rr_suffix_no_newline(rr: Seq<u16>)
    ensures
        no_newline(rr_suffix(rr)),
    decreases rr.len(),
{
    if rr.len() > 0 {
        lemma_rr_suffix_no_newline(rr.drop_last());
        lemma_dec_of_no_newline(rr.last() as nat);
        lemma_comma_lit();
        lemma_no_newline_concat(rr_suffix(rr.drop_last()), ","@);
        lemma_no_newline_concat(rr_suffix(rr.drop_last()) + ","@, dec_of(rr.last() as nat));
    }
}

/// Every heart-rate record line is one complete line.
pub proof fn lemma_hr_line_single(seq_no: nat, bpm: u8, rr: Seq<u16>)
    ensures
        is_single_line(hr_line(seq_no, bpm, rr)),
{
    lemma_dec_of_no_newline(seq_no);
    lemma_dec_of_no_newline(bpm as nat);
    lemma_comma_lit();
    lemma_newline_lit();
    lemma_rr_suffix_no_newline(rr);
    let body = dec_of(seq_no) + ","@ + dec_of(bpm as nat) + rr_suffix(rr);
    lemma_no_newline_concat(dec_of(seq_no), ","@);
    lemma_no_newline_concat(dec_of(seq_no) + ","@, dec_of(bpm as nat));
    lemma_no_newline_concat(dec_of(seq_no) + ","@ + dec_of(bpm as nat), rr_suffix(rr));
    lemma_line_end(body);
    assert(hr_line(seq_no, bpm, rr) =~= body + seq!['\n']);
}

/// Every accelerometer record line is one complete line.
pub proof fn lemma_acc_line_single(ts: u64, x: i32, y: i32, z: i32)
    ensures
        is_single_line(acc_line(ts, x, y, z)),
{
    lemma_dec_of_no_newline(ts as nat);
    lemma_dec_int_no_newline(x as int);
    lemma_dec_int_no_newline(y as int);
    lemma_dec_int_no_newline(z as int);
    lemma_comma_lit();
    lemma_newline_lit();
    let a = dec_of(ts as nat) + ","@;
    let b = a + dec_int(x as int) + ","@;
    let c = b + dec_int(y as int) + ","@;
    let body = c + dec_int(z as int);
    lemma_no_newline_concat(dec_of(ts as nat), ","@);
    lemma_no_newline_concat(a, dec_int(x as int));
    lemma_no_newline_concat(a + dec_int(x as int), ","@);
    lemma_no_newline_concat(b, dec_int(y as int));
    lemma_no_newline_concat(b + dec_int(y as int), ","@);
    lemma_no_newline_concat(c, dec_int(z as int));
    lemma_line_end(body);
    assert(acc_line(ts, x, y, z) =~= body + seq!['\n']);
}

/// Every ECG record line is one complete line.
pub proof fn lemma_ecg_line_single(ts: u64, val: i32)
    ensures
        is_single_line(ecg_line(ts, val)),
{
    lemma_dec_of_no_newline(ts as nat);
    lemma_dec_int_no_newline(val as int);
    lemma_comma_lit();
    lemma_newline_lit();
    let body = dec_of(ts as nat) + ","@ + dec_int(val as int);
    lemma_no_newline_concat(dec_of(ts as nat), ","@);
    lemma_no_newline_concat(dec_of(ts as nat) + ","@, dec_int(val as int));
    lemma_line_end(body);
    assert(ecg_line(ts, val) =~= body + seq!['\n']);
}

/// With newline-free fields, the metadata line is one complete line.
pub proof fn lemma_metadata_line_single(
    participant_id: Seq<char>,
    session_number: u64,
    trial_id: u64,
    captured_at: Seq<char>,
    description: Seq<char>,
)
    requires
        no_newline(participant_id),
        no_newline(captured_at),
        no_newline(description),
    ensures
        is_single_line(
            metadata_line(participant_id, session_number, trial_id, captured_at, description),
        ),
{
    reveal_strlit("\"");
    reveal_strlit("\",\"");
    reveal_strlit("\"\n");
    lemma_dec_of_no_newline(session_number as nat);
    lemma_dec_of_no_newline(trial_id as nat);
    let a = "\""@ + participant_id;
    let b = a + "\",\""@ + dec_of(session_number as nat);
    let c = b + "\",\""@ + dec_of(trial_id as nat);
    let d = c + "\",\""@ + captured_at;
    let e = d + "\",\""@ + description;
    let body = e + seq!['"'];
    lemma_no_newline_concat("\""@, participant_id);
    lemma_no_newline_concat(a, "\",\""@);
    lemma_no_newline_concat(a + "\",\""@, dec_of(session_number as nat));
    lemma_no_newline_concat(b, "\",\""@);
    lemma_no_newline_concat(b + "\",\""@, dec_of(trial_id as nat));
    lemma_no_newline_concat(c, "\",\""@);
    lemma_no_newline_concat(c + "\",\""@, captured_at);
    lemma_no_newline_concat(d, "\",\""@);
    lemma_no_newline_concat(d + "\",\""@, description);
    lemma_no_newline_concat(e, seq!['"']);
    lemma_line_end(body);
    assert(metadata_line(participant_id, session_number, trial_id, captured_at, description)
        =~= body + seq!['\n']);
}

/// Renders a heart-rate record line.
pub fn hr_line_string(seq_no: u64, bpm: u8, rr: &Vec<u16>) -> (s: String)
    ensures
        s@ =~= hr_line(seq_no as nat, bpm, rr@),
{
    let mut s = u64_string(seq_no);
    s.append(",");
    s.append(u64_string(bpm as u64).as_str());
    let ghost head = dec_of(seq_no as nat) + ","@ + dec_of(bpm as nat);
    let mut i: usize = 0;
    while i < rr.len()
        invariant
            i <= rr.len(),
            s@ =~= head + rr_suffix(rr@.take(i as int)),
        decreases rr.len() - i,
    {
        s.append(",");
        s.append(u64_string(rr[i] as u64).as_str());
        proof {
            let taken = rr@.take(i + 1 as int);
            assert(taken.drop_last() =~= rr@.take(i as int));
            assert(taken.last() == rr@[i as int]);
        }
        i += 1;
    }
    proof {
        assert(rr@.take(rr.len() as int) =~= rr@);
    }
    s.append("\n");
    s
}

/// Renders an accelerometer record line.
pub fn acc_line_string(ts: u64, x: i32, y: i32, z: i32) -> (s: String)
    ensures
        s@ =~= acc_line(ts, x, y, z),
{
    let mut s = u64_string(ts);
    s.append(",");
    s.append(i64_string(x as i64).as_str());
    s.append(",");
    s.append(i64_string(y as i64).as_str());
    s.append(",");
    s.append(i64_string(z as i64).as_str());
    s.append("\n");
    s
}

/// Renders an ECG record line.
pub fn ecg_line_string(ts: u64, val: i32) -> (s: String)
    ensures
        s@ =~= ecg_line(ts, val),
{
    let mut s = u64_string(ts);
    s.append(",");
    s.append(i64_string(val as i64).as_str());
    s.append("\n");
    s
}

/// Renders the metadata line of a config, given the capture timestamp.
pub fn metadata_line_string(config: &Config, captured_at: &str) -> (s: String)
    ensures
        s@ =~= metadata_line_of(*config, captured_at@),
{
    let mut s = "\"".to_owned();
    s.append(config.participant_id.as_str());
    s.append("\",\"");
    s.append(u64_string(config.session_number).as_str());
    s.append("\",\"");
    s.append(u64_string(config.trial_id).as_str());
    s.append("\",\"");
    s.append(captured_at);
    s.append("\",\"");
    s.append(config.description.as_str());
    s.append("\"\n");
    s
}

} // verus!
