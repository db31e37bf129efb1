//! The per-channel Record Sink: a buffered, append-only persistence unit
//! for one channel within one session.
//!
//! A sink never touches the file system itself: it accumulates complete
//! CSV lines in a buffer, and the surrounding program drains that buffer
//! (when it has grown past the channel's capacity, and once more at
//! teardown) and writes the drained text to the sink's fixed output path.
//! The ghost state keeps the whole history: what was already handed to
//! storage, and every record line ever appended, so that conservation —
//! nothing lost, nothing duplicated, nothing reordered — is a theorem
//! rather than a hope.
//!
//! Error policy: a failure to write drained text to storage is surfaced by
//! the surrounding program as a storage error that aborts the capture
//! session; it is never retried silently, and it never stalls the sibling
//! channels, whose buffers are drained independently.

use vstd::prelude::*;
use crate::channel::Channel;
use crate::config::Config;
use crate::records::{
    acc_line, ecg_line, hr_line, is_single_line, lemma_acc_line_single, lemma_ecg_line_single,
    lemma_hr_line_single, metadata_line_of, acc_line_string, ecg_line_string, hr_line_string,
    metadata_line_string,
};

verus! {

/// The buffer capacity of the heart-rate sink. Heart-rate events arrive
/// far less frequently than the other channels', so a large buffer there
/// would only delay visibility of data.
pub const HR_BUF_CAPACITY: usize = 256;

/// The buffer capacity of the accelerometer and ECG sinks.
pub const DEFAULT_BUF_CAPACITY: usize = 8192;

/// The buffer capacity used for a channel, in bytes.
pub open spec fn buf_capacity(channel: Channel) -> usize {
    match channel {
        Channel::Hr => 256,
        Channel::Acc => 8192,
        Channel::Ecg => 8192,
    }
}

/// The line appended to a sink holds `hr_line(seq_no, ..)` for some sample.
pub open spec fn is_hr_record_line(l: Seq<char>, seq_no: nat) -> bool {
    exists|bpm: u8, rr: Seq<u16>| l == hr_line(seq_no, bpm, rr)
}

/// The buffered append-only writer of one channel.
pub struct Sink {
    channel: Channel,
    path: String,
    pending: String,
    hr_count: u64,
    capacity: usize,
    prelude: Ghost<Seq<char>>,
    handed: Ghost<Seq<char>>,
    lines: Ghost<Seq<Seq<char>>>,
}

impl Sink {
    /// The channel this sink records.
    pub closed spec fn channel_spec(&self) -> Channel {
        self.channel
    }

    /// The output path, fixed for the sink's whole lifetime.
    pub closed spec fn path_spec(&self) -> Seq<char> {
        self.path@
    }

    /// The text buffered and not yet handed to storage.
    pub closed spec fn pending_spec(&self) -> Seq<char> {
        self.pending@
    }

    /// All text already handed to storage, in order.
    pub closed spec fn handed_spec(&self) -> Seq<char> {
        self.handed@
    }

    /// The metadata line and the column-header line written at open.
    pub closed spec fn prelude_spec(&self) -> Seq<char> {
        self.prelude@
    }

    /// Every record line ever appended, in append order.
    pub closed spec fn lines_spec(&self) -> Seq<Seq<char>> {
        self.lines@
    }

    /// The heart-rate sequence counter (0 on the other channels).
    pub closed spec fn hr_count_spec(&self) -> u64 {
        self.hr_count
    }

    /// Everything the sink has been given since open: handed plus buffered.
    pub open spec fn content_spec(&self) -> Seq<char> {
        self.handed_spec() + self.pending_spec()
    }

    /// Well-formedness: the sink's text is exactly its prelude followed by
    /// its record lines; each record line is one complete line; on the
    /// heart-rate channel the counter equals the number of lines and line
    /// `i` carries sequence number `i`.
    pub closed spec fn wf(&self) -> bool {
        &&& self.handed@ + self.pending@ == self.prelude@ + self.lines@.flatten()
        &&& self.capacity == buf_capacity(self.channel)
        &&& forall|i: int|
            0 <= i < self.lines@.len() ==> is_single_line(#[trigger] self.lines@[i])
        &&& (self.channel is Hr ==> self.hr_count as int == self.lines@.len())
        &&& (self.channel is Hr ==> forall|i: int|
            0 <= i < self.lines@.len() ==> is_hr_record_line(#[trigger] self.lines@[i], i as nat))
        &&& (!(self.channel is Hr) ==> self.hr_count == 0)
    }

    /// Opens the sink for one channel of a new session: the buffer starts
    /// with the quoted metadata line and the channel's column-header line,
    /// the record log empty, the counter at zero.
    pub fn open(channel: Channel, path: String, config: &Config, captured_at: &str) -> (s: Sink)
        ensures
            s.wf(),
            s.channel_spec() == channel,
            s.path_spec() == path@,
            s.prelude_spec() == metadata_line_of(*config, captured_at@) + channel.header_spec(),
            s.pending_spec() == s.prelude_spec(),
            s.handed_spec() == Seq::<char>::empty(),
            s.lines_spec() == Seq::<Seq<char>>::empty(),
            s.hr_count_spec() == 0,
    {
        let mut pending = metadata_line_string(config, captured_at);
        pending.append(channel.header_str());
        let capacity = match channel {
            Channel::Hr => HR_BUF_CAPACITY,
            Channel::Acc => DEFAULT_BUF_CAPACITY,
            Channel::Ecg => DEFAULT_BUF_CAPACITY,
        };
        proof {
            assert(Seq::<Seq<char>>::empty().flatten() =~= Seq::<char>::empty());
            assert(Seq::<char>::empty() + pending@ =~= pending@);
        }
        Sink {
            channel,
            path,
            pending,
            hr_count: 0,
            capacity,
            prelude: Ghost(
                metadata_line_of(*config, captured_at@) + channel.header_spec(),
            ),
            handed: Ghost(Seq::empty()),
            lines: Ghost(Seq::empty()),
        }
    }

    /// Appends one heart-rate record. The sequence number is assigned here,
    /// at write time, from the sink's own counter, so the written order is
    /// the numbering order.
    pub fn append_hr(&mut self, bpm: u8, rr: &Vec<u16>)
        requires
            old(self).wf(),
            old(self).channel_spec() is Hr,
            old(self).hr_count_spec() < u64::MAX,
        ensures
            final(self).wf(),
            final(self).channel_spec() == old(self).channel_spec(),
            final(self).path_spec() == old(self).path_spec(),
            final(self).prelude_spec() == old(self).prelude_spec(),
            final(self).handed_spec() == old(self).handed_spec(),
            final(self).hr_count_spec() == old(self).hr_count_spec() + 1,
            final(self).lines_spec() == old(self).lines_spec().push(
                hr_line(old(self).hr_count_spec() as nat, bpm, rr@),
            ),
            final(self).pending_spec() == old(self).pending_spec() + hr_line(
                old(self).hr_count_spec() as nat,
                bpm,
                rr@,
            ),
    {
        let ghost line = hr_line(self.hr_count as nat, bpm, rr@);
        let rendered = hr_line_string(self.hr_count, bpm, rr);
        self.pending.append(rendered.as_str());
        proof {
            lemma_hr_line_single(self.hr_count as nat, bpm, rr@);
            self.lines@.lemma_flatten_push(line);
            assert(self.handed@ + self.pending@ =~= (old(self).handed@ + old(self).pending@)
                + line);
            assert((self.prelude@ + self.lines@.flatten()) + line =~= self.prelude@ + (
            self.lines@.flatten() + line));
        }
        self.lines = Ghost(self.lines@.push(line));
        self.hr_count = self.hr_count + 1;
        proof {
            assert forall|i: int| 0 <= i < self.lines@.len() implies is_hr_record_line(
                #[trigger] self.lines@[i],
                i as nat,
            ) by {
                if i == self.lines@.len() - 1 {
                    assert(self.lines@[i] == hr_line((self.hr_count - 1) as nat, bpm, rr@));
                }
            }
        }
    }

    /// Appends one accelerometer record.
    pub fn append_acc(&mut self, time_stamp: u64, x: i32, y: i32, z: i32)
        requires
            old(self).wf(),
            old(self).channel_spec() is Acc,
        ensures
            final(self).wf(),
            final(self).channel_spec() == old(self).channel_spec(),
            final(self).path_spec() == old(self).path_spec(),
            final(self).prelude_spec() == old(self).prelude_spec(),
            final(self).handed_spec() == old(self).handed_spec(),
            final(self).hr_count_spec() == old(self).hr_count_spec(),
            final(self).lines_spec() == old(self).lines_spec().push(acc_line(time_stamp, x, y, z)),
            final(self).pending_spec() == old(self).pending_spec() + acc_line(time_stamp, x, y, z),
    {
        let ghost line = acc_line(time_stamp, x, y, z);
        let rendered = acc_line_string(time_stamp, x, y, z);
        self.pending.append(rendered.as_str());
        proof {
            lemma_acc_line_single(time_stamp, x, y, z);
            self.lines@.lemma_flatten_push(line);
            assert(self.handed@ + self.pending@ =~= (old(self).handed@ + old(self).pending@)
                + line);
            assert((self.prelude@ + self.lines@.flatten()) + line =~= self.prelude@ + (
            self.lines@.flatten() + line));
        }
        self.lines = Ghost(self.lines@.push(line));
    }

    /// Appends one ECG record.
    pub fn append_ecg(&mut self, time_stamp: u64, val: i32)
        requires
            old(self).wf(),
            old(self).channel_spec() is Ecg,
        ensures
            final(self).wf(),
            final(self).channel_spec() == old(self).channel_spec(),
            final(self).path_spec() == old(self).path_spec(),
            final(self).prelude_spec() == old(self).prelude_spec(),
            final(self).handed_spec() == old(self).handed_spec(),
            final(self).hr_count_spec() == old(self).hr_count_spec(),
            final(self).lines_spec() == old(self).lines_spec().push(ecg_line(time_stamp, val)),
            final(self).pending_spec() == old(self).pending_spec() + ecg_line(time_stamp, val),
    {
        let ghost line = ecg_line(time_stamp, val);
        let rendered = ecg_line_string(time_stamp, val);
        self.pending.append(rendered.as_str());
        proof {
            lemma_ecg_line_single(time_stamp, val);
            self.lines@.lemma_flatten_push(line);
            assert(self.handed@ + self.pending@ =~= (old(self).handed@ + old(self).pending@)
                + line);
            assert((self.prelude@ + self.lines@.flatten()) + line =~= self.prelude@ + (
            self.lines@.flatten() + line));
        }
        self.lines = Ghost(self.lines@.push(line));
    }

    /// Hands the whole buffer to the caller for writing to storage.
    /// Idempotent: a second flush with nothing appended in between returns
    /// the empty string. Safe during teardown.
    pub fn flush(&mut self) -> (out: String)
        requires
            old(self).wf(),
        ensures
            final(self).wf(),
            out@ == old(self).pending_spec(),
            final(self).pending_spec() == Seq::<char>::empty(),
            final(self).handed_spec() == old(self).handed_spec() + out@,
            final(self).channel_spec() == old(self).channel_spec(),
            final(self).path_spec() == old(self).path_spec(),
            final(self).prelude_spec() == old(self).prelude_spec(),
            final(self).lines_spec() == old(self).lines_spec(),
            final(self).hr_count_spec() == old(self).hr_count_spec(),
            final(self).content_spec() == old(self).content_spec(),
    {
        let mut out = String::new();
        core::mem::swap(&mut out, &mut self.pending);
        proof {
            assert((self.handed@ + out@) + self.pending@ =~= self.handed@ + out@);
            assert(self.handed@ + out@ + Seq::<char>::empty() =~= self.handed@ + out@);
        }
        self.handed = Ghost(self.handed@ + out@);
        out
    }

    /// Hands the buffer out only when it has grown past the channel's
    /// capacity, measured in bytes as a buffered writer would.
    pub fn take_due(&mut self) -> (out: Option<String>)
        requires
            old(self).wf(),
        ensures
            final(self).wf(),
            final(self).channel_spec() == old(self).channel_spec(),
            final(self).path_spec() == old(self).path_spec(),
            final(self).prelude_spec() == old(self).prelude_spec(),
            final(self).lines_spec() == old(self).lines_spec(),
            final(self).hr_count_spec() == old(self).hr_count_spec(),
            final(self).content_spec() == old(self).content_spec(),
            match out {
                Some(text) => {
                    &&& text@ == old(self).pending_spec()
                    &&& final(self).pending_spec() == Seq::<char>::empty()
                    &&& final(self).handed_spec() == old(self).handed_spec() + text@
                },
                None => *final(self) == *old(self),
            },
            (out is Some) == ((vstd::utf8::encode_utf8(old(self).pending_spec()).len()
                as usize) >= buf_capacity(old(self).channel_spec())),
    {
        if self.pending.as_str().len() >= self.capacity {
            Some(self.flush())
        } else {
            None
        }
    }

    /// The heart-rate sequence counter: the number of records accepted.
    pub fn sequence_count(&self) -> (c: u64)
        ensures
            c == self.hr_count_spec(),
    {
        self.hr_count
    }

    /// The fixed output path, for the caller that writes drained text.
    pub fn output_path(&self) -> (p: String)
        ensures
            p@ == self.path_spec(),
    {
        self.path.clone()
    }

    /// Law: nothing is lost, duplicated or reordered. At every moment the
    /// text handed to storage followed by the text still buffered is
    /// exactly the prelude followed by every appended record line, each
    /// exactly once, in append order.
    pub proof fn lemma_conservation(s: Sink)
        requires
            s.wf(),
        ensures
            s.handed_spec() + s.pending_spec() == s.prelude_spec() + s.lines_spec().flatten(),
    {
    }

    /// Law: once the buffer has been flushed, storage holds the prelude
    /// followed by every appended record exactly once — stopping a session
    /// loses no successfully appended record.
    pub proof fn lemma_flushed_storage_complete(s: Sink)
        requires
            s.wf(),
            s.pending_spec().len() == 0,
        ensures
            s.handed_spec() == s.prelude_spec() + s.lines_spec().flatten(),
    {
        assert(s.handed_spec() =~= s.handed_spec() + s.pending_spec());
    }

    /// Law: a sink's text is never torn. Every record line it ever
    /// appended is newline-terminated and has no newline inside, so lines
    /// of concurrent channels can never truncate or corrupt one another:
    /// each channel is its own sink and each append is one whole line.
    pub proof fn lemma_no_partial_lines(s: Sink)
        requires
            s.wf(),
        ensures
            forall|i: int|
                0 <= i < s.lines_spec().len() ==> is_single_line(#[trigger] s.lines_spec()[i]),
    {
    }

    /// Law: on the heart-rate channel the record lines carry the sequence
    /// numbers 0, 1, .. in order — no gaps and no repeats — and the counter
    /// equals the number of records written.
    pub proof fn lemma_hr_sequence_numbers(s: Sink)
        requires
            s.wf(),
            s.channel_spec() is Hr,
        ensures
            s.hr_count_spec() as int == s.lines_spec().len(),
            forall|i: int|
                0 <= i < s.lines_spec().len() ==> is_hr_record_line(
                    #[trigger] s.lines_spec()[i],
                    i as nat,
                ),
    {
    }
}

} // verus!
