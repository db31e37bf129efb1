//! The Event Dispatcher of one capture session: three freshly opened
//! sinks, one per channel, and the callbacks that route each decoded
//! sample to the right one.

use vstd::prelude::*;
use crate::channel::Channel;
use crate::clock::utc_now_string;
use crate::config::Config;
use crate::records::{
    acc_lines_of, ecg_lines_of, hr_line, metadata_line_of, HeartRateSample, MeasurementBatch,
    SamplePoint,
};
use crate::registry::SessionRegistry;
use crate::sink::Sink;

verus! {

/// A file name resolved under a base directory.
pub open spec fn joined_path(dir: Seq<char>, name: Seq<char>) -> Seq<char> {
    dir + "/"@ + name
}

/// Joins a base directory and a file name.
pub fn join_path(dir: &str, name: &str) -> (s: String)
    ensures
        s@ =~= joined_path(dir@, name@),
{
    let mut s = dir.to_owned();
    s.append("/");
    s.append(name);
    s
}

/// No character of `s` is a quote or a newline, so `s` can stand inside
/// one quoted metadata field.
pub open spec fn plain_text(s: Seq<char>) -> bool {
    forall|i: int| 0 <= i < s.len() ==> (#[trigger] s[i]) != '"' && s[i] != '\n'
}

/// The sink `s` is freshly opened for `ch`: nothing handed out, no record
/// lines, counter at zero, the buffer holding exactly the prelude.
pub open spec fn fresh_sink(
    s: Sink,
    ch: Channel,
    config: Config,
    captured_at: Seq<char>,
    path: Seq<char>,
) -> bool {
    &&& s.lines_spec() == Seq::<Seq<char>>::empty()
    &&& s.handed_spec() == Seq::<char>::empty()
    &&& s.hr_count_spec() == 0
    &&& s.prelude_spec() == metadata_line_of(config, captured_at) + ch.header_spec()
    &&& s.pending_spec() == s.prelude_spec()
    &&& s.path_spec() == path
}

/// `post` is `pre` after routing one heart-rate sample: the heart-rate
/// sink gained exactly one line carrying the old counter value as its
/// sequence number, the counter advanced once, and the other channels'
/// sinks are exactly what they were.
pub open spec fn hr_appended(pre: Handler, post: Handler, bpm: u8, rr: Seq<u16>) -> bool {
    &&& post.prefix_spec() == pre.prefix_spec()
    &&& post.captured_at_spec() == pre.captured_at_spec()
    &&& post.sink_of(Channel::Acc) == pre.sink_of(Channel::Acc)
    &&& post.sink_of(Channel::Ecg) == pre.sink_of(Channel::Ecg)
    &&& post.sink_of(Channel::Hr).path_spec() == pre.sink_of(Channel::Hr).path_spec()
    &&& post.sink_of(Channel::Hr).prelude_spec() == pre.sink_of(Channel::Hr).prelude_spec()
    &&& post.sink_of(Channel::Hr).handed_spec() == pre.sink_of(Channel::Hr).handed_spec()
    &&& post.sink_of(Channel::Hr).hr_count_spec() == pre.sink_of(Channel::Hr).hr_count_spec() + 1
    &&& post.sink_of(Channel::Hr).lines_spec() == pre.sink_of(Channel::Hr).lines_spec().push(
        hr_line(pre.sink_of(Channel::Hr).hr_count_spec() as nat, bpm, rr),
    )
    &&& post.sink_of(Channel::Hr).pending_spec() == pre.sink_of(Channel::Hr).pending_spec()
        + hr_line(pre.sink_of(Channel::Hr).hr_count_spec() as nat, bpm, rr)
}

/// `post` is `pre` after routing one measurement batch: the accelerometer
/// sink gained exactly the batch's accelerometer lines and the ECG sink
/// exactly its ECG lines, in delivery order, and the heart-rate sink is
/// exactly what it was.
pub open spec fn batch_appended(pre: Handler, post: Handler, ts: u64, pts: Seq<SamplePoint>) -> bool {
    &&& post.prefix_spec() == pre.prefix_spec()
    &&& post.captured_at_spec() == pre.captured_at_spec()
    &&& post.sink_of(Channel::Hr) == pre.sink_of(Channel::Hr)
    &&& post.sink_of(Channel::Acc).path_spec() == pre.sink_of(Channel::Acc).path_spec()
    &&& post.sink_of(Channel::Acc).prelude_spec() == pre.sink_of(Channel::Acc).prelude_spec()
    &&& post.sink_of(Channel::Acc).handed_spec() == pre.sink_of(Channel::Acc).handed_spec()
    &&& post.sink_of(Channel::Acc).hr_count_spec() == pre.sink_of(Channel::Acc).hr_count_spec()
    &&& post.sink_of(Channel::Acc).lines_spec() == pre.sink_of(Channel::Acc).lines_spec()
        + acc_lines_of(ts, pts)
    &&& post.sink_of(Channel::Ecg).path_spec() == pre.sink_of(Channel::Ecg).path_spec()
    &&& post.sink_of(Channel::Ecg).prelude_spec() == pre.sink_of(Channel::Ecg).prelude_spec()
    &&& post.sink_of(Channel::Ecg).handed_spec() == pre.sink_of(Channel::Ecg).handed_spec()
    &&& post.sink_of(Channel::Ecg).hr_count_spec() == pre.sink_of(Channel::Ecg).hr_count_spec()
    &&& post.sink_of(Channel::Ecg).lines_spec() == pre.sink_of(Channel::Ecg).lines_spec()
        + ecg_lines_of(ts, pts)
}

/// The dispatcher bound to the three record sinks of one session.
pub struct Handler {
    /// The session's unique prefix, so log files stay distinct across runs.
    pub prefix: String,
    captured_at: String,
    hr: Sink,
    acc: Sink,
    ecg: Sink,
}

impl Handler {
    /// The sink of one channel.
    pub closed spec fn sink_of(&self, channel: Channel) -> Sink {
        match channel {
            Channel::Hr => self.hr,
            Channel::Acc => self.acc,
            Channel::Ecg => self.ecg,
        }
    }

    /// The UTC timestamp written into every metadata line.
    pub closed spec fn captured_at_spec(&self) -> Seq<char> {
        self.captured_at@
    }

    /// The session's unique prefix.
    pub closed spec fn prefix_spec(&self) -> Seq<char> {
        self.prefix@
    }

    /// Each channel has exactly one sink, well formed and of that channel.
    pub open spec fn wf(&self) -> bool {
        &&& self.sink_of(Channel::Hr).wf()
        &&& self.sink_of(Channel::Hr).channel_spec() is Hr
        &&& self.sink_of(Channel::Acc).wf()
        &&& self.sink_of(Channel::Acc).channel_spec() is Acc
        &&& self.sink_of(Channel::Ecg).wf()
        &&& self.sink_of(Channel::Ecg).channel_spec() is Ecg
    }

    /// All three sinks are freshly opened for this session, each under its
    /// own path for this prefix below `data_dir`.
    pub open spec fn fresh_session(&self, config: Config, data_dir: Seq<char>) -> bool {
        &&& fresh_sink(
            self.sink_of(Channel::Hr),
            Channel::Hr,
            config,
            self.captured_at_spec(),
            joined_path(data_dir, Channel::Hr.file_name_spec(self.prefix_spec())),
        )
        &&& fresh_sink(
            self.sink_of(Channel::Acc),
            Channel::Acc,
            config,
            self.captured_at_spec(),
            joined_path(data_dir, Channel::Acc.file_name_spec(self.prefix_spec())),
        )
        &&& fresh_sink(
            self.sink_of(Channel::Ecg),
            Channel::Ecg,
            config,
            self.captured_at_spec(),
            joined_path(data_dir, Channel::Ecg.file_name_spec(self.prefix_spec())),
        )
    }

    /// The registry's entry for every channel is this session's path.
    pub open spec fn paths_registered(&self, registry: SessionRegistry) -> bool {
        forall|ch: Channel|
            #[trigger] registry.path_spec(ch) == Some(self.sink_of(ch).path_spec())
    }

    /// Opens the three sinks of a new session under `data_dir` with the
    /// given prefix and capture timestamp, registering each path before
    /// any record can be written.
    pub fn with_session(
        config: &Config,
        data_dir: &str,
        prefix: String,
        captured_at: String,
        registry: &mut SessionRegistry,
    ) -> (h: Handler)
        ensures
            h.wf(),
            h.prefix_spec() == prefix@,
            h.captured_at_spec() == captured_at@,
            h.fresh_session(*config, data_dir@),
            h.paths_registered(*final(registry)),
    {
        let hr_path = join_path(data_dir, Channel::Hr.file_name(prefix.as_str()).as_str());
        registry.register_path(Channel::Hr, hr_path.clone());
        let hr = Sink::open(Channel::Hr, hr_path, config, captured_at.as_str());

        let acc_path = join_path(data_dir, Channel::Acc.file_name(prefix.as_str()).as_str());
        registry.register_path(Channel::Acc, acc_path.clone());
        let acc = Sink::open(Channel::Acc, acc_path, config, captured_at.as_str());

        let ecg_path = join_path(data_dir, Channel::Ecg.file_name(prefix.as_str()).as_str());
        registry.register_path(Channel::Ecg, ecg_path.clone());
        let ecg = Sink::open(Channel::Ecg, ecg_path, config, captured_at.as_str());

        Handler { prefix, captured_at, hr, acc, ecg }
    }

    /// Opens a new session whose prefix is the wall-clock second of the
    /// capture start and whose metadata timestamp is the UTC rendering of
    /// that moment. The prefix is the decimal rendering of one machine
    /// integer, so it is digits only and safe inside a file name.
    pub fn new(config: &Config, data_dir: &str, registry: &mut SessionRegistry) -> (h: Handler)
        ensures
            h.wf(),
            h.fresh_session(*config, data_dir@),
            h.paths_registered(*final(registry)),
            plain_text(h.captured_at_spec()),
            h.captured_at_spec().len() > 0,
            exists|n: u64| h.prefix_spec() == crate::text::dec_of(n as nat),
    {
        let prefix = crate::registry::begin_session();
        let ghost prefix_view = prefix@;
        let captured_at = utc_now_string();
        let h = Handler::with_session(config, data_dir, prefix, captured_at, registry);
        proof {
            let n = choose|n: u64| prefix_view == crate::text::dec_of(n as nat);
            assert(h.prefix_spec() == crate::text::dec_of(n as nat));
        }
        h
    }

    /// Routes one heart-rate sample to the heart-rate sink; the sequence
    /// number is taken and advanced at write time. The other channels'
    /// sinks are untouched.
    pub fn heart_rate_update(&mut self, sample: &HeartRateSample)
        requires
            old(self).wf(),
            old(self).sink_of(Channel::Hr).hr_count_spec() < u64::MAX,
        ensures
            final(self).wf(),
            hr_appended(*old(self), *final(self), sample.bpm, sample.rr@),
    {
        self.hr.append_hr(sample.bpm, &sample.rr);
    }

    /// Routes every point of one measurement batch: accelerometer points
    /// to the accelerometer sink, ECG points to the ECG sink, each as one
    /// line stamped with the batch's timestamp. The heart-rate sink is
    /// untouched.
    pub fn measurement_update(&mut self, data: &MeasurementBatch)
        requires
            old(self).wf(),
        ensures
            final(self).wf(),
            batch_appended(*old(self), *final(self), data.time_stamp, data.points@),
    {
        let ts = data.time_stamp;
        let ghost old_acc_lines = self.acc.lines_spec();
        let ghost old_ecg_lines = self.ecg.lines_spec();
        let mut i: usize = 0;
        proof {
            assert(old_acc_lines + acc_lines_of(ts, data.points@.take(0)) =~= old_acc_lines);
            assert(old_ecg_lines + ecg_lines_of(ts, data.points@.take(0)) =~= old_ecg_lines);
        }
        while i < data.points.len()
            invariant
                i <= data.points.len(),
                self.hr == old(self).sink_of(Channel::Hr),
                self.prefix_spec() == old(self).prefix_spec(),
                self.captured_at@ == old(self).captured_at_spec(),
                self.acc.wf(),
                self.acc.channel_spec() is Acc,
                self.ecg.wf(),
                self.ecg.channel_spec() is Ecg,
                self.acc.path_spec() == old(self).sink_of(Channel::Acc).path_spec(),
                self.acc.prelude_spec() == old(self).sink_of(Channel::Acc).prelude_spec(),
                self.acc.handed_spec() == old(self).sink_of(Channel::Acc).handed_spec(),
                self.acc.hr_count_spec() == old(self).sink_of(Channel::Acc).hr_count_spec(),
                self.ecg.path_spec() == old(self).sink_of(Channel::Ecg).path_spec(),
                self.ecg.prelude_spec() == old(self).sink_of(Channel::Ecg).prelude_spec(),
                self.ecg.handed_spec() == old(self).sink_of(Channel::Ecg).handed_spec(),
                self.ecg.hr_count_spec() == old(self).sink_of(Channel::Ecg).hr_count_spec(),
                self.acc.lines_spec() == old_acc_lines + acc_lines_of(ts, data.points@.take(i as int)),
                self.ecg.lines_spec() == old_ecg_lines + ecg_lines_of(ts, data.points@.take(i as int)),
                old_acc_lines == old(self).sink_of(Channel::Acc).lines_spec(),
                old_ecg_lines == old(self).sink_of(Channel::Ecg).lines_spec(),
            decreases data.points.len() - i,
        {
            let ghost taken = data.points@.take(i + 1 as int);
            proof {
                assert(taken.drop_last() =~= data.points@.take(i as int));
                assert(taken.last() == data.points@[i as int]);
            }
            match data.points[i] {
                SamplePoint::Acc { x, y, z } => {
                    self.acc.append_acc(ts, x, y, z);
                    proof {
                        assert(self.acc.lines_spec() =~= old_acc_lines + acc_lines_of(ts, taken));
                        assert(self.ecg.lines_spec() =~= old_ecg_lines + ecg_lines_of(ts, taken));
                    }
                },
                SamplePoint::Ecg { val } => {
                    self.ecg.append_ecg(ts, val);
                    proof {
                        assert(self.acc.lines_spec() =~= old_acc_lines + acc_lines_of(ts, taken));
                        assert(self.ecg.lines_spec() =~= old_ecg_lines + ecg_lines_of(ts, taken));
                    }
                },
            }
            i += 1;
        }
        proof {
            assert(data.points@.take(data.points@.len() as int) =~= data.points@);
        }
    }

    /// Hands out one channel's buffer exactly when it has outgrown its
    /// capacity, as a buffered writer would; the other channels are
    /// untouched.
    pub fn take_due(&mut self, channel: Channel) -> (out: Option<String>)
        requires
            old(self).wf(),
        ensures
            final(self).wf(),
            (out is Some) == ((vstd::utf8::encode_utf8(
                old(self).sink_of(channel).pending_spec(),
            ).len() as usize) >= crate::sink::buf_capacity(
                old(self).sink_of(channel).channel_spec(),
            )),
            final(self).prefix_spec() == old(self).prefix_spec(),
            final(self).captured_at_spec() == old(self).captured_at_spec(),
            forall|c: Channel|
                c != channel ==> final(self).sink_of(c) == old(self).sink_of(c),
            final(self).sink_of(channel).path_spec() == old(self).sink_of(channel).path_spec(),
            final(self).sink_of(channel).prelude_spec() == old(self).sink_of(
                channel,
            ).prelude_spec(),
            final(self).sink_of(channel).lines_spec() == old(self).sink_of(channel).lines_spec(),
            final(self).sink_of(channel).hr_count_spec() == old(self).sink_of(
                channel,
            ).hr_count_spec(),
            final(self).sink_of(channel).content_spec() == old(self).sink_of(
                channel,
            ).content_spec(),
            match out {
                Some(text) => {
                    &&& text@ == old(self).sink_of(channel).pending_spec()
                    &&& final(self).sink_of(channel).pending_spec() == Seq::<char>::empty()
                    &&& final(self).sink_of(channel).handed_spec() == old(self).sink_of(
                        channel,
                    ).handed_spec() + text@
                },
                None => final(self).sink_of(channel) == old(self).sink_of(channel),
            },
    {
        match channel {
            Channel::Hr => self.hr.take_due(),
            Channel::Acc => self.acc.take_due(),
            Channel::Ecg => self.ecg.take_due(),
        }
    }

    /// Hands out everything one channel's buffer holds, for teardown or an
    /// unconditional flush; the other channels are untouched, so a failure
    /// to store one channel's text never prevents flushing the others.
    pub fn flush_channel(&mut self, channel: Channel) -> (out: String)
        requires
            old(self).wf(),
        ensures
            final(self).wf(),
            final(self).prefix_spec() == old(self).prefix_spec(),
            final(self).captured_at_spec() == old(self).captured_at_spec(),
            forall|c: Channel|
                c != channel ==> final(self).sink_of(c) == old(self).sink_of(c),
            final(self).sink_of(channel).path_spec() == old(self).sink_of(channel).path_spec(),
            final(self).sink_of(channel).prelude_spec() == old(self).sink_of(
                channel,
            ).prelude_spec(),
            final(self).sink_of(channel).lines_spec() == old(self).sink_of(channel).lines_spec(),
            final(self).sink_of(channel).hr_count_spec() == old(self).sink_of(
                channel,
            ).hr_count_spec(),
            out@ == old(self).sink_of(channel).pending_spec(),
            final(self).sink_of(channel).pending_spec() == Seq::<char>::empty(),
            final(self).sink_of(channel).handed_spec() == old(self).sink_of(channel).handed_spec()
                + out@,
            final(self).sink_of(channel).content_spec() == old(self).sink_of(
                channel,
            ).content_spec(),
    {
        match channel {
            Channel::Hr => self.hr.flush(),
            Channel::Acc => self.acc.flush(),
            Channel::Ecg => self.ecg.flush(),
        }
    }

    /// The fixed output path of one channel's sink.
    pub fn output_path(&self, channel: Channel) -> (p: String)
        ensures
            p@ == self.sink_of(channel).path_spec(),
    {
        match channel {
            Channel::Hr => self.hr.output_path(),
            Channel::Acc => self.acc.output_path(),
            Channel::Ecg => self.ecg.output_path(),
        }
    }

    /// The session's unique prefix.
    pub fn session_prefix(&self) -> (p: &String)
        ensures
            p@ == self.prefix_spec(),
    {
        &self.prefix
    }

    /// The UTC timestamp written into every metadata line.
    pub fn captured_at(&self) -> (s: &String)
        ensures
            s@ == self.captured_at_spec(),
    {
        &self.captured_at
    }

    /// The heart-rate sequence counter: how many heart-rate records this
    /// session has accepted.
    pub fn hr_count(&self) -> (c: u64)
        ensures
            c == self.sink_of(Channel::Hr).hr_count_spec(),
    {
        self.hr.sequence_count()
    }

    /// Law: however heart-rate samples were interleaved with measurement
    /// batches, after `n` accepted heart-rate samples the heart-rate sink
    /// holds exactly `n` record lines and line `i` is `hr_line(i, ..)` of
    /// some sample — the sequence numbers run 0, 1, .. with no gap and no
    /// repeat, in write order.
    pub proof fn lemma_hr_lines_sequential(h: Handler)
        requires
            h.wf(),
        ensures
            h.sink_of(Channel::Hr).hr_count_spec() as int == h.sink_of(
                Channel::Hr,
            ).lines_spec().len(),
            forall|i: int|
                0 <= i < h.sink_of(Channel::Hr).lines_spec().len()
                    ==> crate::sink::is_hr_record_line(
                    #[trigger] h.sink_of(Channel::Hr).lines_spec()[i],
                    i as nat,
                ),
    {
        Sink::lemma_hr_sequence_numbers(h.sink_of(Channel::Hr));
    }

    /// Law: per channel, what was handed to storage followed by what is
    /// still buffered is exactly the prelude followed by every appended
    /// record line — each exactly once, in append order. Nothing a session
    /// accepted can be lost, duplicated or reordered by buffering.
    pub proof fn lemma_channel_conservation(h: Handler, channel: Channel)
        requires
            h.wf(),
        ensures
            h.sink_of(channel).handed_spec() + h.sink_of(channel).pending_spec() == h.sink_of(
                channel,
            ).prelude_spec() + h.sink_of(channel).lines_spec().flatten(),
    {
        match channel {
            Channel::Hr => Sink::lemma_conservation(h.sink_of(Channel::Hr)),
            Channel::Acc => Sink::lemma_conservation(h.sink_of(Channel::Acc)),
            Channel::Ecg => Sink::lemma_conservation(h.sink_of(Channel::Ecg)),
        }
    }

    /// Law: no channel's log is ever torn. Every record line a sink holds
    /// is newline-terminated with no newline inside, and each channel
    /// writes only to its own sink, so concurrent delivery on different
    /// channels can never truncate or corrupt another channel's lines.
    pub proof fn lemma_channel_lines_whole(h: Handler, channel: Channel)
        requires
            h.wf(),
        ensures
            forall|i: int|
                0 <= i < h.sink_of(channel).lines_spec().len() ==> crate::records::is_single_line(
                    #[trigger] h.sink_of(channel).lines_spec()[i],
                ),
    {
        match channel {
            Channel::Hr => Sink::lemma_no_partial_lines(h.sink_of(Channel::Hr)),
            Channel::Acc => Sink::lemma_no_partial_lines(h.sink_of(Channel::Acc)),
            Channel::Ecg => Sink::lemma_no_partial_lines(h.sink_of(Channel::Ecg)),
        }
    }

    /// Law: with a valid config and a plain timestamp, a fresh sink's
    /// prelude is exactly two complete lines — the quoted metadata line
    /// and the channel's header — so the records that follow begin at the
    /// file's third line.
    pub proof fn lemma_prelude_two_lines(config: Config, captured_at: Seq<char>, channel: Channel)
        requires
            config.valid(),
            plain_text(captured_at),
        ensures
            crate::records::is_single_line(metadata_line_of(config, captured_at)),
            crate::records::is_single_line(channel.header_spec()),
    {
        crate::records::lemma_metadata_line_single(
            config.participant_id@,
            config.session_number,
            config.trial_id,
            captured_at,
            config.description@,
        );
        channel.lemma_header_single_line();
    }
}

} // verus!
