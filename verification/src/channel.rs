//! The three physiological data channels and their file naming.

use vstd::prelude::*;
use crate::config::Config;
use crate::records::{is_single_line, no_newline};
use crate::text::{dec_of, u64_string};

verus! {

/// One of the three independent data streams the sensor delivers. Each
/// channel is persisted to its own append-only CSV log.
#[derive(Clone, Copy, Debug, PartialEq, Eq, Structural)]
pub enum Channel {
    Hr,
    Acc,
    Ecg,
}

impl Channel {
    /// The short tag that names the channel in file names.
    pub open spec fn tag_spec(self) -> Seq<char> {
        match self {
            Channel::Hr => "hr"@,
            Channel::Acc => "acc"@,
            Channel::Ecg => "ecg"@,
        }
    }

    /// The column-header line of the channel's CSV schema. The heart-rate
    /// channel's `time` column holds the per-session sequence number.
    pub open spec fn header_spec(self) -> Seq<char> {
        match self {
            Channel::Hr => "time,bpm,rr\n"@,
            Channel::Acc => "time,x,y,z\n"@,
            Channel::Ecg => "time,val\n"@,
        }
    }

    /// The name of the channel's log file for a session prefix:
    /// `{tag}_{prefix}.csv`.
    pub open spec fn file_name_spec(self, prefix: Seq<char>) -> Seq<char> {
        self.tag_spec() + "_"@ + prefix + ".csv"@
    }

    pub fn tag_str(self) -> (s: &'static str)
        ensures
            s@ == self.tag_spec(),
    {
        match self {
            Channel::Hr => "hr",
            Channel::Acc => "acc",
            Channel::Ecg => "ecg",
        }
    }

    pub fn header_str(self) -> (s: &'static str)
        ensures
            s@ == self.header_spec(),
    {
        match self {
            Channel::Hr => "time,bpm,rr\n",
            Channel::Acc => "time,x,y,z\n",
            Channel::Ecg => "time,val\n",
        }
    }

    /// Builds the channel's log-file name for a session prefix.
    pub fn file_name(self, prefix: &str) -> (s: String)
        ensures
            s@ =~= self.file_name_spec(prefix@),
    {
        let mut s = self.tag_str().to_owned();
        s.append("_");
        s.append(prefix);
        s.append(".csv");
        s
    }

    /// The file name suggested when a channel's log is exported:
    /// `{participant}_{session}_{trial}_{tag}_{prefix}.csv`.
    pub open spec fn export_name_spec(self, config: Config, prefix: Seq<char>) -> Seq<char> {
        config.participant_id@ + "_"@ + dec_of(config.session_number as nat) + "_"@ + dec_of(
            config.trial_id as nat,
        ) + "_"@ + self.tag_spec() + "_"@ + prefix + ".csv"@
    }

    /// Builds the suggested export file name of a channel's log.
    pub fn export_file_name(self, config: &Config, prefix: &str) -> (s: String)
        ensures
            s@ =~= self.export_name_spec(*config, prefix@),
    {
        let mut s = config.participant_id.clone();
        s.append("_");
        s.append(u64_string(config.session_number).as_str());
        s.append("_");
        s.append(u64_string(config.trial_id).as_str());
        s.append("_");
        s.append(self.tag_str());
        s.append("_");
        s.append(prefix);
        s.append(".csv");
        s
    }

    /// Every channel's column-header line is one complete line.
    pub proof fn lemma_header_single_line(self)
        ensures
            is_single_line(self.header_spec()),
    {
        reveal_strlit("time,bpm,rr\n");
        reveal_strlit("time,x,y,z\n");
        reveal_strlit("time,val\n");
        match self {
            Channel::Hr => {
                assert(self.header_spec().last() == '\n');
                assert(no_newline(self.header_spec().drop_last()));
            },
            Channel::Acc => {
                assert(self.header_spec().last() == '\n');
                assert(no_newline(self.header_spec().drop_last()));
            },
            Channel::Ecg => {
                assert(self.header_spec().last() == '\n');
                assert(no_newline(self.header_spec().drop_last()));
            },
        }
    }
}

} // verus!
