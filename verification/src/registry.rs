//! The Session Registry: the lookup of the most recently opened log file
//! per channel, consulted by the export facility after capture. Owned
//! explicitly and passed by reference — not ambient global state.

use vstd::prelude::*;
use crate::channel::Channel;
use crate::clock::now_unix_seconds;
use crate::text::{dec_of, u64_string};

verus! {

/// Begins a new session: a prefix derived from the capture start time,
/// unique per run at second granularity — sessions are human-initiated and
/// never start twice within one wall-clock second. The prefix is always
/// the decimal rendering of one machine integer, so it is safe inside a
/// file name.
pub fn begin_session() -> (prefix: String)
    ensures
        exists|n: u64| prefix@ == dec_of(n as nat),
{
    let secs = now_unix_seconds();
    let n: u64 = if secs < 0 {
        0
    } else {
        secs as u64
    };
    let prefix = u64_string(n);
    proof {
        assert(prefix@ == dec_of(n as nat));
    }
    prefix
}

/// Latest registered output path per channel. A new session overwrites the
/// stale entries of the previous one.
pub struct SessionRegistry {
    hr_path: Option<String>,
    acc_path: Option<String>,
    ecg_path: Option<String>,
}

impl SessionRegistry {
    /// The path currently registered for a channel.
    pub closed spec fn path_spec(&self, channel: Channel) -> Option<Seq<char>> {
        match channel {
            Channel::Hr => match self.hr_path {
                Some(p) => Some(p@),
                None => None,
            },
            Channel::Acc => match self.acc_path {
                Some(p) => Some(p@),
                None => None,
            },
            Channel::Ecg => match self.ecg_path {
                Some(p) => Some(p@),
                None => None,
            },
        }
    }

    /// An empty registry: no session has opened any file yet.
    pub fn new() -> (r: SessionRegistry)
        ensures
            forall|channel: Channel| r.path_spec(channel) is None,
    {
        SessionRegistry { hr_path: None, acc_path: None, ecg_path: None }
    }

    /// Records the output path of a freshly opened sink, replacing whatever
    /// an earlier session had registered for the channel.
    pub fn register_path(&mut self, channel: Channel, path: String)
        ensures
            final(self).path_spec(channel) == Some(path@),
            forall|c: Channel|
                c != channel ==> final(self).path_spec(c) == old(self).path_spec(c),
    {
        match channel {
            Channel::Hr => self.hr_path = Some(path),
            Channel::Acc => self.acc_path = Some(path),
            Channel::Ecg => self.ecg_path = Some(path),
        }
    }

    /// The most recently registered path for a channel, if any session has
    /// opened one.
    pub fn resolve_path(&self, channel: Channel) -> (r: Option<String>)
        ensures
            match (r, self.path_spec(channel)) {
                (Some(p), Some(q)) => p@ == q,
                (None, None) => true,
                _ => false,
            },
    {
        let slot = match channel {
            Channel::Hr => &self.hr_path,
            Channel::Acc => &self.acc_path,
            Channel::Ecg => &self.ecg_path,
        };
        match slot {
            Some(p) => Some(p.clone()),
            None => None,
        }
    }
}

} // verus!
