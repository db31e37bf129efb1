//! The session configuration supplied by the command surface before a
//! capture can start.

use vstd::prelude::*;

verus! {

/// Configuration for one capture session. Supplied once over the command
/// surface; immutable while a session runs. `range` and `rate` are the
/// sensor's acquisition settings, applied when the connection is built.
#[derive(Clone, Debug)]
pub struct Config {
    pub participant_id: String,
    pub session_number: u64,
    pub trial_id: u64,
    pub description: String,
    pub range: u8,
    pub rate: u8,
}

impl Config {
    /// A config is valid when its free-text fields contain no quote and no
    /// newline, so that each quoted metadata field stays on one line.
    pub open spec fn valid(&self) -> bool {
        &&& forall|i: int|
            0 <= i < self.participant_id@.len() ==> (#[trigger] self.participant_id@[i]) != '"'
                && self.participant_id@[i] != '\n'
        &&& forall|i: int|
            0 <= i < self.description@.len() ==> (#[trigger] self.description@[i]) != '"'
                && self.description@[i] != '\n'
    }
}

} // verus!
