//! The typed failures the command surface can report.

use vstd::prelude::*;

verus! {

/// What the wireless transport reported when an operation on it failed.
/// The absence of a bluetooth adapter is distinguished because it is fatal:
/// a connect attempt is never retried after it.
#[derive(Clone, Copy, Debug, PartialEq, Eq, Structural)]
pub enum TransportFault {
    NoBleAdaptor,
    Other,
}

/// A failure of one command-surface operation.
#[derive(Clone, Copy, Debug, PartialEq, Eq, Structural)]
pub enum AppError {
    /// The wireless transport failed.
    ArcticError(TransportFault),
    /// A file could not be opened, written or flushed.
    IoError,
    /// A command needed a session configuration and none was set.
    MissingConfig,
    /// A capture was to be stopped and none was running.
    MissingHandler,
    /// A command needed the idle connection and none was held: it was
    /// never built, or it lives inside a running capture's event loop.
    MissingSensor,
}

impl AppError {
    /// The single human-readable rendering that crosses the command
    /// surface; no structured detail leaves the core.
    pub open spec fn message_spec(&self) -> Seq<char> {
        match self {
            AppError::ArcticError(TransportFault::NoBleAdaptor) => "arctic: no bluetooth adaptors found"@,
            AppError::ArcticError(TransportFault::Other) => "arctic: connection failed"@,
            AppError::IoError => "fs: storage error"@,
            AppError::MissingConfig => "no config found"@,
            AppError::MissingHandler => "tried to connect to device without a handler"@,
            AppError::MissingSensor => "sensor was absent when it was needed"@,
        }
    }

    pub fn message(&self) -> (s: String)
        ensures
            s@ == self.message_spec(),
    {
        match self {
            AppError::ArcticError(TransportFault::NoBleAdaptor) => "arctic: no bluetooth adaptors found".to_owned(),
            AppError::ArcticError(TransportFault::Other) => "arctic: connection failed".to_owned(),
            AppError::IoError => "fs: storage error".to_owned(),
            AppError::MissingConfig => "no config found".to_owned(),
            AppError::MissingHandler => "tried to connect to device without a handler".to_owned(),
            AppError::MissingSensor => "sensor was absent when it was needed".to_owned(),
        }
    }
}

} // verus!
