//! Core of a physiological capture recorder.
//!
//! A wireless heart-rate sensor delivers three independent streams of
//! samples (heart rate, accelerometer, ECG). This library holds the logic
//! that turns those samples into durable per-channel CSV logs: the
//! session/connection state machine, the per-channel record sinks with
//! their buffering and flush discipline, the heart-rate sequence counter,
//! and the path bookkeeping that lets a later export find each channel's
//! file. All of it is verified; the pieces that touch the outside world
//! (the wireless transport, the file system, the clock) stay outside and
//! exchange plain values with this crate.

pub mod channel;
pub mod clock;
pub mod config;
pub mod error;
pub mod handler;
pub mod records;
pub mod registry;
pub mod session;
pub mod sink;
pub mod text;
