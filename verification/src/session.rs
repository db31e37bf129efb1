//! The Connection/Session state machine: the lifecycle of the sensor
//! connection and of the active capture session, and the command surface
//! an external caller drives it with.
//!
//! The machine only decides; the outside work it asks for — the wireless
//! connect attempt, the delivery of decoded samples, the writing of
//! drained buffers — is performed by the surrounding program, which
//! reports each outcome back as an event. Connection ownership moves with
//! the state: starting a capture moves the `SensorHandle` out of
//! `Connected` into the running session's `StopHandle`, so no caller can
//! hold a live connection and a stale stop handle at once.

use vstd::prelude::*;
use crate::channel::Channel;
use crate::config::Config;
use crate::error::{AppError, TransportFault};
use crate::handler::{batch_appended, hr_appended, plain_text, Handler};
use crate::records::{HeartRateSample, MeasurementBatch};
use crate::registry::SessionRegistry;

verus! {

/// The live wireless connection, held while no capture runs: an
/// at-most-one-owner capability created only when a connect attempt
/// succeeds, carrying the acquisition settings that were applied to the
/// sensor when the connection was built.
pub struct SensorHandle {
    pub device_id: String,
    pub range: u8,
    pub rate: u8,
}

/// The capability returned when the connection is handed into a running
/// capture: it can only stop that capture, and it gives the connection
/// back when it does.
pub struct StopHandle {
    pub sensor: SensorHandle,
}

/// What the surrounding program needs to drive one connect attempt.
pub struct ConnectParams {
    pub device_id: String,
    pub range: u8,
    pub rate: u8,
}

/// One channel's drained buffer and the path it must be written to.
pub struct ChannelFlush {
    pub path: String,
    pub data: String,
}

/// The final buffered text of all three sinks of a torn-down session,
/// one entry per channel, each to be written independently so that one
/// channel's storage failure cannot prevent flushing the others.
pub struct FlushBundle {
    pub hr: ChannelFlush,
    pub acc: ChannelFlush,
    pub ecg: ChannelFlush,
}

/// The externally observable face of the connection lifecycle.
#[derive(Clone, Copy, Debug, PartialEq, Eq, Structural)]
pub enum Phase {
    Disconnected,
    Connecting,
    Connected,
    Streaming,
}

/// The phase a connection state is in.
pub open spec fn phase_of(c: ConnState) -> Phase {
    match c {
        ConnState::Disconnected => Phase::Disconnected,
        ConnState::Connecting { .. } => Phase::Connecting,
        ConnState::Connected { .. } => Phase::Connected,
        ConnState::Streaming { .. } => Phase::Streaming,
    }
}

/// Where the connection lifecycle stands.
pub enum ConnState {
    /// No connection is held.
    Disconnected,
    /// A connect attempt to this device, with these acquisition settings,
    /// is in flight. An idle connection held when the attempt began stays
    /// retained in `prior`: it is replaced only when the attempt succeeds,
    /// so an abandoned attempt gives it back intact.
    Connecting { device_id: String, range: u8, rate: u8, prior: Option<SensorHandle> },
    /// A connection is held and idle; a capture may start.
    Connected { sensor: SensorHandle },
    /// A capture session runs; the connection lives inside its event loop
    /// and only the stop handle remains.
    Streaming { handle: StopHandle, session: Handler },
}

/// The idle connection a new connect attempt must retain until it
/// succeeds: the one held while `Connected`, the one a pending attempt was
/// already retaining, none otherwise.
pub open spec fn retained_sensor(c: ConnState) -> Option<SensorHandle> {
    match c {
        ConnState::Connected { sensor } => Some(sensor),
        ConnState::Connecting { prior, .. } => prior,
        _ => None,
    }
}

/// Where an abandoned connect attempt leaves the machine: holding the
/// retained idle connection again, or disconnected if none was held.
pub open spec fn conn_after_abort(prior: Option<SensorHandle>) -> ConnState {
    match prior {
        Some(sensor) => ConnState::Connected { sensor },
        None => ConnState::Disconnected,
    }
}

/// The bundle `b` holds exactly the buffered text and output path of each
/// of `session`'s three sinks.
pub open spec fn bundle_of(b: FlushBundle, session: Handler) -> bool {
    &&& b.hr.path@ == session.sink_of(Channel::Hr).path_spec()
    &&& b.hr.data@ == session.sink_of(Channel::Hr).pending_spec()
    &&& b.acc.path@ == session.sink_of(Channel::Acc).path_spec()
    &&& b.acc.data@ == session.sink_of(Channel::Acc).pending_spec()
    &&& b.ecg.path@ == session.sink_of(Channel::Ecg).path_spec()
    &&& b.ecg.data@ == session.sink_of(Channel::Ecg).pending_spec()
}

/// The shared state behind the command surface.
pub struct AppState {
    config: Option<Config>,
    conn: ConnState,
    connecting: bool,
}

impl AppState {
    /// The session configuration, if one was supplied.
    pub closed spec fn config_spec(&self) -> Option<Config> {
        self.config
    }

    /// Where the connection lifecycle stands.
    pub closed spec fn conn_spec(&self) -> ConnState {
        self.conn
    }

    /// Whether a connect attempt is live and not cancelled.
    pub closed spec fn connecting_spec(&self) -> bool {
        self.connecting
    }

    /// While a capture runs, its dispatcher is well formed.
    pub open spec fn wf(&self) -> bool {
        match self.conn_spec() {
            ConnState::Streaming { session, .. } => session.wf(),
            _ => true,
        }
    }

    /// The heart-rate sequence counter of the running session, if any, has
    /// not reached its machine limit.
    pub open spec fn hr_counter_has_headroom(&self) -> bool {
        match self.conn_spec() {
            ConnState::Streaming { session, .. } => session.sink_of(
                Channel::Hr,
            ).hr_count_spec() < u64::MAX,
            _ => true,
        }
    }

    /// A fresh state: nothing configured, nothing connected.
    pub fn new() -> (r: AppState)
        ensures
            r.wf(),
            r.config_spec() is None,
            r.conn_spec() is Disconnected,
            !r.connecting_spec(),
    {
        AppState { config: None, conn: ConnState::Disconnected, connecting: false }
    }

    /// Stores the session configuration for the captures that follow.
    /// Always succeeds; a running capture keeps the configuration it
    /// started with, since its sinks were opened under it.
    pub fn set_config(&mut self, config: Config) -> (r: Result<(), AppError>)
        requires
            old(self).wf(),
        ensures
            final(self).wf(),
            r is Ok,
            final(self).config_spec() == Some(config),
            final(self).conn_spec() == old(self).conn_spec(),
            final(self).connecting_spec() == old(self).connecting_spec(),
    {
        self.config = Some(config);
        Ok(())
    }

    /// Begins a connect attempt to a device. Needs a configuration — its
    /// acquisition settings are fixed for the attempt here — and otherwise
    /// fails with the missing-configuration error and changes nothing.
    /// While a capture streams the connection lives inside its event loop,
    /// so no new attempt may start: the missing-sensor error comes back
    /// and the running session, its buffers included, is untouched. An
    /// idle connection already held is retained until the new attempt
    /// succeeds; the one `Connecting` state holds the one in-flight
    /// attempt, and a new request supersedes only a pending attempt.
    pub fn connect(&mut self, device_id: String) -> (r: Result<ConnectParams, AppError>)
        requires
            old(self).wf(),
        ensures
            final(self).wf(),
            final(self).config_spec() == old(self).config_spec(),
            old(self).config_spec() is None ==> {
                &&& r == Err::<ConnectParams, AppError>(AppError::MissingConfig)
                &&& final(self).conn_spec() == old(self).conn_spec()
                &&& final(self).connecting_spec() == old(self).connecting_spec()
            },
            old(self).config_spec() is Some && old(self).conn_spec() is Streaming ==> {
                &&& r == Err::<ConnectParams, AppError>(AppError::MissingSensor)
                &&& final(self).conn_spec() == old(self).conn_spec()
                &&& final(self).connecting_spec() == old(self).connecting_spec()
            },
            old(self).config_spec() matches Some(cfg) ==> !(old(self).conn_spec() is Streaming)
                ==> {
                &&& r matches Ok(p) && p.device_id@ == device_id@ && p.range == cfg.range
                    && p.rate == cfg.rate
                &&& final(self).conn_spec() == (ConnState::Connecting {
                    device_id,
                    range: cfg.range,
                    rate: cfg.rate,
                    prior: retained_sensor(old(self).conn_spec()),
                })
                &&& final(self).connecting_spec()
            },
    {
        match &self.config {
            None => Err(AppError::MissingConfig),
            Some(cfg) => {
                let range = cfg.range;
                let rate = cfg.rate;
                let mut tmp = ConnState::Disconnected;
                core::mem::swap(&mut tmp, &mut self.conn);
                match tmp {
                    ConnState::Streaming { handle, session } => {
                        self.conn = ConnState::Streaming { handle, session };
                        Err(AppError::MissingSensor)
                    },
                    ConnState::Connected { sensor } => {
                        let params = ConnectParams { device_id: device_id.clone(), range, rate };
                        self.conn = ConnState::Connecting {
                            device_id,
                            range,
                            rate,
                            prior: Some(sensor),
                        };
                        self.connecting = true;
                        Ok(params)
                    },
                    ConnState::Connecting { prior, .. } => {
                        let params = ConnectParams { device_id: device_id.clone(), range, rate };
                        self.conn = ConnState::Connecting { device_id, range, rate, prior };
                        self.connecting = true;
                        Ok(params)
                    },
                    ConnState::Disconnected => {
                        let params = ConnectParams { device_id: device_id.clone(), range, rate };
                        self.conn = ConnState::Connecting { device_id, range, rate, prior: None };
                        self.connecting = true;
                        Ok(params)
                    },
                }
            },
        }
    }

    /// One connect attempt failed; decides whether the surrounding program
    /// retries. A transient fault is retried while the attempt stands
    /// uncancelled; the absence of a bluetooth adapter is fatal and never
    /// retried; a cancelled attempt is abandoned. An abandoned attempt
    /// gives back the idle connection it was retaining — or leaves the
    /// machine disconnected if none was held — and the caller surfaces the
    /// transport error.
    pub fn connect_failed(&mut self, fault: TransportFault) -> (retry: bool)
        requires
            old(self).wf(),
            old(self).conn_spec() is Connecting,
        ensures
            final(self).wf(),
            retry == (!(fault is NoBleAdaptor) && old(self).connecting_spec()),
            final(self).config_spec() == old(self).config_spec(),
            retry ==> final(self).conn_spec() == old(self).conn_spec()
                && final(self).connecting_spec() == old(self).connecting_spec(),
            !retry ==> !final(self).connecting_spec() && (old(self).conn_spec()
                matches ConnState::Connecting { prior, .. } ==> final(self).conn_spec()
                == conn_after_abort(prior)),
    {
        let fatal = match fault {
            TransportFault::NoBleAdaptor => true,
            TransportFault::Other => false,
        };
        if !fatal && self.connecting {
            true
        } else {
            let mut tmp = ConnState::Disconnected;
            core::mem::swap(&mut tmp, &mut self.conn);
            match tmp {
                ConnState::Connecting { prior: Some(sensor), .. } => {
                    self.conn = ConnState::Connected { sensor };
                },
                ConnState::Connecting { prior: None, .. } => {
                    self.conn = ConnState::Disconnected;
                },
                _ => {
                    proof {
                        assert(false);
                    }
                },
            }
            self.connecting = false;
            false
        }
    }

    /// The connect attempt succeeded: the machine now holds the live
    /// connection, with the settings the attempt carried applied to it.
    /// An idle connection the attempt had been retaining is replaced by
    /// the new one.
    pub fn connect_succeeded(&mut self)
        requires
            old(self).wf(),
            old(self).conn_spec() is Connecting,
        ensures
            final(self).wf(),
            final(self).config_spec() == old(self).config_spec(),
            !final(self).connecting_spec(),
            old(self).conn_spec() matches ConnState::Connecting { device_id, range, rate, prior: _ }
                ==> final(self).conn_spec() == (ConnState::Connected {
                sensor: SensorHandle { device_id, range, rate },
            }),
    {
        let mut tmp = ConnState::Disconnected;
        core::mem::swap(&mut tmp, &mut self.conn);
        match tmp {
            ConnState::Connecting { device_id, range, rate, prior: _ } => {
                self.conn = ConnState::Connected {
                    sensor: SensorHandle { device_id, range, rate },
                };
            },
            _ => {
                proof {
                    assert(false);
                }
            },
        }
        self.connecting = false;
    }

    /// Cancels a pending connect attempt. The signal is cooperative: the
    /// attempt observes it at its next failed try and abandons retrying.
    pub fn cancel(&mut self) -> (r: Result<(), AppError>)
        requires
            old(self).wf(),
        ensures
            final(self).wf(),
            r is Ok,
            !final(self).connecting_spec(),
            final(self).config_spec() == old(self).config_spec(),
            final(self).conn_spec() == old(self).conn_spec(),
    {
        self.connecting = false;
        Ok(())
    }

    /// Starts a capture session: opens a fresh session (new prefix, one
    /// new sink per channel, each path registered before any record is
    /// written) and moves the connection into the running capture's stop
    /// handle. Fails with the missing-configuration error when no config
    /// was set, and with the missing-sensor error when no idle connection
    /// is held — in particular on a second start while one capture already
    /// runs, so a running session's sinks are never doubled. On failure
    /// nothing changes and no path is registered.
    pub fn start_event_loop(
        &mut self,
        data_dir: &str,
        registry: &mut SessionRegistry,
    ) -> (r: Result<(), AppError>)
        requires
            old(self).wf(),
        ensures
            final(self).wf(),
            final(self).config_spec() == old(self).config_spec(),
            final(self).connecting_spec() == old(self).connecting_spec(),
            old(self).config_spec() is None ==> {
                &&& r == Err::<(), AppError>(AppError::MissingConfig)
                &&& final(self).conn_spec() == old(self).conn_spec()
                &&& *final(registry) == *old(registry)
            },
            old(self).config_spec() is Some && !(old(self).conn_spec() is Connected) ==> {
                &&& r == Err::<(), AppError>(AppError::MissingSensor)
                &&& final(self).conn_spec() == old(self).conn_spec()
                &&& *final(registry) == *old(registry)
            },
            old(self).config_spec() matches Some(cfg) ==> old(self).conn_spec()
                matches ConnState::Connected { sensor } ==> {
                &&& r is Ok
                &&& final(self).conn_spec() matches ConnState::Streaming { handle, session }
                    && handle.sensor == sensor && session.wf() && session.fresh_session(
                    cfg,
                    data_dir@,
                ) && session.paths_registered(*final(registry)) && plain_text(
                    session.captured_at_spec(),
                ) && (exists|n: u64| session.prefix_spec() == crate::text::dec_of(n as nat))
            },
    {
        match &self.config {
            None => Err(AppError::MissingConfig),
            Some(cfg) => {
                let mut tmp = ConnState::Disconnected;
                core::mem::swap(&mut tmp, &mut self.conn);
                match tmp {
                    ConnState::Connected { sensor } => {
                        let session = Handler::new(cfg, data_dir, registry);
                        self.conn = ConnState::Streaming {
                            handle: StopHandle { sensor },
                            session,
                        };
                        Ok(())
                    },
                    other => {
                        self.conn = other;
                        Err(AppError::MissingSensor)
                    },
                }
            },
        }
    }

    /// Stops the running capture: signals its event loop, takes the
    /// connection back from the stop handle — a new capture can start
    /// without reconnecting — and drains every sink's buffer exactly once,
    /// handing the text out so teardown cannot lose it. Fails with the
    /// missing-capture error, changing nothing, when no capture runs.
    pub fn stop_event_loop(&mut self) -> (r: Result<FlushBundle, AppError>)
        requires
            old(self).wf(),
        ensures
            final(self).wf(),
            final(self).config_spec() == old(self).config_spec(),
            final(self).connecting_spec() == old(self).connecting_spec(),
            !(old(self).conn_spec() is Streaming) ==> {
                &&& r == Err::<FlushBundle, AppError>(AppError::MissingHandler)
                &&& final(self).conn_spec() == old(self).conn_spec()
            },
            old(self).conn_spec() matches ConnState::Streaming { handle, session } ==> {
                &&& r matches Ok(bundle) && bundle_of(bundle, session)
                &&& final(self).conn_spec() == (ConnState::Connected { sensor: handle.sensor })
            },
    {
        let mut tmp = ConnState::Disconnected;
        core::mem::swap(&mut tmp, &mut self.conn);
        match tmp {
            ConnState::Streaming { handle, session } => {
                let mut session = session;
                let hr = ChannelFlush {
                    path: session.output_path(Channel::Hr),
                    data: session.flush_channel(Channel::Hr),
                };
                let acc = ChannelFlush {
                    path: session.output_path(Channel::Acc),
                    data: session.flush_channel(Channel::Acc),
                };
                let ecg = ChannelFlush {
                    path: session.output_path(Channel::Ecg),
                    data: session.flush_channel(Channel::Ecg),
                };
                self.conn = ConnState::Connected { sensor: handle.sensor };
                Ok(FlushBundle { hr, acc, ecg })
            },
            other => {
                self.conn = other;
                Err(AppError::MissingHandler)
            },
        }
    }

    /// Drops the connection entirely, from any state. A running capture is
    /// implicitly stopped and its sinks drained exactly once as part of
    /// teardown, the text handed out for storage.
    pub fn disconnect(&mut self) -> (r: Result<Option<FlushBundle>, AppError>)
        requires
            old(self).wf(),
        ensures
            final(self).wf(),
            r is Ok,
            final(self).conn_spec() is Disconnected,
            final(self).config_spec() == old(self).config_spec(),
            final(self).connecting_spec() == old(self).connecting_spec(),
            match old(self).conn_spec() {
                ConnState::Streaming { session, .. } => r matches Ok(Some(bundle))
                    && bundle_of(bundle, session),
                _ => r == Ok::<Option<FlushBundle>, AppError>(None),
            },
    {
        let mut tmp = ConnState::Disconnected;
        core::mem::swap(&mut tmp, &mut self.conn);
        match tmp {
            ConnState::Streaming { handle: _, session } => {
                let mut session = session;
                let hr = ChannelFlush {
                    path: session.output_path(Channel::Hr),
                    data: session.flush_channel(Channel::Hr),
                };
                let acc = ChannelFlush {
                    path: session.output_path(Channel::Acc),
                    data: session.flush_channel(Channel::Acc),
                };
                let ecg = ChannelFlush {
                    path: session.output_path(Channel::Ecg),
                    data: session.flush_channel(Channel::Ecg),
                };
                Ok(Some(FlushBundle { hr, acc, ecg }))
            },
            _ => Ok(None),
        }
    }

    /// The phase the connection lifecycle is in.
    pub fn phase(&self) -> (p: Phase)
        ensures
            p == phase_of(self.conn_spec()),
    {
        match &self.conn {
            ConnState::Disconnected => Phase::Disconnected,
            ConnState::Connecting { .. } => Phase::Connecting,
            ConnState::Connected { .. } => Phase::Connected,
            ConnState::Streaming { .. } => Phase::Streaming,
        }
    }

    /// The running session's unique file prefix, while one runs; the
    /// export copy builds its suggested file name from it.
    pub fn session_prefix(&self) -> (p: Option<String>)
        ensures
            match self.conn_spec() {
                ConnState::Streaming { session, .. } => p matches Some(s) && s@
                    == session.prefix_spec(),
                _ => p is None,
            },
    {
        match &self.conn {
            ConnState::Streaming { session, .. } => Some(session.session_prefix().clone()),
            _ => None,
        }
    }

    /// The running session's heart-rate sequence counter, while one runs.
    /// A caller delivering heart-rate samples checks it against the
    /// counter's machine limit.
    pub fn hr_sequence_count(&self) -> (c: Option<u64>)
        ensures
            match self.conn_spec() {
                ConnState::Streaming { session, .. } => c == Some(
                    session.sink_of(Channel::Hr).hr_count_spec(),
                ),
                _ => c is None,
            },
    {
        match &self.conn {
            ConnState::Streaming { session, .. } => Some(session.hr_count()),
            _ => None,
        }
    }

    /// The poll the external connection makes between deliveries: keep
    /// delivering events only while a capture runs.
    pub fn on_should_continue(&self) -> (r: bool)
        ensures
            r == (self.conn_spec() is Streaming),
    {
        match &self.conn {
            ConnState::Streaming { .. } => true,
            _ => false,
        }
    }

    /// Delivers one decoded heart-rate sample to the running session.
    /// Fails with the missing-capture error, changing nothing, when no
    /// capture runs.
    pub fn heart_rate_update(&mut self, sample: &HeartRateSample) -> (r: Result<(), AppError>)
        requires
            old(self).wf(),
            old(self).hr_counter_has_headroom(),
        ensures
            final(self).wf(),
            final(self).config_spec() == old(self).config_spec(),
            final(self).connecting_spec() == old(self).connecting_spec(),
            !(old(self).conn_spec() is Streaming) ==> {
                &&& r == Err::<(), AppError>(AppError::MissingHandler)
                &&& final(self).conn_spec() == old(self).conn_spec()
            },
            old(self).conn_spec() matches ConnState::Streaming { handle, session } ==> {
                &&& r is Ok
                &&& final(self).conn_spec() matches ConnState::Streaming {
                    handle: h2,
                    session: s2,
                } && h2 == handle && hr_appended(session, s2, sample.bpm, sample.rr@)
            },
    {
        let mut tmp = ConnState::Disconnected;
        core::mem::swap(&mut tmp, &mut self.conn);
        match tmp {
            ConnState::Streaming { handle, session } => {
                let mut session = session;
                session.heart_rate_update(sample);
                self.conn = ConnState::Streaming { handle, session };
                Ok(())
            },
            other => {
                self.conn = other;
                Err(AppError::MissingHandler)
            },
        }
    }

    /// Delivers one decoded measurement batch to the running session.
    /// Fails with the missing-capture error, changing nothing, when no
    /// capture runs.
    pub fn measurement_update(&mut self, data: &MeasurementBatch) -> (r: Result<(), AppError>)
        requires
            old(self).wf(),
        ensures
            final(self).wf(),
            final(self).config_spec() == old(self).config_spec(),
            final(self).connecting_spec() == old(self).connecting_spec(),
            !(old(self).conn_spec() is Streaming) ==> {
                &&& r == Err::<(), AppError>(AppError::MissingHandler)
                &&& final(self).conn_spec() == old(self).conn_spec()
            },
            old(self).conn_spec() matches ConnState::Streaming { handle, session } ==> {
                &&& r is Ok
                &&& final(self).conn_spec() matches ConnState::Streaming {
                    handle: h2,
                    session: s2,
                } && h2 == handle && batch_appended(session, s2, data.time_stamp, data.points@)
            },
    {
        let mut tmp = ConnState::Disconnected;
        core::mem::swap(&mut tmp, &mut self.conn);
        match tmp {
            ConnState::Streaming { handle, session } => {
                let mut session = session;
                session.measurement_update(data);
                self.conn = ConnState::Streaming { handle, session };
                Ok(())
            },
            other => {
                self.conn = other;
                Err(AppError::MissingHandler)
            },
        }
    }

    /// Hands out one channel's buffer of the running session when it has
    /// outgrown its capacity, as the buffered writers would; `None` while
    /// no capture runs or the buffer is still short.
    pub fn take_due(&mut self, channel: Channel) -> (out: Option<ChannelFlush>)
        requires
            old(self).wf(),
        ensures
            final(self).wf(),
            final(self).config_spec() == old(self).config_spec(),
            final(self).connecting_spec() == old(self).connecting_spec(),
            !(old(self).conn_spec() is Streaming) ==> out is None && final(self).conn_spec()
                == old(self).conn_spec(),
            old(self).conn_spec() matches ConnState::Streaming { handle, session } ==> {
                &&& final(self).conn_spec() matches ConnState::Streaming {
                    handle: h2,
                    session: s2,
                } && h2 == handle && s2.sink_of(channel).content_spec() == session.sink_of(
                    channel,
                ).content_spec() && s2.sink_of(channel).lines_spec() == session.sink_of(
                    channel,
                ).lines_spec() && (forall|c: Channel|
                    c != channel ==> s2.sink_of(c) == session.sink_of(c))
                &&& (out is Some) == ((vstd::utf8::encode_utf8(
                    session.sink_of(channel).pending_spec(),
                ).len() as usize) >= crate::sink::buf_capacity(channel))
                &&& match out {
                    Some(flush) => flush.path@ == session.sink_of(channel).path_spec()
                        && flush.data@ == session.sink_of(channel).pending_spec(),
                    None => true,
                }
            },
    {
        let mut tmp = ConnState::Disconnected;
        core::mem::swap(&mut tmp, &mut self.conn);
        match tmp {
            ConnState::Streaming { handle, session } => {
                let mut session = session;
                let path = session.output_path(channel);
                let drained = session.take_due(channel);
                self.conn = ConnState::Streaming { handle, session };
                match drained {
                    Some(data) => Some(ChannelFlush { path, data }),
                    None => None,
                }
            },
            other => {
                self.conn = other;
                None
            },
        }
    }
}

} // verus!
