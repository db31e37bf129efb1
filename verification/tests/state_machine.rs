use polar_tracker::channel::Channel;
use polar_tracker::config::Config;
use polar_tracker::error::{AppError, TransportFault};
use polar_tracker::registry::SessionRegistry;
use polar_tracker::session::{AppState, Phase};

fn test_config() -> Config {
    Config {
        participant_id: "P9".to_string(),
        session_number: 4,
        trial_id: 2,
        description: "walk".to_string(),
        range: 4,
        rate: 100,
    }
}

#[test]
fn start_without_config_fails_and_opens_no_files() {
    let mut registry = SessionRegistry::new();
    let mut st = AppState::new();
    let r = st.start_event_loop("data", &mut registry);
    assert!(matches!(r, Err(AppError::MissingConfig)));
    assert_eq!(st.phase(), Phase::Disconnected);
    assert!(registry.resolve_path(Channel::Hr).is_none());
    assert!(registry.resolve_path(Channel::Acc).is_none());
    assert!(registry.resolve_path(Channel::Ecg).is_none());
}

#[test]
fn connect_without_config_fails() {
    let mut st = AppState::new();
    let r = st.connect("D".to_string());
    assert!(matches!(r, Err(AppError::MissingConfig)));
    assert_eq!(st.phase(), Phase::Disconnected);
}

#[test]
fn start_without_connection_fails_with_missing_sensor() {
    let mut registry = SessionRegistry::new();
    let mut st = AppState::new();
    st.set_config(test_config()).unwrap();
    let r = st.start_event_loop("data", &mut registry);
    assert!(matches!(r, Err(AppError::MissingSensor)));
    assert!(registry.resolve_path(Channel::Hr).is_none());
}

#[test]
fn second_start_fails_and_keeps_the_first_session() {
    let mut registry = SessionRegistry::new();
    let mut st = AppState::new();
    st.set_config(test_config()).unwrap();
    st.connect("D".to_string()).unwrap();
    st.connect_succeeded();
    st.start_event_loop("data", &mut registry).unwrap();
    let first_hr_path = registry.resolve_path(Channel::Hr).unwrap();
    let r = st.start_event_loop("data", &mut registry);
    assert!(matches!(r, Err(AppError::MissingSensor)));
    assert_eq!(st.phase(), Phase::Streaming);
    // no second set of sinks: the registered paths are untouched
    assert_eq!(registry.resolve_path(Channel::Hr).unwrap(), first_hr_path);
    assert_eq!(st.hr_sequence_count(), Some(0));
}

#[test]
fn stop_returns_connection_for_a_new_capture() {
    let mut registry = SessionRegistry::new();
    let mut st = AppState::new();
    st.set_config(test_config()).unwrap();
    st.connect("D".to_string()).unwrap();
    st.connect_succeeded();
    st.start_event_loop("data", &mut registry).unwrap();
    st.stop_event_loop().unwrap();
    assert_eq!(st.phase(), Phase::Connected);
    // a second capture starts without reconnecting
    st.start_event_loop("data", &mut registry).unwrap();
    assert_eq!(st.phase(), Phase::Streaming);
    assert_eq!(st.hr_sequence_count(), Some(0));
}

#[test]
fn stop_without_capture_fails() {
    let mut st = AppState::new();
    assert!(matches!(st.stop_event_loop(), Err(AppError::MissingHandler)));
    st.set_config(test_config()).unwrap();
    st.connect("D".to_string()).unwrap();
    st.connect_succeeded();
    assert!(matches!(st.stop_event_loop(), Err(AppError::MissingHandler)));
    assert_eq!(st.phase(), Phase::Connected);
}

#[test]
fn transient_fault_is_retried_while_uncancelled() {
    let mut st = AppState::new();
    st.set_config(test_config()).unwrap();
    st.connect("D".to_string()).unwrap();
    assert_eq!(st.phase(), Phase::Connecting);
    assert!(st.connect_failed(TransportFault::Other));
    assert_eq!(st.phase(), Phase::Connecting);
    assert!(st.connect_failed(TransportFault::Other));
    st.connect_succeeded();
    assert_eq!(st.phase(), Phase::Connected);
}

#[test]
fn missing_adapter_is_fatal_and_never_retried() {
    let mut st = AppState::new();
    st.set_config(test_config()).unwrap();
    st.connect("D".to_string()).unwrap();
    assert!(!st.connect_failed(TransportFault::NoBleAdaptor));
    assert_eq!(st.phase(), Phase::Disconnected);
}

#[test]
fn cancel_aborts_a_pending_attempt_at_its_next_failure() {
    let mut st = AppState::new();
    st.set_config(test_config()).unwrap();
    st.connect("D".to_string()).unwrap();
    st.cancel().unwrap();
    assert!(!st.connect_failed(TransportFault::Other));
    assert_eq!(st.phase(), Phase::Disconnected);
}

#[test]
fn connect_while_streaming_is_refused_and_loses_nothing() {
    let mut registry = SessionRegistry::new();
    let mut st = AppState::new();
    st.set_config(test_config()).unwrap();
    st.connect("D".to_string()).unwrap();
    st.connect_succeeded();
    st.start_event_loop("data", &mut registry).unwrap();
    let first_hr_path = registry.resolve_path(Channel::Hr).unwrap();
    let r = st.connect("D2".to_string());
    assert!(matches!(r, Err(AppError::MissingSensor)));
    assert_eq!(st.phase(), Phase::Streaming);
    assert_eq!(st.hr_sequence_count(), Some(0));
    assert_eq!(registry.resolve_path(Channel::Hr).unwrap(), first_hr_path);
    // the running capture still stops normally, buffers intact
    let bundle = st.stop_event_loop().unwrap();
    assert!(bundle.hr.data.ends_with("time,bpm,rr\n"));
}

#[test]
fn failed_reconnect_returns_the_held_connection() {
    let mut registry = SessionRegistry::new();
    let mut st = AppState::new();
    st.set_config(test_config()).unwrap();
    st.connect("D1".to_string()).unwrap();
    st.connect_succeeded();
    assert_eq!(st.phase(), Phase::Connected);
    let params = st.connect("D2".to_string()).unwrap();
    assert_eq!(params.device_id, "D2");
    assert_eq!(st.phase(), Phase::Connecting);
    assert!(!st.connect_failed(TransportFault::NoBleAdaptor));
    // the attempt failed: the old connection is usable again
    assert_eq!(st.phase(), Phase::Connected);
    st.start_event_loop("data", &mut registry).unwrap();
    assert_eq!(st.phase(), Phase::Streaming);
}

#[test]
fn superseded_attempt_keeps_the_retained_connection() {
    let mut st = AppState::new();
    st.set_config(test_config()).unwrap();
    st.connect("D1".to_string()).unwrap();
    let params = st.connect("D2".to_string()).unwrap();
    assert_eq!(params.device_id, "D2");
    assert_eq!(st.phase(), Phase::Connecting);
    // no connection was held before either attempt
    assert!(!st.connect_failed(TransportFault::NoBleAdaptor));
    assert_eq!(st.phase(), Phase::Disconnected);
}

#[test]
fn registry_keeps_only_the_latest_path_per_channel() {
    let mut registry = SessionRegistry::new();
    registry.register_path(Channel::Hr, "data/hr_1.csv".to_string());
    registry.register_path(Channel::Acc, "data/acc_1.csv".to_string());
    registry.register_path(Channel::Hr, "data/hr_2.csv".to_string());
    assert_eq!(registry.resolve_path(Channel::Hr).unwrap(), "data/hr_2.csv");
    assert_eq!(registry.resolve_path(Channel::Acc).unwrap(), "data/acc_1.csv");
    assert!(registry.resolve_path(Channel::Ecg).is_none());
}

#[test]
fn error_messages_render_each_kind() {
    assert_eq!(AppError::MissingConfig.message(), "no config found");
    assert_eq!(
        AppError::MissingHandler.message(),
        "tried to connect to device without a handler"
    );
    assert_eq!(AppError::MissingSensor.message(), "sensor was absent when it was needed");
    assert_eq!(
        AppError::ArcticError(TransportFault::NoBleAdaptor).message(),
        "arctic: no bluetooth adaptors found"
    );
    assert_eq!(AppError::ArcticError(TransportFault::Other).message(), "arctic: connection failed");
    assert_eq!(AppError::IoError.message(), "fs: storage error");
}
