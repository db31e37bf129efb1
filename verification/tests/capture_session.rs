use polar_tracker::config::Config;
use polar_tracker::error::AppError;
use polar_tracker::records::{HeartRateSample, MeasurementBatch, SamplePoint};
use polar_tracker::registry::SessionRegistry;
use polar_tracker::session::{AppState, Phase};

fn test_config() -> Config {
    Config {
        participant_id: "P1".to_string(),
        session_number: 1,
        trial_id: 3,
        description: "rest".to_string(),
        range: 8,
        rate: 200,
    }
}

/// Drives the machine to a streaming capture: config, connect, start.
fn streaming_state(registry: &mut SessionRegistry) -> AppState {
    let mut st = AppState::new();
    st.set_config(test_config()).unwrap();
    let params = st.connect("D".to_string()).unwrap();
    assert_eq!(params.device_id, "D");
    assert_eq!(params.range, 8);
    assert_eq!(params.rate, 200);
    st.connect_succeeded();
    assert_eq!(st.phase(), Phase::Connected);
    st.start_event_loop("data", registry).unwrap();
    assert_eq!(st.phase(), Phase::Streaming);
    st
}

fn lines_of(data: &str) -> Vec<&str> {
    data.split('\n').collect()
}

#[test]
fn heart_rate_scenario_writes_expected_lines() {
    let mut registry = SessionRegistry::new();
    let mut st = streaming_state(&mut registry);
    st.heart_rate_update(&HeartRateSample { bpm: 72, rr: vec![800, 810] }).unwrap();
    st.heart_rate_update(&HeartRateSample { bpm: 75, rr: vec![] }).unwrap();
    let bundle = st.stop_event_loop().unwrap();
    let lines = lines_of(&bundle.hr.data);
    assert_eq!(lines[2], "0,72,800,810");
    assert_eq!(lines[3], "1,75");
    assert_eq!(st.phase(), Phase::Connected);
}

#[test]
fn measurement_batch_scenario_routes_points() {
    let mut registry = SessionRegistry::new();
    let mut st = streaming_state(&mut registry);
    let batch = MeasurementBatch {
        time_stamp: 1000,
        points: vec![
            SamplePoint::Acc { x: 1, y: 2, z: 3 },
            SamplePoint::Ecg { val: 42 },
        ],
    };
    st.measurement_update(&batch).unwrap();
    let bundle = st.stop_event_loop().unwrap();
    let acc_lines = lines_of(&bundle.acc.data);
    let ecg_lines = lines_of(&bundle.ecg.data);
    assert_eq!(acc_lines[2], "1000,1,2,3");
    assert_eq!(ecg_lines[2], "1000,42");
}

#[test]
fn heart_rate_numbering_survives_interleaving() {
    let mut registry = SessionRegistry::new();
    let mut st = streaming_state(&mut registry);
    let batch = MeasurementBatch {
        time_stamp: 7,
        points: vec![SamplePoint::Ecg { val: 1 }, SamplePoint::Acc { x: 0, y: 0, z: 0 }],
    };
    st.heart_rate_update(&HeartRateSample { bpm: 60, rr: vec![] }).unwrap();
    st.measurement_update(&batch).unwrap();
    st.heart_rate_update(&HeartRateSample { bpm: 61, rr: vec![900] }).unwrap();
    st.measurement_update(&batch).unwrap();
    st.heart_rate_update(&HeartRateSample { bpm: 62, rr: vec![] }).unwrap();
    assert_eq!(st.hr_sequence_count(), Some(3));
    let bundle = st.stop_event_loop().unwrap();
    let lines = lines_of(&bundle.hr.data);
    assert_eq!(lines[2], "0,60");
    assert_eq!(lines[3], "1,61,900");
    assert_eq!(lines[4], "2,62");
    // exactly the two header lines, three records, one trailing empty piece
    assert_eq!(lines.len(), 6);
}

#[test]
fn stop_flushes_every_appended_record_exactly_once() {
    let mut registry = SessionRegistry::new();
    let mut st = streaming_state(&mut registry);
    st.heart_rate_update(&HeartRateSample { bpm: 80, rr: vec![] }).unwrap();
    let batch = MeasurementBatch {
        time_stamp: 5,
        points: vec![SamplePoint::Acc { x: 9, y: 8, z: 7 }, SamplePoint::Ecg { val: -3 }],
    };
    st.measurement_update(&batch).unwrap();
    let bundle = st.stop_event_loop().unwrap();
    assert!(bundle.hr.data.ends_with("0,80\n"));
    assert!(bundle.acc.data.ends_with("5,9,8,7\n"));
    assert!(bundle.ecg.data.ends_with("5,-3\n"));
    // a second stop has nothing to stop
    assert!(matches!(st.stop_event_loop(), Err(AppError::MissingHandler)));
}

#[test]
fn metadata_line_of_real_session_is_one_quoted_line() {
    let mut registry = SessionRegistry::new();
    let mut st = streaming_state(&mut registry);
    let bundle = st.stop_event_loop().unwrap();
    let lines = lines_of(&bundle.hr.data);
    let meta = lines[0];
    assert!(meta.starts_with("\"P1\",\"1\",\"3\",\""));
    assert!(meta.ends_with("\",\"rest\""));
    // five quoted fields: exactly ten quotes, whatever the clock returned
    assert_eq!(meta.matches('"').count(), 10);
    assert_eq!(lines[1], "time,bpm,rr");
}

#[test]
fn session_files_are_registered_under_one_prefix() {
    let mut registry = SessionRegistry::new();
    let mut st = streaming_state(&mut registry);
    let hr_path = registry.resolve_path(polar_tracker::channel::Channel::Hr).unwrap();
    let acc_path = registry.resolve_path(polar_tracker::channel::Channel::Acc).unwrap();
    let ecg_path = registry.resolve_path(polar_tracker::channel::Channel::Ecg).unwrap();
    assert!(hr_path.starts_with("data/hr_"));
    assert!(acc_path.starts_with("data/acc_"));
    assert!(ecg_path.starts_with("data/ecg_"));
    assert!(hr_path.ends_with(".csv"));
    let prefix = &hr_path["data/hr_".len()..hr_path.len() - ".csv".len()];
    assert_eq!(acc_path, format!("data/acc_{}.csv", prefix));
    assert_eq!(ecg_path, format!("data/ecg_{}.csv", prefix));
    let bundle = st.stop_event_loop().unwrap();
    assert_eq!(bundle.hr.path, hr_path);
    assert_eq!(bundle.acc.path, acc_path);
    assert_eq!(bundle.ecg.path, ecg_path);
}

#[test]
fn disconnect_stops_and_flushes_running_capture() {
    let mut registry = SessionRegistry::new();
    let mut st = streaming_state(&mut registry);
    st.heart_rate_update(&HeartRateSample { bpm: 90, rr: vec![] }).unwrap();
    let flushed = st.disconnect().unwrap();
    let bundle = flushed.expect("a running capture must hand its buffers out");
    assert!(bundle.hr.data.ends_with("0,90\n"));
    assert_eq!(st.phase(), Phase::Disconnected);
    // idle disconnect has nothing to flush
    let mut st2 = AppState::new();
    assert!(st2.disconnect().unwrap().is_none());
}

#[test]
fn delivery_outside_capture_is_refused() {
    let mut st = AppState::new();
    let r = st.heart_rate_update(&HeartRateSample { bpm: 70, rr: vec![] });
    assert!(matches!(r, Err(AppError::MissingHandler)));
    let batch = MeasurementBatch { time_stamp: 1, points: vec![] };
    assert!(matches!(st.measurement_update(&batch), Err(AppError::MissingHandler)));
    assert!(!st.on_should_continue());
}
