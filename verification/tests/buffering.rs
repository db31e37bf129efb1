use polar_tracker::channel::Channel;
use polar_tracker::config::Config;
use polar_tracker::handler::Handler;
use polar_tracker::records::{HeartRateSample, MeasurementBatch, SamplePoint};
use polar_tracker::registry::SessionRegistry;
use polar_tracker::sink::{Sink, DEFAULT_BUF_CAPACITY, HR_BUF_CAPACITY};

fn test_config() -> Config {
    Config {
        participant_id: "P1".to_string(),
        session_number: 1,
        trial_id: 3,
        description: "rest".to_string(),
        range: 8,
        rate: 200,
    }
}

fn deterministic_handler(registry: &mut SessionRegistry) -> Handler {
    Handler::with_session(
        &test_config(),
        "data",
        "123".to_string(),
        "2024-01-02 03:04:05 UTC".to_string(),
        registry,
    )
}

#[test]
fn fresh_session_files_hold_metadata_and_header() {
    let mut registry = SessionRegistry::new();
    let mut handler = deterministic_handler(&mut registry);
    assert_eq!(handler.prefix, "123");
    assert_eq!(handler.captured_at().as_str(), "2024-01-02 03:04:05 UTC");
    let hr = handler.flush_channel(Channel::Hr);
    let acc = handler.flush_channel(Channel::Acc);
    let ecg = handler.flush_channel(Channel::Ecg);
    let meta = "\"P1\",\"1\",\"3\",\"2024-01-02 03:04:05 UTC\",\"rest\"\n";
    assert_eq!(hr, format!("{}time,bpm,rr\n", meta));
    assert_eq!(acc, format!("{}time,x,y,z\n", meta));
    assert_eq!(ecg, format!("{}time,val\n", meta));
    assert_eq!(registry.resolve_path(Channel::Hr).unwrap(), "data/hr_123.csv");
    assert_eq!(registry.resolve_path(Channel::Acc).unwrap(), "data/acc_123.csv");
    assert_eq!(registry.resolve_path(Channel::Ecg).unwrap(), "data/ecg_123.csv");
}

#[test]
fn flush_is_idempotent_and_loses_nothing() {
    let mut registry = SessionRegistry::new();
    let mut handler = deterministic_handler(&mut registry);
    handler.heart_rate_update(&HeartRateSample { bpm: 72, rr: vec![800, 810] });
    let first = handler.flush_channel(Channel::Hr);
    let second = handler.flush_channel(Channel::Hr);
    assert!(first.ends_with("0,72,800,810\n"));
    assert_eq!(second, "");
    handler.heart_rate_update(&HeartRateSample { bpm: 75, rr: vec![] });
    let third = handler.flush_channel(Channel::Hr);
    assert_eq!(third, "1,75\n");
    // everything ever appended, each part exactly once, in order
    let whole = format!("{}{}{}", first, second, third);
    assert_eq!(
        whole,
        "\"P1\",\"1\",\"3\",\"2024-01-02 03:04:05 UTC\",\"rest\"\ntime,bpm,rr\n0,72,800,810\n1,75\n"
    );
}

#[test]
fn take_due_waits_for_the_capacity_threshold() {
    let mut registry = SessionRegistry::new();
    let mut handler = deterministic_handler(&mut registry);
    // drain the prelude so the buffer starts empty
    let prelude = handler.flush_channel(Channel::Hr);
    assert!(prelude.len() < HR_BUF_CAPACITY);
    let mut expected = String::new();
    let mut seq = 0u64;
    while expected.len() < HR_BUF_CAPACITY {
        assert_eq!(handler.take_due(Channel::Hr), None);
        handler.heart_rate_update(&HeartRateSample { bpm: 72, rr: vec![800, 810] });
        expected.push_str(&format!("{},72,800,810\n", seq));
        seq += 1;
    }
    let drained = handler.take_due(Channel::Hr).expect("the full buffer must drain");
    assert_eq!(drained, expected);
    assert_eq!(handler.take_due(Channel::Hr), None);
    // the other channels were never touched
    assert_eq!(handler.take_due(Channel::Acc), None);
    assert_eq!(handler.take_due(Channel::Ecg), None);
}

#[test]
fn channels_buffer_independently() {
    let mut registry = SessionRegistry::new();
    let mut handler = deterministic_handler(&mut registry);
    handler.flush_channel(Channel::Acc);
    handler.flush_channel(Channel::Ecg);
    let batch = MeasurementBatch {
        time_stamp: 1000,
        points: vec![
            SamplePoint::Acc { x: 1, y: 2, z: 3 },
            SamplePoint::Ecg { val: 42 },
            SamplePoint::Acc { x: 4, y: 5, z: 6 },
        ],
    };
    handler.measurement_update(&batch);
    assert_eq!(handler.flush_channel(Channel::Acc), "1000,1,2,3\n1000,4,5,6\n");
    assert_eq!(handler.flush_channel(Channel::Ecg), "1000,42\n");
    // heart rate saw nothing
    assert_eq!(handler.hr_count(), 0);
}

#[test]
fn sink_buffer_capacities_differ_per_channel() {
    assert!(HR_BUF_CAPACITY < DEFAULT_BUF_CAPACITY);
    let config = test_config();
    let mut sink = Sink::open(Channel::Ecg, "data/ecg_1.csv".to_string(), &config, "t");
    assert_eq!(sink.output_path(), "data/ecg_1.csv");
    // far past the heart-rate capacity, still below the ECG capacity
    let mut written = sink.flush().len();
    while written < 4 * HR_BUF_CAPACITY {
        sink.append_ecg(1, 2);
        written += "1,2\n".len();
    }
    assert_eq!(sink.take_due(), None);
}
