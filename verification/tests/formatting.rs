use polar_tracker::channel::Channel;
use polar_tracker::config::Config;
use polar_tracker::records::{acc_line_string, ecg_line_string, hr_line_string, metadata_line_string};
use polar_tracker::text::{i64_string, u64_string};

fn test_config() -> Config {
    Config {
        participant_id: "P1".to_string(),
        session_number: 1,
        trial_id: 3,
        description: "rest".to_string(),
        range: 8,
        rate: 200,
    }
}

#[test]
fn decimal_of_zero() {
    assert_eq!(u64_string(0), "0");
}

#[test]
fn decimal_of_largest_u64() {
    assert_eq!(u64_string(u64::MAX), "18446744073709551615");
}

#[test]
fn decimal_of_plain_number() {
    assert_eq!(u64_string(1234567890), "1234567890");
}

#[test]
fn signed_decimal_negative() {
    assert_eq!(i64_string(-5), "-5");
}

#[test]
fn signed_decimal_smallest_i64() {
    assert_eq!(i64_string(i64::MIN), "-9223372036854775808");
}

#[test]
fn signed_decimal_zero_and_positive() {
    assert_eq!(i64_string(0), "0");
    assert_eq!(i64_string(42), "42");
}

#[test]
fn heart_rate_line_with_intervals() {
    let rr = vec![800u16, 810u16];
    assert_eq!(hr_line_string(0, 72, &rr), "0,72,800,810\n");
}

#[test]
fn heart_rate_line_without_intervals() {
    let rr: Vec<u16> = vec![];
    assert_eq!(hr_line_string(1, 75, &rr), "1,75\n");
}

#[test]
fn accelerometer_line() {
    assert_eq!(acc_line_string(1000, 1, 2, 3), "1000,1,2,3\n");
}

#[test]
fn accelerometer_line_negative_axes() {
    assert_eq!(acc_line_string(17, -4, 0, -2147483648), "17,-4,0,-2147483648\n");
}

#[test]
fn ecg_line() {
    assert_eq!(ecg_line_string(1000, 42), "1000,42\n");
}

#[test]
fn ecg_line_negative_value() {
    assert_eq!(ecg_line_string(5, -130), "5,-130\n");
}

#[test]
fn metadata_line_quotes_every_field() {
    let config = test_config();
    let line = metadata_line_string(&config, "2024-01-02 03:04:05 UTC");
    assert_eq!(line, "\"P1\",\"1\",\"3\",\"2024-01-02 03:04:05 UTC\",\"rest\"\n");
}

#[test]
fn metadata_line_keeps_embedded_commas_inside_quotes() {
    let mut config = test_config();
    config.description = "rest, eyes closed".to_string();
    let line = metadata_line_string(&config, "t");
    assert_eq!(line, "\"P1\",\"1\",\"3\",\"t\",\"rest, eyes closed\"\n");
}

#[test]
fn metadata_line_with_empty_text_fields() {
    let config = Config {
        participant_id: String::new(),
        session_number: 0,
        trial_id: 0,
        description: String::new(),
        range: 0,
        rate: 0,
    };
    assert_eq!(metadata_line_string(&config, "t"), "\"\",\"0\",\"0\",\"t\",\"\"\n");
}

#[test]
fn heart_rate_line_with_largest_values() {
    let rr = vec![u16::MAX];
    assert_eq!(hr_line_string(u64::MAX, u8::MAX, &rr), "18446744073709551615,255,65535\n");
}

#[test]
fn channel_file_names() {
    assert_eq!(Channel::Hr.file_name("99"), "hr_99.csv");
    assert_eq!(Channel::Acc.file_name("99"), "acc_99.csv");
    assert_eq!(Channel::Ecg.file_name("99"), "ecg_99.csv");
}

#[test]
fn channel_headers() {
    assert_eq!(Channel::Hr.header_str(), "time,bpm,rr\n");
    assert_eq!(Channel::Acc.header_str(), "time,x,y,z\n");
    assert_eq!(Channel::Ecg.header_str(), "time,val\n");
}

#[test]
fn export_file_name_carries_config_and_prefix() {
    let config = test_config();
    assert_eq!(Channel::Hr.export_file_name(&config, "99"), "P1_1_3_hr_99.csv");
    assert_eq!(Channel::Ecg.export_file_name(&config, "7"), "P1_1_3_ecg_7.csv");
}
