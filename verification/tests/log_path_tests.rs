use tracing_setup::Timestamp;
use tracing_setup::create_log_filename;
use tracing_setup::decimal_padded;
use tracing_setup::log_filename_at;

#[test]
fn decimal_padded_pads_single_digit() {
    assert_eq!(decimal_padded(7, 2).as_str(), "07");
}

#[test]
fn decimal_padded_zero() {
    assert_eq!(decimal_padded(0, 2).as_str(), "00");
    assert_eq!(decimal_padded(0, 4).as_str(), "0000");
    assert_eq!(decimal_padded(0, 0).as_str(), "0");
}

#[test]
fn decimal_padded_wide_value_keeps_all_digits() {
    assert_eq!(decimal_padded(12345, 2).as_str(), "12345");
    assert_eq!(decimal_padded(12345, 4).as_str(), "12345");
}

#[test]
fn decimal_padded_year_width() {
    assert_eq!(decimal_padded(3, 4).as_str(), "0003");
    assert_eq!(decimal_padded(2025, 4).as_str(), "2025");
}

#[test]
fn log_filename_mocked_time() {
    let ts = Timestamp { year: 2025, month: 4, day: 8, hour: 17, minute: 32, second: 9 };
    let path = log_filename_at("./logs", &ts);
    assert_eq!(path.as_str(), "./logs/log_04-08-2025_17-32-09.txt");
}

#[test]
fn log_filename_is_deterministic() {
    let ts = Timestamp { year: 2025, month: 4, day: 8, hour: 17, minute: 32, second: 9 };
    assert_eq!(log_filename_at("./logs", &ts), log_filename_at("./logs", &ts));
}

#[test]
fn log_filename_midnight_new_year() {
    let ts = Timestamp { year: 2024, month: 1, day: 1, hour: 0, minute: 0, second: 0 };
    let path = log_filename_at("/var/log/app", &ts);
    assert_eq!(path.as_str(), "/var/log/app/log_01-01-2024_00-00-00.txt");
}

#[test]
fn decimal_padded_largest_value() {
    assert_eq!(decimal_padded(u32::MAX, 4).as_str(), "4294967295");
}

#[test]
fn log_filename_year_before_common_era() {
    let ts = Timestamp { year: -44, month: 3, day: 15, hour: 12, minute: 0, second: 0 };
    let path = log_filename_at("./logs", &ts);
    assert_eq!(path.as_str(), "./logs/log_03-15--0044_12-00-00.txt");
}

#[test]
fn log_filename_year_past_four_digits() {
    let ts = Timestamp { year: 12345, month: 1, day: 1, hour: 0, minute: 0, second: 0 };
    let path = log_filename_at("./logs", &ts);
    assert_eq!(path.as_str(), "./logs/log_01-01-+12345_00-00-00.txt");
}

#[test]
fn log_filename_collides_only_on_same_second() {
    let ts = Timestamp { year: 2025, month: 4, day: 8, hour: 17, minute: 32, second: 9 };
    let next = Timestamp { second: 10, ..ts };
    assert_ne!(log_filename_at("./logs", &ts), log_filename_at("./logs", &next));
    let same = Timestamp { ..ts };
    assert_eq!(log_filename_at("./logs", &ts), log_filename_at("./logs", &same));
}

#[test]
fn create_log_filename_shape() {
    let path = create_log_filename("./logs");
    assert!(path.starts_with("./logs/log_"));
    assert!(path.ends_with(".txt"));
    // dir (6) + "/log_" (5) + "MM-DD-YYYY_HH-MM-SS" (19) + ".txt" (4)
    assert_eq!(path.len(), 34);
}
