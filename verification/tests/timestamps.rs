use gelf::Timestamp;

fn text(millis: u64) -> String {
    let mut out = String::new();
    Timestamp::from_millis(millis).push_text(&mut out);
    out
}

#[test]
fn timestamp_is_split_into_seconds_and_milliseconds() {
    let t = Timestamp::from_millis(1_500_000_000_123);
    assert_eq!(t.as_millis(), 1_500_000_000_123);
    assert_eq!(t.seconds(), 1_500_000_000);
    assert_eq!(t.subsec_millis(), 123);
}

#[test]
fn timestamp_text_has_three_fraction_digits() {
    assert_eq!(text(0), "0.000");
    assert_eq!(text(1), "0.001");
    assert_eq!(text(20), "0.020");
    assert_eq!(text(999), "0.999");
    assert_eq!(text(1000), "1.000");
    assert_eq!(text(1_500_000_000_123), "1500000000.123");
    assert_eq!(text(12_345_607), "12345.607");
    assert_eq!(text(u64::MAX), "18446744073709551.615");
}

#[test]
fn timestamp_text_reads_as_a_json_number() {
    let parsed: f64 = serde_json::from_str(&text(1_500_000_000_123)).unwrap();
    assert!((parsed - 1_500_000_000.123).abs() < 0.0005);
}

#[test]
fn clock_readings_become_timestamps() {
    assert_eq!(Timestamp::from_reading(None).as_millis(), 0);
    assert_eq!(Timestamp::from_reading(Some(0)).as_millis(), 0);
    assert_eq!(Timestamp::from_reading(Some(1234)).as_millis(), 1234);
    assert_eq!(Timestamp::from_reading(Some(u64::MAX as u128)).as_millis(), u64::MAX);
    assert_eq!(Timestamp::from_reading(Some(u64::MAX as u128 + 1)).as_millis(), u64::MAX);
    assert_eq!(Timestamp::from_reading(Some(u128::MAX)).as_millis(), u64::MAX);
}

#[test]
fn now_agrees_with_the_system_clock() {
    let before = std::time::SystemTime::now()
        .duration_since(std::time::UNIX_EPOCH)
        .unwrap()
        .as_millis() as u64;
    let now = Timestamp::now().as_millis();
    let after = std::time::SystemTime::now()
        .duration_since(std::time::UNIX_EPOCH)
        .unwrap()
        .as_millis() as u64;
    assert!(before <= now && now <= after);
    assert!(now > 1_500_000_000_000);
}

#[test]
fn timestamps_compare_by_their_milliseconds() {
    assert_eq!(Timestamp::from_millis(5), Timestamp::from_millis(5));
    assert_ne!(Timestamp::from_millis(5), Timestamp::from_millis(6));
}
