use gelf::{Level, RecordLevel};

#[test]
fn debug_is_seven_and_emergency_is_zero() {
    assert_eq!(Level::Debug.code(), 7);
    assert_eq!(Level::Emergency.code(), 0);
}

#[test]
fn codes_follow_syslog() {
    assert_eq!(Level::Emergency.code(), 0);
    assert_eq!(Level::Alert.code(), 1);
    assert_eq!(Level::Critical.code(), 2);
    assert_eq!(Level::Error.code(), 3);
    assert_eq!(Level::Warning.code(), 4);
    assert_eq!(Level::Notice.code(), 5);
    assert_eq!(Level::Informational.code(), 6);
    assert_eq!(Level::Debug.code(), 7);
}

#[test]
fn record_levels_map_to_gelf_levels() {
    assert_eq!(Level::from_record_level(RecordLevel::Error), Level::Error);
    assert_eq!(Level::from_record_level(RecordLevel::Warn), Level::Warning);
    assert_eq!(Level::from_record_level(RecordLevel::Info), Level::Informational);
    assert_eq!(Level::from_record_level(RecordLevel::Debug), Level::Debug);
    assert_eq!(Level::from_record_level(RecordLevel::Trace), Level::Debug);
}

#[test]
fn levels_are_ordered_by_severity() {
    let all = [
        Level::Emergency,
        Level::Alert,
        Level::Critical,
        Level::Error,
        Level::Warning,
        Level::Notice,
        Level::Informational,
        Level::Debug,
    ];
    for pair in all.windows(2) {
        assert!(pair[0] < pair[1]);
        assert!(pair[0].code() < pair[1].code());
    }
}
