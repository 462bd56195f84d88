use chatgbt_buddy::logging::{logging_level, LogLevel};

#[test]
fn logging_level_of_each_verbosity() {
    assert_eq!(logging_level(0, None), LogLevel::Off);
    assert_eq!(logging_level(1, None), LogLevel::Info);
    assert_eq!(logging_level(2, None), LogLevel::Warn);
    assert_eq!(logging_level(3, None), LogLevel::Error);
    assert_eq!(logging_level(4, None), LogLevel::Debug);
    assert_eq!(logging_level(5, None), LogLevel::Trace);
}

#[test]
fn logging_level_above_five_lets_everything_through() {
    assert_eq!(logging_level(6, None), LogLevel::Trace);
    assert_eq!(logging_level(255, None), LogLevel::Trace);
}

#[test]
fn logging_level_environment_wins() {
    assert_eq!(logging_level(5, Some(0)), LogLevel::Off);
    assert_eq!(logging_level(0, Some(4)), LogLevel::Debug);
    assert_eq!(logging_level(2, Some(2)), LogLevel::Warn);
}
