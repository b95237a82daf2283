use traccia::Error;
use traccia::LogLevel;

#[test]
fn parse_level_names_lowercase() {
    assert_eq!(LogLevel::from_str("trace"), Ok(LogLevel::Trace));
    assert_eq!(LogLevel::from_str("debug"), Ok(LogLevel::Debug));
    assert_eq!(LogLevel::from_str("info"), Ok(LogLevel::Info));
    assert_eq!(LogLevel::from_str("warn"), Ok(LogLevel::Warn));
    assert_eq!(LogLevel::from_str("error"), Ok(LogLevel::Error));
    assert_eq!(LogLevel::from_str("fatal"), Ok(LogLevel::Fatal));
}

#[test]
fn parse_level_ignores_case() {
    assert_eq!(LogLevel::from_str("TRACE"), Ok(LogLevel::Trace));
    assert_eq!(LogLevel::from_str("Debug"), Ok(LogLevel::Debug));
    assert_eq!(LogLevel::from_str("iNfO"), Ok(LogLevel::Info));
    assert_eq!(LogLevel::from_str("WARN"), Ok(LogLevel::Warn));
    assert_eq!(LogLevel::from_str("Error"), Ok(LogLevel::Error));
    assert_eq!(LogLevel::from_str("FATAL"), Ok(LogLevel::Fatal));
}

#[test]
fn parse_level_rejects_unknown_names() {
    assert_eq!(LogLevel::from_str("verbose"), Err(Error::ParseLogLevel));
    assert_eq!(LogLevel::from_str(""), Err(Error::ParseLogLevel));
    assert_eq!(LogLevel::from_str("warning!"), Err(Error::ParseLogLevel));
    assert_eq!(LogLevel::from_str("infos"), Err(Error::ParseLogLevel));
}

#[test]
fn level_to_u8_is_ascending() {
    assert_eq!(LogLevel::Trace.to_u8(), 0);
    assert_eq!(LogLevel::Debug.to_u8(), 1);
    assert_eq!(LogLevel::Info.to_u8(), 2);
    assert_eq!(LogLevel::Warn.to_u8(), 3);
    assert_eq!(LogLevel::Error.to_u8(), 4);
    assert_eq!(LogLevel::Fatal.to_u8(), 5);
}

#[test]
fn level_from_u8_round_trips() {
    let levels = vec![
        LogLevel::Trace,
        LogLevel::Debug,
        LogLevel::Info,
        LogLevel::Warn,
        LogLevel::Error,
        LogLevel::Fatal,
    ];
    for level in levels {
        assert_eq!(LogLevel::from_u8(level.to_u8()), Ok(level));
    }
    assert_eq!(LogLevel::from_u8(6), Err(Error::ParseLogLevel));
    assert_eq!(LogLevel::from_u8(255), Err(Error::ParseLogLevel));
}

#[test]
fn level_ordering_is_ascending() {
    assert!(LogLevel::Trace.le(LogLevel::Debug));
    assert!(LogLevel::Debug.le(LogLevel::Info));
    assert!(LogLevel::Info.le(LogLevel::Warn));
    assert!(LogLevel::Warn.le(LogLevel::Error));
    assert!(LogLevel::Error.le(LogLevel::Fatal));
    assert!(LogLevel::Info.le(LogLevel::Info));
    assert!(!LogLevel::Fatal.le(LogLevel::Trace));
    assert!(LogLevel::Trace < LogLevel::Fatal);
}

#[test]
fn level_names_are_upper_case() {
    assert_eq!(LogLevel::Trace.as_str(), "TRACE");
    assert_eq!(LogLevel::Debug.as_str(), "DEBUG");
    assert_eq!(LogLevel::Info.as_str(), "INFO");
    assert_eq!(LogLevel::Warn.as_str(), "WARN");
    assert_eq!(LogLevel::Error.as_str(), "ERROR");
    assert_eq!(LogLevel::Fatal.as_str(), "FATAL");
}

#[test]
fn level_default_coloring_wraps_name() {
    assert_eq!(LogLevel::Trace.default_coloring(), "\x1b[36mTRACE\x1b[0m");
    assert_eq!(LogLevel::Debug.default_coloring(), "\x1b[34mDEBUG\x1b[0m");
    assert_eq!(LogLevel::Info.default_coloring(), "\x1b[32mINFO\x1b[0m");
    assert_eq!(LogLevel::Warn.default_coloring(), "\x1b[33mWARN\x1b[0m");
    assert_eq!(LogLevel::Error.default_coloring(), "\x1b[31mERROR\x1b[0m");
    assert_eq!(LogLevel::Fatal.default_coloring(), "\x1b[91mFATAL\x1b[0m");
}

#[test]
fn level_parses_through_the_standard_trait() {
    assert_eq!("info".parse::<LogLevel>(), Ok(LogLevel::Info));
    assert_eq!("Fatal".parse::<LogLevel>(), Ok(LogLevel::Fatal));
    assert_eq!("nope".parse::<LogLevel>(), Err(Error::ParseLogLevel));
}

#[test]
fn level_default_is_info() {
    assert_eq!(LogLevel::default(), LogLevel::Info);
}
