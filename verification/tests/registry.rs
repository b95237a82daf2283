use traccia::Config;
use traccia::DefaultLogger;
use traccia::Error;
use traccia::HookSystem;
use traccia::LogLevel;
use traccia::Record;
use traccia::Registry;

fn record(level: LogLevel, message: &str) -> Record {
    Record {
        level,
        thread_id: 1,
        target: "app".to_string(),
        message: message.to_string(),
        module: None,
        file: None,
        line: None,
        context: vec![],
    }
}

#[test]
fn init_succeeds_once_and_only_once() {
    let mut registry = Registry::new();
    assert!(registry
        .set_logger(DefaultLogger::new(Config::default()))
        .is_ok());
    let second = registry.set_logger(DefaultLogger::new(Config::default_with_level(
        LogLevel::Trace,
    )));
    assert_eq!(second, Err(Error::AlreadyInitialized));
    // The first logger is still in place.
    assert_eq!(registry.enabled(LogLevel::Info), Ok(true));
    assert_eq!(registry.enabled(LogLevel::Debug), Ok(false));
}

#[test]
fn use_before_init_fails_with_its_own_error() {
    let mut registry = Registry::new();
    assert!(matches!(registry.logger(), Err(Error::NotInitialized)));
    assert_eq!(registry.enabled(LogLevel::Info), Err(Error::NotInitialized));
    assert_eq!(
        registry.log(&record(LogLevel::Info, "too early")),
        Err(Error::NotInitialized)
    );
}

#[test]
fn double_init_and_early_use_fail_distinctly() {
    let mut registry = Registry::new();
    let early = registry
        .log(&record(LogLevel::Info, "early"))
        .expect_err("nothing is set yet");
    registry
        .set_logger(DefaultLogger::new(Config::default()))
        .expect("first initialization succeeds");
    let doubled = registry
        .set_logger(DefaultLogger::new(Config::default()))
        .expect_err("a second initialization must fail");
    assert_eq!(early, Error::NotInitialized);
    assert_eq!(doubled, Error::AlreadyInitialized);
    assert_ne!(early, doubled);
}

#[test]
fn registry_routes_log_and_abort_to_the_logger() {
    let mut registry = Registry::new();
    registry
        .set_logger(DefaultLogger::new(Config::default()))
        .expect("first initialization succeeds");
    registry
        .log(&record(LogLevel::Warn, "watch out"))
        .expect("the logger is set");
    let hooks = HookSystem::new();
    let actions = registry.abort(&hooks).expect("the logger is set");
    assert_eq!(
        actions
            .iter()
            .filter(|a| matches!(a, traccia::Action::Write(_)))
            .count(),
        1
    );
    let again = registry.abort(&hooks).expect("a second shutdown is harmless");
    assert!(again.is_empty());
}

#[test]
fn error_messages_name_each_failure() {
    assert_eq!(
        Error::NotInitialized.message(),
        "A logger has not been initialized"
    );
    assert_eq!(
        Error::AlreadyInitialized.message(),
        "A logger has already been initialized"
    );
    assert_eq!(Error::Poisoned.message(), "Mutex is poisoned");
    assert_eq!(
        Error::ParseLogLevel.message(),
        "Could not parse log level from string"
    );
    assert_eq!(
        Error::Io("file gone".to_string()).message(),
        "IO error: file gone"
    );
}
