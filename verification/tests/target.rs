use traccia::Action;
use traccia::Config;
use traccia::Console;
use traccia::CustomTarget;
use traccia::DefaultFormatter;
use traccia::DefaultLogger;
use traccia::File;
use traccia::FileMode;
use traccia::HookSystem;
use traccia::LogLevel;
use traccia::Output;
use traccia::Record;
use traccia::SpanPosition;
use traccia::Target;
use traccia::TargetId;

#[test]
fn target_identities_encode_their_destination() {
    let console = Target::Console(Console::new());
    assert_eq!(console.id(), TargetId::Console(Output::Stdout));
    let console = Target::Console(Console::new().output(Output::Stderr));
    assert_eq!(console.id(), TargetId::Console(Output::Stderr));

    let file = Target::File(File::new("logs/app.log".to_string(), FileMode::Truncate));
    assert_eq!(file.id(), TargetId::File("logs/app.log".to_string()));

    let custom = Target::Custom(CustomTarget::new("gui".to_string()));
    assert_eq!(custom.id(), TargetId::Custom("gui".to_string()));
}

#[test]
fn target_floors_filter_levels() {
    let open = Target::Console(Console::new());
    assert_eq!(open.filter_level(), None);
    assert!(open.passes(LogLevel::Trace));

    let floored = Target::Console(Console::new().filtered(LogLevel::Warn));
    assert_eq!(floored.filter_level(), Some(LogLevel::Warn));
    assert!(!floored.passes(LogLevel::Info));
    assert!(floored.passes(LogLevel::Warn));
    assert!(floored.passes(LogLevel::Fatal));

    let file = Target::File(
        File::new("a.log".to_string(), FileMode::Append).filtered(LogLevel::Error),
    );
    assert_eq!(file.filter_level(), Some(LogLevel::Error));

    let custom = Target::Custom(
        CustomTarget::new("sink".to_string()).filtered(LogLevel::Debug),
    );
    assert_eq!(custom.filter_level(), Some(LogLevel::Debug));
}

#[test]
fn file_targets_remember_path_and_mode() {
    let file = File::new("logs/run.log".to_string(), FileMode::Truncate);
    assert_eq!(file.path(), "logs/run.log");
    assert_eq!(file.mode(), FileMode::Truncate);
}

#[test]
fn defaults_are_stdout_append_and_span_at_end() {
    assert_eq!(Output::default(), Output::Stdout);
    assert_eq!(FileMode::default(), FileMode::Append);
    assert_eq!(SpanPosition::default(), SpanPosition::End);
}

#[test]
fn custom_sinks_receive_the_unmodified_text() {
    let config = Config {
        level: LogLevel::Trace,
        targets: vec![Target::Custom(CustomTarget::new("gui".to_string()))],
        format: Some(DefaultFormatter::new()),
    };
    let hooks = HookSystem::new();
    let mut logger = DefaultLogger::new(config);
    logger.log(&Record {
        level: LogLevel::Warn,
        thread_id: 1,
        target: "app".to_string(),
        message: "heads up".to_string(),
        module: None,
        file: None,
        line: None,
        context: vec![],
    });
    let actions = logger.abort(&hooks);
    assert_eq!(actions.len(), 1);
    match &actions[0] {
        Action::Write(w) => {
            assert_eq!(w.target, TargetId::Custom("gui".to_string()));
            assert_eq!(w.stream, None);
            // The colored text reaches a custom sink untouched.
            assert_eq!(w.text, "[\x1b[33mWARN\x1b[0m] heads up");
        }
        _ => panic!("expected one write"),
    }
}

#[test]
fn file_line_matches_the_plain_rendering_with_context() {
    let config = Config {
        level: LogLevel::Trace,
        targets: vec![Target::File(File::new("app.log".to_string(), FileMode::Append))],
        format: Some(DefaultFormatter::new()),
    };
    let hooks = HookSystem::new();
    let mut logger = DefaultLogger::new(config);
    logger.log(&Record {
        level: LogLevel::Info,
        thread_id: 1,
        target: "app".to_string(),
        message: "hello".to_string(),
        module: None,
        file: None,
        line: None,
        context: vec![("req".to_string(), "id=1".to_string())],
    });
    let actions = logger.abort(&hooks);
    assert_eq!(actions.len(), 1);
    match &actions[0] {
        Action::Write(w) => assert_eq!(w.text, "[INFO] hello [req: id=1]"),
        _ => panic!("expected one write"),
    }
}
