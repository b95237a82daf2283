use traccia::Action;
use traccia::Config;
use traccia::Console;
use traccia::DefaultFormatter;
use traccia::DefaultLogger;
use traccia::File;
use traccia::FileMode;
use traccia::Hook;
use traccia::HookSystem;
use traccia::LogLevel;
use traccia::Output;
use traccia::Record;
use traccia::Target;
use traccia::TargetId;
use traccia::WriteOp;

fn record(level: LogLevel, message: &str) -> Record {
    Record {
        level,
        thread_id: 7,
        target: "app".to_string(),
        message: message.to_string(),
        module: Some("app"),
        file: Some("app.rs"),
        line: Some(1),
        context: vec![],
    }
}

fn writes(actions: &[Action]) -> Vec<&WriteOp> {
    actions
        .iter()
        .filter_map(|a| match a {
            Action::Write(w) => Some(w),
            _ => None,
        })
        .collect()
}

#[test]
fn message_below_global_level_writes_nothing() {
    let config = Config {
        level: LogLevel::Warn,
        targets: vec![Target::Console(Console::new())],
        format: Some(DefaultFormatter::new()),
    };
    let hooks = HookSystem::new();
    let mut logger = DefaultLogger::new(config);
    assert!(!logger.enabled(LogLevel::Info));
    logger.log(&record(LogLevel::Info, "quiet"));
    let actions = logger.abort(&hooks);
    assert!(actions.is_empty());
}

#[test]
fn messages_reach_the_target_in_submission_order() {
    let config = Config {
        level: LogLevel::Info,
        targets: vec![Target::Console(Console::new())],
        format: Some(DefaultFormatter::new()),
    };
    let hooks = HookSystem::new();
    let mut logger = DefaultLogger::new(config);
    logger.log(&record(LogLevel::Info, "a"));
    logger.log(&record(LogLevel::Info, "b"));
    let actions = logger.abort(&hooks);
    let ws = writes(&actions);
    assert_eq!(ws.len(), 2);
    assert_eq!(ws[0].text, "[\x1b[32mINFO\x1b[0m] a");
    assert_eq!(ws[1].text, "[\x1b[32mINFO\x1b[0m] b");
}

#[test]
fn file_writes_carry_no_ansi_codes() {
    let config = Config {
        level: LogLevel::Trace,
        targets: vec![Target::File(File::new(
            "app.log".to_string(),
            FileMode::Append,
        ))],
        format: Some(DefaultFormatter::new()),
    };
    let hooks = HookSystem::new();
    let mut logger = DefaultLogger::new(config);
    logger.log(&record(LogLevel::Error, "disk full"));
    let actions = logger.abort(&hooks);
    let ws = writes(&actions);
    assert_eq!(ws.len(), 1);
    assert_eq!(ws[0].target, TargetId::File("app.log".to_string()));
    assert!(!ws[0].text.contains('\x1b'));
    assert_eq!(ws[0].text, "[ERROR] disk full");
}

#[test]
fn target_filter_drops_for_that_target_only() {
    let config = Config {
        level: LogLevel::Trace,
        targets: vec![
            Target::Console(Console::new()),
            Target::File(
                File::new("app.log".to_string(), FileMode::Append).filtered(LogLevel::Fatal),
            ),
        ],
        format: Some(DefaultFormatter::new()),
    };
    let hooks = HookSystem::new();
    let mut logger = DefaultLogger::new(config);
    logger.log(&record(LogLevel::Info, "routine"));
    let actions = logger.abort(&hooks);
    let ws = writes(&actions);
    assert_eq!(ws.len(), 1);
    assert_eq!(ws[0].target, TargetId::Console(Output::Stdout));
    assert!(ws
        .iter()
        .all(|w| !matches!(w.target, TargetId::File(_))));
}

#[test]
fn hooks_bracket_each_passing_write_in_order() {
    let mut hooks = HookSystem::new();
    hooks.add_hook(Hook::BeforeLog(1));
    hooks.add_hook(Hook::BeforeLog(2));
    hooks.add_hook(Hook::AfterLog(3));
    let config = Config {
        level: LogLevel::Trace,
        targets: vec![
            Target::Console(Console::new()),
            Target::File(
                File::new("app.log".to_string(), FileMode::Append).filtered(LogLevel::Fatal),
            ),
        ],
        format: Some(DefaultFormatter::new()),
    };
    let mut logger = DefaultLogger::new(config);
    logger.log(&record(LogLevel::Info, "observed"));
    let actions = logger.abort(&hooks);

    // The filtered file target contributes nothing, so the whole run is
    // the console target's block: before-hooks in registration order,
    // the write, then the after-hooks.
    assert_eq!(actions.len(), 4);
    match &actions[0] {
        Action::Before(c) => {
            assert_eq!(c.hook, 1);
            assert_eq!(c.level, LogLevel::Info);
            assert_eq!(c.target, TargetId::Console(Output::Stdout));
        }
        _ => panic!("expected a before-hook first"),
    }
    match &actions[1] {
        Action::Before(c) => assert_eq!(c.hook, 2),
        _ => panic!("expected the second before-hook"),
    }
    match &actions[2] {
        Action::Write(w) => assert_eq!(w.target, TargetId::Console(Output::Stdout)),
        _ => panic!("expected the write between the hooks"),
    }
    match &actions[3] {
        Action::After(c) => {
            assert_eq!(c.hook, 3);
            assert_eq!(c.target, TargetId::Console(Output::Stdout));
        }
        _ => panic!("expected the after-hook last"),
    }
}

#[test]
fn shutdown_drains_all_buffered_messages() {
    let config = Config {
        level: LogLevel::Info,
        targets: vec![Target::Console(Console::new())],
        format: Some(DefaultFormatter::new()),
    };
    let hooks = HookSystem::new();
    let mut logger = DefaultLogger::new(config);
    logger.log(&record(LogLevel::Info, "one"));
    logger.log(&record(LogLevel::Info, "two"));
    logger.log(&record(LogLevel::Info, "three"));
    let actions = logger.abort(&hooks);
    let ws = writes(&actions);
    assert_eq!(ws.len(), 3);
    assert_eq!(ws[0].text, "[\x1b[32mINFO\x1b[0m] one");
    assert_eq!(ws[1].text, "[\x1b[32mINFO\x1b[0m] two");
    assert_eq!(ws[2].text, "[\x1b[32mINFO\x1b[0m] three");

    // A second shutdown finds nothing left to do and does not panic.
    let again = logger.abort(&hooks);
    assert!(again.is_empty());
}

#[test]
fn worker_consumes_messages_one_by_one() {
    let config = Config {
        level: LogLevel::Info,
        targets: vec![Target::Console(Console::new())],
        format: Some(DefaultFormatter::new()),
    };
    let hooks = HookSystem::new();
    let mut logger = DefaultLogger::new(config);
    logger.log(&record(LogLevel::Info, "first"));
    logger.log(&record(LogLevel::Warn, "second"));

    let first = logger.process_next(&hooks).expect("a message was queued");
    let ws = writes(&first);
    assert_eq!(ws.len(), 1);
    assert_eq!(ws[0].text, "[\x1b[32mINFO\x1b[0m] first");

    let second = logger.process_next(&hooks).expect("a message was queued");
    let ws = writes(&second);
    assert_eq!(ws.len(), 1);
    assert_eq!(ws[0].text, "[\x1b[33mWARN\x1b[0m] second");

    assert!(logger.process_next(&hooks).is_none());
}

#[test]
fn preformatted_text_is_queued_verbatim() {
    let config = Config {
        level: LogLevel::Info,
        targets: vec![Target::Console(Console::new())],
        format: Some(DefaultFormatter::new()),
    };
    let hooks = HookSystem::new();
    let mut logger = DefaultLogger::new(config);
    logger.log_formatted("custom <INFO> shaped".to_string(), LogLevel::Info);
    logger.log_formatted("too low".to_string(), LogLevel::Debug);
    let actions = logger.abort(&hooks);
    let ws = writes(&actions);
    assert_eq!(ws.len(), 1);
    assert_eq!(ws[0].text, "custom <INFO> shaped");
}

#[test]
fn console_routes_levels_to_their_streams() {
    let console = Console::new()
        .output(Output::Stderr)
        .filtered_output(LogLevel::Info, Output::Stdout);
    assert_eq!(console.route(LogLevel::Info), Output::Stdout);
    assert_eq!(console.route(LogLevel::Error), Output::Stderr);

    let config = Config {
        level: LogLevel::Trace,
        targets: vec![Target::Console(console)],
        format: Some(DefaultFormatter::new()),
    };
    let hooks = HookSystem::new();
    let mut logger = DefaultLogger::new(config);
    logger.log(&record(LogLevel::Info, "to stdout"));
    logger.log(&record(LogLevel::Error, "to stderr"));
    let actions = logger.abort(&hooks);
    let ws = writes(&actions);
    assert_eq!(ws.len(), 2);
    assert_eq!(ws[0].stream, Some(Output::Stdout));
    assert_eq!(ws[1].stream, Some(Output::Stderr));
}

#[test]
fn default_config_logs_info_to_one_console() {
    let config = Config::default();
    assert_eq!(config.level, LogLevel::Info);
    assert_eq!(config.targets.len(), 1);
    let config = Config::default_with_level(LogLevel::Debug);
    assert_eq!(config.level, LogLevel::Debug);
    assert!(matches!(config.targets[0], Target::Console(_)));
}

#[test]
fn formatter_default_falls_back_when_absent() {
    let config = Config {
        level: LogLevel::Info,
        targets: vec![Target::Console(Console::new())],
        format: None,
    };
    let hooks = HookSystem::new();
    let mut logger = DefaultLogger::new(config);
    logger.log(&record(LogLevel::Info, "plain"));
    let actions = logger.abort(&hooks);
    let ws = writes(&actions);
    assert_eq!(ws.len(), 1);
    assert_eq!(ws[0].text, "[\x1b[32mINFO\x1b[0m] plain");
}
