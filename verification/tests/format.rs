use traccia::DefaultFormatter;
use traccia::Formatter;
use traccia::FormatterBuilder;
use traccia::LogLevel;
use traccia::Record;
use traccia::SpanPosition;
use traccia::format_span_context;
use traccia::format_span_context_with;
use traccia::format_with_span_position;
use traccia::strip_ansi_codes;

fn record_with_context(message: &str, context: Vec<(String, String)>) -> Record {
    Record {
        level: LogLevel::Info,
        thread_id: 1,
        target: "app".to_string(),
        message: message.to_string(),
        module: Some("app::main"),
        file: Some("main.rs"),
        line: Some(10),
        context,
    }
}

#[test]
fn span_context_of_nothing_is_empty() {
    let context: Vec<(String, String)> = vec![];
    assert_eq!(format_span_context(&context), "");
}

#[test]
fn span_context_renders_bracketed_entries() {
    let context = vec![("request".to_string(), "id=123".to_string())];
    assert_eq!(format_span_context(&context), "[request: id=123]");

    let context = vec![
        ("request".to_string(), "id=123".to_string()),
        ("user".to_string(), "name=john".to_string()),
    ];
    assert_eq!(
        format_span_context(&context),
        "[request: id=123] [user: name=john]"
    );
}

#[test]
fn span_context_with_custom_formatter() {
    let context = vec![("request".to_string(), "id=123".to_string())];
    let rendered = format_span_context_with(&context, |name: &str, fields: &str| {
        format!("{}({})", name, fields)
    });
    assert_eq!(rendered, "request(id=123)");

    let context = vec![
        ("a".to_string(), "x=1".to_string()),
        ("b".to_string(), "y=2".to_string()),
    ];
    let rendered =
        format_span_context_with(&context, |name: &str, _fields: &str| name.to_string());
    assert_eq!(rendered, "a b");

    let empty: Vec<(String, String)> = vec![];
    assert_eq!(
        format_span_context_with(&empty, |name: &str, _fields: &str| name.to_string()),
        ""
    );
}

#[test]
fn format_without_context_is_level_and_message() {
    let record = record_with_context("hello", vec![]);
    let expected = "[\x1b[32mINFO\x1b[0m] hello";
    assert_eq!(format_with_span_position(&record, SpanPosition::End), expected);
    assert_eq!(format_with_span_position(&record, SpanPosition::Start), expected);
    assert_eq!(
        format_with_span_position(&record, SpanPosition::AfterLevel),
        expected
    );
    assert_eq!(
        format_with_span_position(&record, SpanPosition::Omitted),
        expected
    );
}

#[test]
fn format_places_span_context_by_position() {
    let record = record_with_context(
        "hello",
        vec![("req".to_string(), "id=1".to_string())],
    );
    assert_eq!(
        format_with_span_position(&record, SpanPosition::End),
        "[\x1b[32mINFO\x1b[0m] hello [req: id=1]"
    );
    assert_eq!(
        format_with_span_position(&record, SpanPosition::Start),
        "[req: id=1] [\x1b[32mINFO\x1b[0m] hello"
    );
    assert_eq!(
        format_with_span_position(&record, SpanPosition::AfterLevel),
        "[\x1b[32mINFO\x1b[0m] [req: id=1] hello"
    );
    assert_eq!(
        format_with_span_position(&record, SpanPosition::Omitted),
        "[\x1b[32mINFO\x1b[0m] hello"
    );
}

#[test]
fn default_formatter_constructors_set_positions() {
    assert_eq!(DefaultFormatter::new().position, SpanPosition::End);
    assert_eq!(
        DefaultFormatter::with_span_at_start().position,
        SpanPosition::Start
    );
    assert_eq!(
        DefaultFormatter::with_span_after_level().position,
        SpanPosition::AfterLevel
    );
    assert_eq!(
        DefaultFormatter::with_span_at_end().position,
        SpanPosition::End
    );
    assert_eq!(
        DefaultFormatter::without_span().position,
        SpanPosition::Omitted
    );
    assert_eq!(
        DefaultFormatter::with_position(SpanPosition::Start).position,
        SpanPosition::Start
    );
    assert_eq!(DefaultFormatter::default().position, SpanPosition::End);
}

#[test]
fn default_formatter_formats_like_the_free_function() {
    let record = record_with_context(
        "ready",
        vec![("job".to_string(), "n=2".to_string())],
    );
    let formatter = DefaultFormatter::with_span_after_level();
    assert_eq!(
        formatter.format(&record),
        format_with_span_position(&record, SpanPosition::AfterLevel)
    );
}

#[test]
fn formatter_builder_hands_its_position_on() {
    let formatter = FormatterBuilder::new()
        .with_span_position(SpanPosition::Start)
        .build();
    assert_eq!(formatter.position, SpanPosition::Start);
    let formatter = FormatterBuilder::new().build();
    assert_eq!(formatter.position, SpanPosition::End);
}

#[test]
fn formatted_output_strips_back_to_plain_text() {
    let record = record_with_context("all good", vec![]);
    let formatted = format_with_span_position(&record, SpanPosition::End);
    assert_eq!(strip_ansi_codes(&formatted), "[INFO] all good");
}
