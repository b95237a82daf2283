use traccia::Span;
use traccia::SpanStack;

#[test]
fn test_span_stack() {
    let mut stack = SpanStack::new();

    // Initially empty
    assert_eq!(stack.current_context().len(), 0);

    stack.enter(Span::new(
        "test".to_string(),
        vec![("key1".to_string(), "value1".to_string())],
    ));
    let ctx = stack.current_context();
    assert_eq!(ctx.len(), 1);
    assert_eq!(ctx[0].0, "test");
    assert_eq!(ctx[0].1, "key1=value1");

    stack.enter(Span::new(
        "nested".to_string(),
        vec![("key2".to_string(), "value2".to_string())],
    ));
    let ctx = stack.current_context();
    assert_eq!(ctx.len(), 2);
    assert_eq!(ctx[1].0, "nested");

    // After the nested span is left
    stack.exit();
    let ctx = stack.current_context();
    assert_eq!(ctx.len(), 1);

    // After the outer span is left
    stack.exit();
    assert_eq!(stack.current_context().len(), 0);
}

#[test]
fn test_multiple_fields() {
    let mut stack = SpanStack::new();
    stack.enter(Span::new(
        "multi".to_string(),
        vec![
            ("field1".to_string(), "value1".to_string()),
            ("field2".to_string(), "value2".to_string()),
        ],
    ));

    let ctx = stack.current_context();
    assert_eq!(ctx.len(), 2);
    assert_eq!(ctx[0].1, "field1=value1");
    assert_eq!(ctx[1].1, "field2=value2");
}

#[test]
fn exit_returns_the_innermost_span() {
    let mut stack = SpanStack::new();
    assert!(stack.exit().is_none());
    stack.enter(Span::new("outer".to_string(), vec![]));
    stack.enter(Span::new("inner".to_string(), vec![]));
    assert_eq!(stack.depth(), 2);
    let popped = stack.exit().expect("a span was active");
    assert_eq!(popped.name, "inner");
    assert_eq!(stack.depth(), 1);
}

#[test]
fn context_renders_span_names_per_field() {
    let mut stack = SpanStack::new();
    stack.enter(Span::new(
        "request".to_string(),
        vec![("id".to_string(), "123".to_string())],
    ));
    stack.enter(Span::new(
        "user".to_string(),
        vec![("name".to_string(), "john".to_string())],
    ));
    let ctx = stack.current_context();
    assert_eq!(
        ctx,
        vec![
            ("request".to_string(), "id=123".to_string()),
            ("user".to_string(), "name=john".to_string()),
        ]
    );
}
