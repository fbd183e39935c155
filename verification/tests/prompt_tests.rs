use tera_inference::errors::EngineError;
use tera_inference::prompt::{assemble_prompt, is_blank_text, render_context, ContextSnippet};

fn snippet(content: &str, metadata: &str) -> ContextSnippet {
    ContextSnippet { content: content.to_string(), metadata: metadata.to_string() }
}

#[test]
fn blank_detection() {
    assert!(is_blank_text(""));
    assert!(is_blank_text(" \t\n"));
    assert!(is_blank_text("\u{a0}\u{2028}\u{3000}"));
    assert!(!is_blank_text(" a "));
}

#[test]
fn empty_list_renders_empty_array() {
    assert_eq!(render_context(&vec![]), "[]");
}

#[test]
fn one_snippet_renders_as_record() {
    let ctx = render_context(&vec![snippet("Paris is the capital of France.", "{\"id\":1}")]);
    assert_eq!(
        ctx,
        "[{\"content\":\"Paris is the capital of France.\",\"metadata\":{\"id\":1}}]"
    );
}

#[test]
fn snippet_order_is_preserved() {
    let ctx = render_context(&vec![
        snippet("first", "1"),
        snippet("second", "2"),
        snippet("third", "3"),
    ]);
    assert_eq!(
        ctx,
        "[{\"content\":\"first\",\"metadata\":1},{\"content\":\"second\",\"metadata\":2},{\"content\":\"third\",\"metadata\":3}]"
    );
    let first = ctx.find("first").unwrap();
    let second = ctx.find("second").unwrap();
    let third = ctx.find("third").unwrap();
    assert!(first < second && second < third);
}

#[test]
fn content_is_json_escaped() {
    let ctx = render_context(&vec![snippet("a\"b\\c\nd\te\r\u{8}\u{c}\u{1}", "null")]);
    assert_eq!(
        ctx,
        "[{\"content\":\"a\\\"b\\\\c\\nd\\te\\r\\b\\f\\u0001\",\"metadata\":null}]"
    );
}

#[test]
fn blank_query_is_rejected() {
    let r = assemble_prompt("   ", &vec![snippet("x", "null")], "Monday, January 15, 2024");
    assert!(matches!(r, Err(EngineError::EmptyQuery)));
}

#[test]
fn prompt_has_exact_shape() {
    let p = assemble_prompt(
        "Summarize this.",
        &vec![snippet("Paris is the capital of France.", "{\"id\":1}")],
        "Monday, January 15, 2024",
    )
    .unwrap();
    let expected = "<|im_start|>system\nAs a friendly and helpful AI assistant named Tera. Your answer should be very concise and to the point. Do not repeat question or references. Today is Monday, January 15, 2024<|im_end|>\n<|im_start|>user\nquestion: \"Summarize this.\"\nreferences: \"[{\"content\":\"Paris is the capital of France.\",\"metadata\":{\"id\":1}}]\"\n<|im_end|>\n<|im_start|>assistant\n";
    assert_eq!(p, expected);
}

#[test]
fn prompt_assembly_is_deterministic() {
    let snippets = vec![snippet("alpha", "{\"id\":7}"), snippet("beta", "null")];
    let a = assemble_prompt("same question", &snippets, "Friday, January  5, 2024").unwrap();
    let b = assemble_prompt("same question", &snippets, "Friday, January  5, 2024").unwrap();
    assert_eq!(a, b);
}
