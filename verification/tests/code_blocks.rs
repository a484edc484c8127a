use md_writer::code_fence;
use md_writer::code_span;
use md_writer::fenced_code_block;
use md_writer::fenced_js_code_block;
use md_writer::fenced_rs_code_block;
use md_writer::fenced_sh_code_block;
use md_writer::fenced_ts_code_block;

#[test]
fn code_fence_with_info_string() {
    assert_eq!(code_fence(Some("rust")), "```rust");
}

#[test]
fn code_fence_without_info_string() {
    assert_eq!(code_fence(None), "```");
}

#[test]
fn code_fence_with_empty_info_string_renders_like_none() {
    assert_eq!(code_fence(Some("")), "```");
    assert_eq!(code_fence(Some("")), code_fence(None));
}

#[test]
fn code_span_wraps_code_in_single_backticks() {
    let code = r#"println!("Hello world!");"#;

    assert_eq!(code_span(code), format!("`{code}`"));
}

#[test]
fn code_span_of_empty_text_is_two_backticks() {
    assert_eq!(code_span(""), "``");
}

#[test]
fn fenced_code_block_with_info_string() {
    assert_eq!(fenced_code_block("x = 1", Some("python")), "```python\nx = 1\n```");
}

#[test]
fn fenced_code_block_without_info_string() {
    let code = r#"println!("Hello world!");"#;

    assert_eq!(fenced_code_block(code, None), format!("```\n{code}\n```"));
}

#[test]
fn fenced_code_block_of_empty_code() {
    assert_eq!(fenced_code_block("", None), "```\n\n```");
}

#[test]
fn fenced_code_block_keeps_internal_line_feeds() {
    let code = "let a = 1;\nlet b = 2;";
    let block = fenced_code_block(code, Some("rust"));

    assert_eq!(block, "```rust\nlet a = 1;\nlet b = 2;\n```");

    let lines: Vec<&str> = block.split('\n').collect();
    assert_eq!(lines.len(), 4);
    assert_eq!(lines[0], "```rust");
    assert_eq!(*lines.last().unwrap(), "```");
    assert_eq!(lines[1..lines.len() - 1].join("\n"), code);
}

#[test]
fn language_tagged_blocks_match_the_generic_builder() {
    let code = "console.log('Hello world!');";

    assert_eq!(fenced_js_code_block(code), fenced_code_block(code, Some("javascript")));
    assert_eq!(fenced_rs_code_block(code), fenced_code_block(code, Some("rust")));
    assert_eq!(fenced_sh_code_block(code), fenced_code_block(code, Some("shell")));
    assert_eq!(fenced_ts_code_block(code), fenced_code_block(code, Some("typescript")));
}

#[test]
fn language_tagged_blocks_carry_their_tags() {
    assert_eq!(fenced_js_code_block("x"), "```javascript\nx\n```");
    assert_eq!(fenced_rs_code_block("x"), "```rust\nx\n```");
    assert_eq!(fenced_sh_code_block("x"), "```shell\nx\n```");
    assert_eq!(fenced_ts_code_block("x"), "```typescript\nx\n```");
}

#[test]
fn code_builders_are_deterministic() {
    assert_eq!(code_fence(Some("rust")), code_fence(Some("rust")));
    assert_eq!(code_span("a `b` c"), code_span("a `b` c"));
    assert_eq!(fenced_code_block("x\ny", Some("t")), fenced_code_block("x\ny", Some("t")));
}
