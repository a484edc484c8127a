use md_writer::h1;
use md_writer::h2;
use md_writer::h3;
use md_writer::h4;
use md_writer::h5;
use md_writer::h6;

#[test]
fn h1_returns_a_lvl1_header() {
    let text = "Hello!";
    let result = h1(text);

    assert_eq!(result, "Hello!\n======");
}

#[test]
fn h2_returns_a_lvl2_header() {
    let text = "Hello!";
    let result = h2(text);

    assert_eq!(result, "Hello!\n------");
}

#[test]
fn h3_returns_a_lvl3_header() {
    let text = "Hello!";
    let result = h3(text);

    assert_eq!(result, "### Hello!");
}

#[test]
fn h4_returns_a_lvl4_header() {
    let text = "Hello!";
    let result = h4(text);

    assert_eq!(result, "#### Hello!");
}

#[test]
fn h5_returns_a_lvl5_header() {
    let text = "Hello!";
    let result = h5(text);

    assert_eq!(result, "##### Hello!");
}

#[test]
fn h6_returns_a_lvl6_header() {
    let text = "Hello!";
    let result = h6(text);

    assert_eq!(result, "###### Hello!");
}

#[test]
fn h1_underline_counts_characters_not_bytes() {
    // Five characters, seven bytes: the underline has five `=`.
    let result = h1("héllö");

    assert_eq!(result, "héllö\n=====");
}

#[test]
fn h2_underline_counts_characters_not_bytes() {
    let result = h2("héllö");

    assert_eq!(result, "héllö\n-----");
}

#[test]
fn h1_of_empty_text_is_a_bare_line_feed() {
    assert_eq!(h1(""), "\n");
}

#[test]
fn h2_of_empty_text_is_a_bare_line_feed() {
    assert_eq!(h2(""), "\n");
}

#[test]
fn h1_splits_into_text_and_underline() {
    let result = h1("Title");
    let lines: Vec<&str> = result.split('\n').collect();

    assert_eq!(lines.len(), 2);
    assert_eq!(lines[0], "Title");
    assert_eq!(lines[1], "=====");
    assert_eq!(lines[1].chars().count(), "Title".chars().count());
    assert!(lines[1].chars().all(|c| c == '='));
}

#[test]
fn h3_of_empty_text_is_the_bare_prefix() {
    assert_eq!(h3(""), "### ");
}

#[test]
fn headers_are_deterministic() {
    assert_eq!(h1("Hello!"), h1("Hello!"));
    assert_eq!(h2("Hello!"), h2("Hello!"));
    assert_eq!(h3("Hello!"), h3("Hello!"));
    assert_eq!(h4("Hello!"), h4("Hello!"));
    assert_eq!(h5("Hello!"), h5("Hello!"));
    assert_eq!(h6("Hello!"), h6("Hello!"));
}
