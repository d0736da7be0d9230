//! The development echo text.

use forward_proxy::echo::{dev_echo, header_line, join_lines};

#[test]
fn header_line_joins_name_and_value() {
    assert_eq!(header_line("x-test", "abc"), "x-test: abc");
}

#[test]
fn join_lines_of_nothing_is_empty() {
    assert_eq!(join_lines(&vec![]), "");
}

#[test]
fn join_lines_separates_with_newlines() {
    let lines = vec!["a: 1".to_string(), "b: 2".to_string(), "c: 3".to_string()];
    assert_eq!(join_lines(&lines), "a: 1\nb: 2\nc: 3");
}

#[test]
fn dev_echo_has_the_exact_layout() {
    let lines = vec!["host: h".to_string(), "x-a: v".to_string()];
    let text = dev_echo("POST", "/__dev?x=1", &lines, "payload");
    assert_eq!(text, "Method: POST\nURI: /__dev?x=1\nHeaders:\nhost: h\nx-a: v\nBody:\npayload");
}
