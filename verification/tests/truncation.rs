use restty::record::{MAX_BODY_SIZE, MAX_RESPONSE_SIZE};
use restty::truncation::truncate_string;

fn marker(cut: usize) -> String {
    format!("... [truncated {} bytes]", cut)
}

#[test]
fn short_text_is_kept() {
    assert_eq!(truncate_string("hello", 10), "hello");
}

#[test]
fn text_of_exactly_the_budget_is_kept() {
    assert_eq!(truncate_string("hello", 5), "hello");
    let body = "a".repeat(MAX_BODY_SIZE);
    assert_eq!(truncate_string(&body, MAX_BODY_SIZE), body);
}

#[test]
fn empty_text_is_kept() {
    assert_eq!(truncate_string("", 0), "");
    assert_eq!(truncate_string("", 10), "");
}

#[test]
fn long_text_is_cut_with_marker() {
    assert_eq!(truncate_string("hello world", 5), "hello... [truncated 6 bytes]");
}

#[test]
fn budget_of_zero_keeps_only_the_marker() {
    assert_eq!(truncate_string("abc", 0), "... [truncated 3 bytes]");
}

#[test]
fn one_byte_over_the_body_budget() {
    let body = "b".repeat(MAX_BODY_SIZE + 1);
    let cut = truncate_string(&body, MAX_BODY_SIZE);
    assert_eq!(cut.len(), MAX_BODY_SIZE + marker(1).len());
    assert_eq!(&cut.as_bytes()[..MAX_BODY_SIZE], &body.as_bytes()[..MAX_BODY_SIZE]);
    assert_eq!(&cut[MAX_BODY_SIZE..], "... [truncated 1 bytes]");
}

#[test]
fn response_budget_counts_every_cut_byte() {
    let response = "r".repeat(MAX_RESPONSE_SIZE + 23_456);
    let cut = truncate_string(&response, MAX_RESPONSE_SIZE);
    assert_eq!(cut.len(), MAX_RESPONSE_SIZE + marker(23_456).len());
    assert!(cut.ends_with("... [truncated 23456 bytes]"));
    assert!(cut.starts_with(&response[..MAX_RESPONSE_SIZE]));
}

#[test]
fn marker_number_lets_the_length_be_recovered() {
    let text = "x".repeat(12_345);
    let cut = truncate_string(&text, 10_000);
    let number: usize = cut["x".repeat(10_000).len() + "... [truncated ".len()..cut.len() - " bytes]".len()]
        .parse()
        .unwrap();
    assert_eq!(10_000 + number, text.len());
}

#[test]
fn budget_counts_bytes_not_characters() {
    // Four characters of two bytes each.
    let text = "éééé";
    assert_eq!(text.len(), 8);
    assert_eq!(truncate_string(text, 8), text);
    assert_eq!(truncate_string(text, 4), "éé... [truncated 4 bytes]");
}

#[test]
fn cut_inside_a_character_falls_back_to_its_start() {
    let text = "éééé";
    assert_eq!(truncate_string(text, 5), "éé... [truncated 4 bytes]");
    assert_eq!(truncate_string(text, 1), "... [truncated 8 bytes]");
    // A character of four bytes after one of one byte.
    let text = "a\u{1F600}b";
    assert_eq!(text.len(), 6);
    assert_eq!(truncate_string(text, 2), "a... [truncated 5 bytes]");
    assert_eq!(truncate_string(text, 3), "a... [truncated 5 bytes]");
    assert_eq!(truncate_string(text, 4), "a... [truncated 5 bytes]");
    assert_eq!(truncate_string(text, 5), "a\u{1F600}... [truncated 1 bytes]");
}

#[test]
fn truncating_twice_marks_twice_only_when_still_too_long() {
    let once = truncate_string("abcdefghij", 4);
    assert_eq!(once, "abcd... [truncated 6 bytes]");
    assert_eq!(truncate_string(&once, 100), once);
}
