use restty::text::{byte_len, contains, push_decimal, str_eq};

fn decimal_string(n: usize) -> String {
    let mut out = String::new();
    push_decimal(&mut out, n);
    out
}

#[test]
fn decimal_of_small_and_large_numbers() {
    assert_eq!(decimal_string(0), "0");
    assert_eq!(decimal_string(7), "7");
    assert_eq!(decimal_string(10), "10");
    assert_eq!(decimal_string(105), "105");
    assert_eq!(decimal_string(90_000), "90000");
    assert_eq!(decimal_string(usize::MAX), usize::MAX.to_string());
}

#[test]
fn decimal_agrees_with_std_on_a_sweep() {
    let mut n: usize = 0;
    while n < 5_000 {
        assert_eq!(decimal_string(n), n.to_string());
        n += 1;
    }
}

#[test]
fn push_decimal_appends() {
    let mut out = String::from("limit=");
    push_decimal(&mut out, 100);
    assert_eq!(out, "limit=100");
}

#[test]
fn str_eq_compares_text() {
    assert!(str_eq("", ""));
    assert!(str_eq("POST", "POST"));
    assert!(!str_eq("POST", "POSt"));
    assert!(!str_eq("POST", "POS"));
    assert!(!str_eq("", "a"));
    assert!(str_eq("héllo", "héllo"));
}

#[test]
fn byte_len_counts_bytes() {
    assert_eq!(byte_len(""), 0);
    assert_eq!(byte_len("abc"), 3);
    assert_eq!(byte_len("é"), 2);
}

#[test]
fn contains_finds_runs() {
    assert!(contains("User already registered", "already registered"));
    assert!(contains("already registered", "already registered"));
    assert!(contains("xx already registered", "already registered"));
    assert!(!contains("already registere", "already registered"));
    assert!(!contains("already  registered", "already registered"));
    assert!(!contains("", "a"));
    assert!(contains("aab", "ab"));
    assert!(contains("abab", "bab"));
}

#[test]
fn contains_finds_the_empty_text_everywhere() {
    assert!(contains("", ""));
    assert!(contains("abc", ""));
}

#[test]
fn contains_agrees_with_std_on_other_alphabets() {
    let hay = "añb\u{1F600}cé";
    for needle in ["ñ", "b\u{1F600}", "cé", "é", "\u{1F600}", "a", "x", "ñc", "éc"] {
        assert_eq!(contains(hay, needle), hay.contains(needle), "{}", needle);
    }
}
