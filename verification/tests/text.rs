use gamma_client::text::{escape, render_decimal, render_flag};
use gamma_client::Method;

#[test]
fn decimal_of_zero_is_one_digit() {
    assert_eq!(render_decimal(0), "0");
}

#[test]
fn decimal_has_no_leading_zeros() {
    assert_eq!(render_decimal(7), "7");
    assert_eq!(render_decimal(10), "10");
    assert_eq!(render_decimal(42), "42");
    assert_eq!(render_decimal(1000), "1000");
    assert_eq!(render_decimal(90210), "90210");
}

#[test]
fn decimal_of_the_largest_id() {
    assert_eq!(render_decimal(u32::MAX), "4294967295");
}

#[test]
fn decimal_agrees_with_the_standard_rendering() {
    for n in [0u32, 1, 9, 10, 11, 99, 100, 101, 12345, 4294967294, 4294967295] {
        assert_eq!(render_decimal(n), format!("{}", n));
    }
}

#[test]
fn flags_are_written_as_words() {
    assert_eq!(render_flag(true), "true");
    assert_eq!(render_flag(false), "false");
}

#[test]
fn method_tokens_are_upper_case() {
    assert_eq!(Method::Get.as_str(), "GET");
    assert_eq!(Method::Head.as_str(), "HEAD");
    assert_eq!(Method::Post.as_str(), "POST");
    assert_eq!(Method::Put.as_str(), "PUT");
    assert_eq!(Method::Delete.as_str(), "DELETE");
    assert_eq!(Method::Connect.as_str(), "CONNECT");
    assert_eq!(Method::Options.as_str(), "OPTIONS");
    assert_eq!(Method::Trace.as_str(), "TRACE");
    assert_eq!(Method::Patch.as_str(), "PATCH");
}

#[test]
fn escape_keeps_unreserved_characters() {
    assert_eq!(escape("politics"), "politics");
    assert_eq!(escape("us-elections_2024.v1~"), "us-elections_2024.v1~");
    assert_eq!(escape("AZaz09"), "AZaz09");
    assert_eq!(escape(""), "");
}

#[test]
fn escape_writes_other_bytes_in_hexadecimal() {
    assert_eq!(escape("a b"), "a%20b");
    assert_eq!(escape("us/elections"), "us%2Felections");
    assert_eq!(escape("a?b#c"), "a%3Fb%23c");
    assert_eq!(escape("100%"), "100%25");
    assert_eq!(escape("../.."), "..%2F..");
    assert_eq!(escape("\u{0}\u{7f}"), "%00%7F");
    assert_eq!(escape("@[`{"), "%40%5B%60%7B");
}

#[test]
fn escape_writes_each_byte_of_a_character() {
    assert_eq!(escape("vi\u{1ec7}t"), "vi%E1%BB%87t");
    assert_eq!(escape("\u{e9}"), "%C3%A9");
    assert_eq!(escape("\u{1f600}"), "%F0%9F%98%80");
}

#[test]
fn escaped_text_holds_no_separator() {
    for text in ["a/b", "a?b", "a#b", "a b", "a\\b", "%2F", "a;b=c&d"] {
        let escaped = escape(text);
        assert!(escaped
            .chars()
            .all(|c| c.is_ascii_alphanumeric() || "-._~%".contains(c)));
    }
}
