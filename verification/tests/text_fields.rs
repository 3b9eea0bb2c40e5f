use cloubil::text::{ascii_lower, byte_length, push_ascii_lower, push_decimal, push_padded_decimal};

fn decimal(n: usize) -> String {
    let mut out = String::new();
    push_decimal(&mut out, n);
    out
}

fn padded(n: u32, width: u32) -> String {
    let mut out = String::new();
    push_padded_decimal(&mut out, n, width);
    out
}

#[test]
fn decimal_numerals_have_no_leading_zeros() {
    assert_eq!(decimal(0), "0");
    assert_eq!(decimal(7), "7");
    assert_eq!(decimal(9), "9");
    assert_eq!(decimal(10), "10");
    assert_eq!(decimal(13), "13");
    assert_eq!(decimal(108), "108");
    assert_eq!(decimal(1000), "1000");
    assert_eq!(decimal(1234567890), "1234567890");
    assert_eq!(decimal(usize::MAX), usize::MAX.to_string());
}

#[test]
fn decimal_numerals_are_appended() {
    let mut out = "content-length:".to_string();
    push_decimal(&mut out, 42);
    assert_eq!(out, "content-length:42");
    push_decimal(&mut out, 0);
    assert_eq!(out, "content-length:420");
}

#[test]
fn padded_fields_have_their_width() {
    assert_eq!(padded(0, 2), "00");
    assert_eq!(padded(5, 2), "05");
    assert_eq!(padded(59, 2), "59");
    assert_eq!(padded(2023, 4), "2023");
    assert_eq!(padded(7, 4), "0007");
    assert_eq!(padded(0, 4), "0000");
    assert_eq!(padded(9999, 4), "9999");
    assert_eq!(padded(5, 0), "");
}

#[test]
fn padded_fields_keep_the_low_digits_of_a_wide_number() {
    assert_eq!(padded(12345, 4), "2345");
    assert_eq!(padded(100, 2), "00");
    assert_eq!(padded(u32::MAX, 3), "295");
}

#[test]
fn padded_fields_are_appended() {
    let mut out = "2023".to_string();
    push_padded_decimal(&mut out, 1, 2);
    push_padded_decimal(&mut out, 31, 2);
    assert_eq!(out, "20230131");
}

#[test]
fn ascii_capitals_are_folded() {
    assert_eq!(ascii_lower('A'), 'a');
    assert_eq!(ascii_lower('Z'), 'z');
    assert_eq!(ascii_lower('M'), 'm');
    assert_eq!(ascii_lower('a'), 'a');
    assert_eq!(ascii_lower('z'), 'z');
    assert_eq!(ascii_lower('@'), '@');
    assert_eq!(ascii_lower('['), '[');
    assert_eq!(ascii_lower('0'), '0');
    assert_eq!(ascii_lower('-'), '-');
    assert_eq!(ascii_lower(':'), ':');
    assert_eq!(ascii_lower('\u{c9}'), '\u{c9}');
    assert_eq!(ascii_lower('\u{0130}'), '\u{0130}');
}

#[test]
fn ascii_folding_agrees_with_std() {
    for text in ["Content-Length", "X-AMZ-DATE", "host", "", "\u{c9}cole-A", "MiXeD_123;:\n"] {
        let mut out = String::new();
        push_ascii_lower(&mut out, text);
        assert_eq!(out, text.to_ascii_lowercase());
    }
}

#[test]
fn folded_text_is_appended() {
    let mut out = "a;".to_string();
    push_ascii_lower(&mut out, "Host");
    assert_eq!(out, "a;host");
}

#[test]
fn byte_length_counts_utf8_bytes() {
    assert_eq!(byte_length(""), 0);
    assert_eq!(byte_length("abc"), 3);
    assert_eq!(byte_length("caf\u{e9}"), 5);
    assert_eq!(byte_length("\u{20ac}"), 3);
    assert_eq!(byte_length("\u{1f600}"), 4);
}
