use app_container_tokens::text::{decode_prefix, find_null, push_decimal};

fn units(text: &str) -> Vec<u16> {
    text.encode_utf16().collect()
}

fn decimal_of(n: u32) -> String {
    let mut text = String::new();
    push_decimal(&mut text, n);
    text
}

#[test]
fn decimal_of_zero_is_one_digit() {
    assert_eq!(decimal_of(0), "0");
}

#[test]
fn decimal_of_single_digits() {
    assert_eq!(decimal_of(7), "7");
    assert_eq!(decimal_of(9), "9");
}

#[test]
fn decimal_has_no_leading_zeros() {
    assert_eq!(decimal_of(10), "10");
    assert_eq!(decimal_of(1005), "1005");
}

#[test]
fn decimal_of_largest_value() {
    assert_eq!(decimal_of(u32::MAX), "4294967295");
}

#[test]
fn decimal_uses_every_digit() {
    assert_eq!(decimal_of(1234567890), "1234567890");
}

#[test]
fn push_decimal_appends() {
    let mut text = String::from("id=");
    push_decimal(&mut text, 42);
    assert_eq!(text, "id=42");
}

#[test]
fn find_null_gives_first_zero() {
    assert_eq!(find_null(&vec![65, 66, 0, 67, 0]), Some(2));
}

#[test]
fn find_null_at_start() {
    assert_eq!(find_null(&vec![0, 65]), Some(0));
}

#[test]
fn find_null_without_zero_is_none() {
    assert_eq!(find_null(&vec![65, 66, 67]), None);
    assert_eq!(find_null(&Vec::new()), None);
}

#[test]
fn decode_prefix_decodes_only_the_prefix() {
    let buffer = units("hello world");
    assert_eq!(decode_prefix(&buffer, 5), "hello");
    assert_eq!(decode_prefix(&buffer, 0), "");
    assert_eq!(decode_prefix(&buffer, buffer.len()), "hello world");
}

#[test]
fn decode_prefix_joins_surrogate_pairs() {
    // U+1F600 is the pair D83D DE00.
    let buffer: Vec<u16> = vec![0xD83D, 0xDE00, 0x0041];
    assert_eq!(decode_prefix(&buffer, 3), "\u{1F600}A");
}

#[test]
fn decode_prefix_replaces_unpaired_surrogates() {
    let buffer: Vec<u16> = vec![0x0041, 0xD83D, 0x0042];
    assert_eq!(decode_prefix(&buffer, 3), "A\u{FFFD}B");
    // A pair cut in half by the prefix is unpaired too.
    let pair: Vec<u16> = vec![0xD83D, 0xDE00];
    assert_eq!(decode_prefix(&pair, 1), "\u{FFFD}");
}
