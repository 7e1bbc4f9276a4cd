use founder::drawing::push_frac_text;
use founder::text::{chars_to_string, push_decimal_digits, push_hex_digits, push_int_text,
    push_padded_digits, str_to_chars};
use founder::transform::Frac;

#[test]
fn decimal_digits_of_zero_and_large() {
    let mut v: Vec<char> = Vec::new();
    push_decimal_digits(0, &mut v);
    assert_eq!(chars_to_string(&v), "0");
    let mut v: Vec<char> = Vec::new();
    push_decimal_digits(12345, &mut v);
    assert_eq!(chars_to_string(&v), "12345");
    let mut v: Vec<char> = Vec::new();
    push_decimal_digits(1000000, &mut v);
    assert_eq!(chars_to_string(&v), "1000000");
}

#[test]
fn int_text_handles_signs() {
    let mut v: Vec<char> = Vec::new();
    push_int_text(-42, &mut v);
    assert_eq!(chars_to_string(&v), "-42");
    let mut v: Vec<char> = Vec::new();
    push_int_text(7, &mut v);
    assert_eq!(chars_to_string(&v), "7");
    let mut v: Vec<char> = Vec::new();
    push_int_text(i64::MIN, &mut v);
    assert_eq!(chars_to_string(&v), "-9223372036854775808");
}

#[test]
fn hex_digits_are_lowercase() {
    let mut v: Vec<char> = Vec::new();
    push_hex_digits(0x41, &mut v);
    assert_eq!(chars_to_string(&v), "41");
    let mut v: Vec<char> = Vec::new();
    push_hex_digits(255, &mut v);
    assert_eq!(chars_to_string(&v), "ff");
    let mut v: Vec<char> = Vec::new();
    push_hex_digits(0, &mut v);
    assert_eq!(chars_to_string(&v), "0");
    let mut v: Vec<char> = Vec::new();
    push_hex_digits(0x1d518, &mut v);
    assert_eq!(chars_to_string(&v), "1d518");
}

#[test]
fn padded_digits_keep_width() {
    let mut v: Vec<char> = Vec::new();
    push_padded_digits(42, 6, &mut v);
    assert_eq!(chars_to_string(&v), "000042");
    let mut v: Vec<char> = Vec::new();
    push_padded_digits(999999, 6, &mut v);
    assert_eq!(chars_to_string(&v), "999999");
}

#[test]
fn frac_text_truncates_toward_zero() {
    let mut v: Vec<char> = Vec::new();
    push_frac_text(Frac { num: 496, den: 1000 }, &mut v);
    assert_eq!(chars_to_string(&v), "0.496000");
    let mut v: Vec<char> = Vec::new();
    push_frac_text(Frac { num: 1, den: 3 }, &mut v);
    assert_eq!(chars_to_string(&v), "0.333333");
    let mut v: Vec<char> = Vec::new();
    push_frac_text(Frac { num: -300, den: 2 }, &mut v);
    assert_eq!(chars_to_string(&v), "-150.000000");
    let mut v: Vec<char> = Vec::new();
    push_frac_text(Frac { num: 496, den: 700 }, &mut v);
    assert_eq!(chars_to_string(&v), "0.708571");
}

#[test]
fn str_to_chars_round_trip() {
    let chars = str_to_chars("a/ü.ttf");
    assert_eq!(chars, vec!['a', '/', 'ü', '.', 't', 't', 'f']);
    assert_eq!(chars_to_string(&chars), "a/ü.ttf");
}
