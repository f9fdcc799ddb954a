use crypto::errno::Errno;
use crypto::field::Felt;
use crypto::numeral::{is_decimal_text, is_hex_text};
use crypto::parse::{parse_bigint, parse_bigint_decimal, BigInt};

const MODULUS_DEC: &str =
    "3618502788666131213697322783095070105623107215331596699973092056135872020481";
const MODULUS_MINUS_ONE_DEC: &str =
    "3618502788666131213697322783095070105623107215331596699973092056135872020480";
const MODULUS_HEX: &str = "0x800000000000011000000000000000000000000000000000000000000000001";
const MODULUS_MINUS_ONE_HEX: &str =
    "0x800000000000011000000000000000000000000000000000000000000000000";

fn text(s: &str) -> BigInt {
    Some(s.as_bytes().to_vec())
}

fn hex_of(f: &Felt) -> String {
    let mut s = String::new();
    for b in f.to_bytes_be() {
        s.push_str(&format!("{:02x}", b));
    }
    s
}

fn word(tail: &str) -> String {
    format!("{:0>64}", tail)
}

#[test]
fn decimal_numeral_is_read() {
    let f = parse_bigint_decimal(&text("2154549703648910716")).unwrap();
    assert_eq!(hex_of(&f), word("1de67f8a48ea9d7c"));
}

#[test]
fn decimal_zero_and_leading_zeros() {
    assert_eq!(hex_of(&parse_bigint_decimal(&text("0")).unwrap()), word("0"));
    assert_eq!(hex_of(&parse_bigint_decimal(&text("000123")).unwrap()), word("7b"));
    let long = format!("{}{}", "0".repeat(100), "17");
    assert_eq!(hex_of(&parse_bigint_decimal(&text(&long)).unwrap()), word("11"));
}

#[test]
fn hex_numeral_is_read_with_and_without_prefix() {
    assert_eq!(hex_of(&parse_bigint(&text("0x1f")).unwrap()), word("1f"));
    assert_eq!(hex_of(&parse_bigint(&text("1f")).unwrap()), word("1f"));
    assert_eq!(hex_of(&parse_bigint(&text("0x1F")).unwrap()), word("1f"));
    assert_eq!(hex_of(&parse_bigint(&text("0xAbCdEf")).unwrap()), word("abcdef"));
    assert_eq!(hex_of(&parse_bigint(&text("0x0")).unwrap()), word("0"));
}

#[test]
fn decimal_text_in_hex_field_is_read_as_hex() {
    assert_eq!(hex_of(&parse_bigint(&text("10")).unwrap()), word("10"));
}

#[test]
fn null_handle_is_reported() {
    assert_eq!(parse_bigint_decimal(&None), Err(Errno::InvalidNullPtr));
    assert_eq!(parse_bigint(&None), Err(Errno::InvalidNullPtr));
}

#[test]
fn invalid_utf8_is_reported() {
    let bad: BigInt = Some(vec![0x31, 0xff, 0x32]);
    assert_eq!(parse_bigint_decimal(&bad), Err(Errno::InvalidTextEncoding));
    assert_eq!(parse_bigint(&bad), Err(Errno::InvalidTextEncoding));
    let truncated: BigInt = Some(vec![0xe2, 0x82]);
    assert_eq!(parse_bigint_decimal(&truncated), Err(Errno::InvalidTextEncoding));
}

#[test]
fn empty_text_is_no_numeral() {
    assert_eq!(parse_bigint_decimal(&text("")), Err(Errno::InvalidNumeralSyntax));
    assert_eq!(parse_bigint(&text("")), Err(Errno::InvalidNumeralSyntax));
    assert_eq!(parse_bigint(&text("0x")), Err(Errno::InvalidNumeralSyntax));
}

#[test]
fn letters_in_decimal_field_are_rejected() {
    assert_eq!(parse_bigint_decimal(&text("12a4")), Err(Errno::InvalidNumeralSyntax));
    assert_eq!(parse_bigint_decimal(&text("abc")), Err(Errno::InvalidNumeralSyntax));
    assert_eq!(parse_bigint_decimal(&text("-1")), Err(Errno::InvalidNumeralSyntax));
    assert_eq!(parse_bigint_decimal(&text("+1")), Err(Errno::InvalidNumeralSyntax));
    assert_eq!(parse_bigint_decimal(&text(" 1")), Err(Errno::InvalidNumeralSyntax));
    assert_eq!(parse_bigint_decimal(&text("1 ")), Err(Errno::InvalidNumeralSyntax));
}

#[test]
fn non_hex_characters_are_rejected() {
    assert_eq!(parse_bigint(&text("0x12g4")), Err(Errno::InvalidNumeralSyntax));
    assert_eq!(parse_bigint(&text("xyz")), Err(Errno::InvalidNumeralSyntax));
    assert_eq!(parse_bigint(&text("0X1f")), Err(Errno::InvalidNumeralSyntax));
    assert_eq!(parse_bigint(&text("0x0x1f")), Err(Errno::InvalidNumeralSyntax));
    assert_eq!(parse_bigint(&text("x1f")), Err(Errno::InvalidNumeralSyntax));
}

#[test]
fn non_ascii_text_is_no_numeral() {
    assert_eq!(parse_bigint_decimal(&text("\u{661}\u{662}\u{663}")), Err(Errno::InvalidNumeralSyntax));
    assert_eq!(parse_bigint(&text("0x\u{e9}")), Err(Errno::InvalidNumeralSyntax));
}

#[test]
fn hex_form_in_decimal_field_is_rejected() {
    assert_eq!(parse_bigint_decimal(&text("0x1f")), Err(Errno::InvalidNumeralSyntax));
    assert_eq!(parse_bigint_decimal(&text("1f")), Err(Errno::InvalidNumeralSyntax));
    assert_eq!(parse_bigint_decimal(&text("0x10")), Err(Errno::InvalidNumeralSyntax));
}

#[test]
fn decimal_modulus_is_out_of_range() {
    assert_eq!(parse_bigint_decimal(&text(MODULUS_DEC)), Err(Errno::NumeralOutOfRange));
    let f = parse_bigint_decimal(&text(MODULUS_MINUS_ONE_DEC)).unwrap();
    assert_eq!(
        hex_of(&f),
        "0800000000000011000000000000000000000000000000000000000000000000"
    );
}

#[test]
fn decimal_above_modulus_is_out_of_range() {
    let two_pow_256 =
        "115792089237316195423570985008687907853269984665640564039457584007913129639936";
    assert_eq!(parse_bigint_decimal(&text(two_pow_256)), Err(Errno::NumeralOutOfRange));
    let huge = "9".repeat(200);
    assert_eq!(parse_bigint_decimal(&text(&huge)), Err(Errno::NumeralOutOfRange));
}

#[test]
fn hex_modulus_is_out_of_range() {
    assert_eq!(parse_bigint(&text(MODULUS_HEX)), Err(Errno::NumeralOutOfRange));
    let f = parse_bigint(&text(MODULUS_MINUS_ONE_HEX)).unwrap();
    assert_eq!(
        hex_of(&f),
        "0800000000000011000000000000000000000000000000000000000000000000"
    );
    let all_f = format!("0x{}", "f".repeat(64));
    assert_eq!(parse_bigint(&text(&all_f)), Err(Errno::NumeralOutOfRange));
}

#[test]
fn hex_of_more_than_64_digits_is_out_of_range() {
    let sixty_four = format!("0x{}1", "0".repeat(63));
    assert_eq!(hex_of(&parse_bigint(&text(&sixty_four)).unwrap()), word("1"));
    let sixty_five = format!("0x{}1", "0".repeat(64));
    assert_eq!(parse_bigint(&text(&sixty_five)), Err(Errno::NumeralOutOfRange));
}

#[test]
fn syntax_is_checked_before_range() {
    let long_bad = format!("{}x", "9".repeat(200));
    assert_eq!(parse_bigint_decimal(&text(&long_bad)), Err(Errno::InvalidNumeralSyntax));
    let long_bad_hex = format!("0x{}", "z".repeat(70));
    assert_eq!(parse_bigint(&text(&long_bad_hex)), Err(Errno::InvalidNumeralSyntax));
}

#[test]
fn same_value_in_different_texts() {
    assert_eq!(
        parse_bigint_decimal(&text("31")).unwrap(),
        parse_bigint(&text("0x1f")).unwrap()
    );
    assert_eq!(parse_bigint_decimal(&text("2")).unwrap(), Felt::from_u8(2));
    assert_ne!(parse_bigint_decimal(&text("2")).unwrap(), Felt::from_u8(3));
}

#[test]
fn small_elements_have_their_bytes() {
    let mut expected = [0u8; 32];
    expected[31] = 200;
    assert_eq!(Felt::from_u8(200).to_bytes_be(), expected);
    assert_eq!(Felt::from_u8(0).to_bytes_be(), [0u8; 32]);
}

#[test]
fn numeral_checks() {
    assert!(is_decimal_text(b"0123456789"));
    assert!(!is_decimal_text(b""));
    assert!(!is_decimal_text(b"12/"));
    assert!(!is_decimal_text(b"12:"));
    assert!(is_hex_text(b"0x0123456789abcdefABCDEF"));
    assert!(is_hex_text(b"ff"));
    assert!(!is_hex_text(b"0x"));
    assert!(!is_hex_text(b""));
    assert!(!is_hex_text(b"0xg"));
    assert!(!is_hex_text(b"0x@"));
    assert!(!is_hex_text(b"0x`"));
    assert!(!is_hex_text(b"0xG"));
}
