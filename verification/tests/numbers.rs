use iroh::fields::FromTextInput;

#[test]
fn small_unsigned_types_keep_their_range() {
    assert_eq!(Some(255u8), u8::from_input("255"));
    assert_eq!(None, u8::from_input("256"));
    assert_eq!(Some(65535u16), u16::from_input("65535"));
    assert_eq!(None, u16::from_input("65536"));
    assert_eq!(Some(4294967295u32), u32::from_input("4294967295"));
    assert_eq!(None, u32::from_input("4294967296"));
    assert_eq!(Some(12usize), usize::from_input("12"));
    assert_eq!(None, usize::from_input("99999999999999999999999"));
}

#[test]
fn unsigned_types_take_no_minus() {
    assert_eq!(None, u8::parse("-1"));
    assert_eq!(None, u32::parse("-0"));
    assert_eq!(Some(7u8), u8::parse("+7"));
    assert_eq!(None, u8::from_input("+7"));
    assert_eq!(Some(0u16), u16::parse("000"));
    assert_eq!(None, u16::from_input("000"));
}

#[test]
fn unsigned_types_display_plain_digits() {
    assert_eq!("255", 255u8.format());
    assert_eq!("0", 0u16.format());
    assert_eq!("4294967295", u32::MAX.format());
    assert_eq!("10", 10usize.format());
}

#[test]
fn signed_input_round_trips() {
    assert_eq!(Some(-5i64), i64::from_input("-5"));
    assert_eq!(Some(5i64), i64::from_input("5"));
    assert_eq!(Some(0i64), i64::from_input("0"));
    assert_eq!(Some(i64::MIN), i64::from_input("-9223372036854775808"));
    assert_eq!(Some(i64::MAX), i64::from_input("9223372036854775807"));
    assert_eq!(None, i64::from_input("9223372036854775808"));
    assert_eq!(None, i64::from_input("-9223372036854775809"));
}

#[test]
fn signed_input_that_displays_differently_is_not_accepted() {
    assert_eq!(Some(0i64), i64::parse("-0"));
    assert_eq!(None, i64::from_input("-0"));
    assert_eq!(Some(5i64), i64::parse("+5"));
    assert_eq!(None, i64::from_input("+5"));
    assert_eq!(Some(-5i64), i64::parse("-05"));
    assert_eq!(None, i64::from_input("-05"));
}

#[test]
fn signed_input_that_does_not_parse_is_not_accepted() {
    assert_eq!(None, i64::parse("-"));
    assert_eq!(None, i64::parse("+"));
    assert_eq!(None, i64::parse(""));
    assert_eq!(None, i64::parse("--5"));
    assert_eq!(None, i64::parse("-+5"));
    assert_eq!(None, i64::parse("+-5"));
    assert_eq!(None, i64::parse("5-"));
    assert_eq!(None, i64::parse("- 5"));
}

#[test]
fn small_signed_types_keep_their_range() {
    assert_eq!(Some(-128i8), i8::from_input("-128"));
    assert_eq!(Some(127i8), i8::from_input("127"));
    assert_eq!(None, i8::from_input("128"));
    assert_eq!(None, i8::from_input("-129"));
    assert_eq!(Some(-32768i16), i16::from_input("-32768"));
    assert_eq!(None, i16::from_input("32768"));
    assert_eq!(Some(-2147483648i32), i32::from_input("-2147483648"));
    assert_eq!(None, i32::from_input("2147483648"));
    assert_eq!(Some(-3isize), isize::from_input("-3"));
}

#[test]
fn signed_types_display_a_minus_for_negatives() {
    assert_eq!("-128", (-128i8).format());
    assert_eq!("127", 127i8.format());
    assert_eq!("-1", (-1i16).format());
    assert_eq!("-2147483648", i32::MIN.format());
    assert_eq!("-9223372036854775808", i64::MIN.format());
    assert_eq!("42", 42isize.format());
}
