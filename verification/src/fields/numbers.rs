//! Integers as text: how they are read and how they are displayed.

use crate::fields::text_input::{spec_from_input, FromTextInput};
use vstd::prelude::*;

verus! {

/// Whether `c` is one of the characters `0` to `9`.
pub open spec fn is_decimal_digit(c: char) -> bool {
    '0' <= c <= '9'
}

/// The number that the digit `c` stands for.
pub open spec fn digit_value(c: char) -> nat {
    (c as int - '0' as int) as nat
}

/// The character that displays `d`, a number below ten.
pub open spec fn digit_char(d: nat) -> char {
    ((48 + d) as u8) as char
}

/// Whether `s` consists of decimal digits only.
pub open spec fn all_decimal_digits(s: Seq<char>) -> bool {
    forall|i: int| 0 <= i < s.len() ==> is_decimal_digit(#[trigger] s[i])
}

/// The number written by the digits `digits`, most significant first.
pub open spec fn decimal_value(digits: Seq<char>) -> nat
    decreases digits.len(),
{
    if digits.len() == 0 {
        0
    } else {
        decimal_value(digits.drop_last()) * 10 + digit_value(digits.last())
    }
}

/// The number that `text` denotes as an unsigned integer: an optional `+`
/// and then one or more decimal digits, nothing before, between or after.
pub open spec fn unsigned_from_text(text: Seq<char>) -> Option<nat> {
    let digits = if text.len() > 0 && text[0] == '+' {
        text.skip(1)
    } else {
        text
    };
    if digits.len() > 0 && all_decimal_digits(digits) {
        Some(decimal_value(digits))
    } else {
        None
    }
}

/// The decimal digits of `n`, without a sign and without leading zeros.
pub open spec fn decimal_text(n: nat) -> Seq<char>
    decreases n,
{
    if n < 10 {
        seq![digit_char(n)]
    } else {
        decimal_text(n / 10).push(digit_char(n % 10))
    }
}

/// The number that `text` denotes as a signed integer: an optional `+` or
/// `-` and then one or more decimal digits, nothing before, between or
/// after.
pub open spec fn signed_from_text(text: Seq<char>) -> Option<int> {
    if text.len() > 0 && text[0] == '-' {
        let digits = text.skip(1);
        if digits.len() > 0 && all_decimal_digits(digits) {
            Some(-(decimal_value(digits) as int))
        } else {
            None
        }
    } else {
        match unsigned_from_text(text) {
            Some(n) => Some(n as int),
            None => None,
        }
    }
}

/// The decimal digits of `x`, with a `-` in front where `x` is negative.
pub open spec fn signed_text(x: int) -> Seq<char> {
    if x < 0 {
        seq!['-'] + decimal_text((-x) as nat)
    } else {
        decimal_text(x as nat)
    }
}

/// What `text` denotes as a `u64`, if it denotes a number in range.
pub open spec fn u64_from_text(text: Seq<char>) -> Option<u64> {
    match unsigned_from_text(text) {
        Some(n) => if n <= u64::MAX {
            Some(n as u64)
        } else {
            None
        },
        None => None,
    }
}

/// `str::parse::<u64>`, which reads an optional `+` followed by decimal
/// digits and fails on anything else, on no digits and on a number that does
/// not fit.
#[verifier::external_body]
fn parse_u64(s: &str) -> (parsed: Option<u64>)
    ensures
        parsed == u64_from_text(s@),
{
    s.parse::<u64>().ok()
}

/// `u64::to_string`, which writes the decimal digits of the number, without
/// a sign and without leading zeros.
#[verifier::external_body]
pub(crate) fn format_u64(x: u64) -> (text: String)
    ensures
        text@ == decimal_text(x as nat),
{
    x.to_string()
}

/// What `text` denotes as an `i64`, if it denotes a number in range.
pub open spec fn i64_from_text(text: Seq<char>) -> Option<i64> {
    match signed_from_text(text) {
        Some(x) => if i64::MIN <= x <= i64::MAX {
            Some(x as i64)
        } else {
            None
        },
        None => None,
    }
}

/// `str::parse::<i64>`, which reads an optional `+` or `-` followed by
/// decimal digits and fails on anything else, on no digits and on a number
/// that does not fit.
#[verifier::external_body]
fn parse_i64(s: &str) -> (parsed: Option<i64>)
    ensures
        parsed == i64_from_text(s@),
{
    s.parse::<i64>().ok()
}

/// `i64::to_string`, which writes the decimal digits of the number without
/// leading zeros, after a `-` where the number is negative.
#[verifier::external_body]
fn format_i64(x: i64) -> (text: String)
    ensures
        text@ == signed_text(x as int),
{
    x.to_string()
}

impl FromTextInput for u64 {
    open spec fn spec_parse(text: Seq<char>) -> Option<u64> {
        u64_from_text(text)
    }

    open spec fn spec_format(self) -> Seq<char> {
        decimal_text(self as nat)
    }

    fn parse(s: &str) -> (parsed: Option<u64>) {
        parse_u64(s)
    }

    fn format(&self) -> (text: String) {
        format_u64(*self)
    }
}

impl FromTextInput for u8 {
    open spec fn spec_parse(text: Seq<char>) -> Option<u8> {
        match unsigned_from_text(text) {
            Some(n) => if n <= u8::MAX {
                Some(n as u8)
            } else {
                None
            },
            None => None,
        }
    }

    open spec fn spec_format(self) -> Seq<char> {
        decimal_text(self as nat)
    }

    fn parse(s: &str) -> (parsed: Option<u8>) {
        match parse_u64(s) {
            Some(n) => if n <= u8::MAX as u64 {
                Some(n as u8)
            } else {
                None
            },
            None => None,
        }
    }

    fn format(&self) -> (text: String) {
        format_u64(*self as u64)
    }
}

impl FromTextInput for u16 {
    open spec fn spec_parse(text: Seq<char>) -> Option<u16> {
        match unsigned_from_text(text) {
            Some(n) => if n <= u16::MAX {
                Some(n as u16)
            } else {
                None
            },
            None => None,
        }
    }

    open spec fn spec_format(self) -> Seq<char> {
        decimal_text(self as nat)
    }

    fn parse(s: &str) -> (parsed: Option<u16>) {
        match parse_u64(s) {
            Some(n) => if n <= u16::MAX as u64 {
                Some(n as u16)
            } else {
                None
            },
            None => None,
        }
    }

    fn format(&self) -> (text: String) {
        format_u64(*self as u64)
    }
}

impl FromTextInput for u32 {
    open spec fn spec_parse(text: Seq<char>) -> Option<u32> {
        match unsigned_from_text(text) {
            Some(n) => if n <= u32::MAX {
                Some(n as u32)
            } else {
                None
            },
            None => None,
        }
    }

    open spec fn spec_format(self) -> Seq<char> {
        decimal_text(self as nat)
    }

    fn parse(s: &str) -> (parsed: Option<u32>) {
        match parse_u64(s) {
            Some(n) => if n <= u32::MAX as u64 {
                Some(n as u32)
            } else {
                None
            },
            None => None,
        }
    }

    fn format(&self) -> (text: String) {
        format_u64(*self as u64)
    }
}

impl FromTextInput for usize {
    open spec fn spec_parse(text: Seq<char>) -> Option<usize> {
        match unsigned_from_text(text) {
            Some(n) => if n <= usize::MAX {
                Some(n as usize)
            } else {
                None
            },
            None => None,
        }
    }

    open spec fn spec_format(self) -> Seq<char> {
        decimal_text(self as nat)
    }

    fn parse(s: &str) -> (parsed: Option<usize>) {
        match parse_u64(s) {
            Some(n) => if n <= usize::MAX as u64 {
                Some(n as usize)
            } else {
                None
            },
            None => None,
        }
    }

    fn format(&self) -> (text: String) {
        format_u64(*self as u64)
    }
}

impl FromTextInput for i64 {
    open spec fn spec_parse(text: Seq<char>) -> Option<i64> {
        i64_from_text(text)
    }

    open spec fn spec_format(self) -> Seq<char> {
        signed_text(self as int)
    }

    fn parse(s: &str) -> (parsed: Option<i64>) {
        parse_i64(s)
    }

    fn format(&self) -> (text: String) {
        format_i64(*self)
    }
}

impl FromTextInput for i8 {
    open spec fn spec_parse(text: Seq<char>) -> Option<i8> {
        match signed_from_text(text) {
            Some(x) => if i8::MIN <= x <= i8::MAX {
                Some(x as i8)
            } else {
                None
            },
            None => None,
        }
    }

    open spec fn spec_format(self) -> Seq<char> {
        signed_text(self as int)
    }

    fn parse(s: &str) -> (parsed: Option<i8>) {
        match parse_i64(s) {
            Some(x) => if i8::MIN as i64 <= x && x <= i8::MAX as i64 {
                Some(x as i8)
            } else {
                None
            },
            None => None,
        }
    }

    fn format(&self) -> (text: String) {
        format_i64(*self as i64)
    }
}

impl FromTextInput for i16 {
    open spec fn spec_parse(text: Seq<char>) -> Option<i16> {
        match signed_from_text(text) {
            Some(x) => if i16::MIN <= x <= i16::MAX {
                Some(x as i16)
            } else {
                None
            },
            None => None,
        }
    }

    open spec fn spec_format(self) -> Seq<char> {
        signed_text(self as int)
    }

    fn parse(s: &str) -> (parsed: Option<i16>) {
        match parse_i64(s) {
            Some(x) => if i16::MIN as i64 <= x && x <= i16::MAX as i64 {
                Some(x as i16)
            } else {
                None
            },
            None => None,
        }
    }

    fn format(&self) -> (text: String) {
        format_i64(*self as i64)
    }
}

impl FromTextInput for i32 {
    open spec fn spec_parse(text: Seq<char>) -> Option<i32> {
        match signed_from_text(text) {
            Some(x) => if i32::MIN <= x <= i32::MAX {
                Some(x as i32)
            } else {
                None
            },
            None => None,
        }
    }

    open spec fn spec_format(self) -> Seq<char> {
        signed_text(self as int)
    }

    fn parse(s: &str) -> (parsed: Option<i32>) {
        match parse_i64(s) {
            Some(x) => if i32::MIN as i64 <= x && x <= i32::MAX as i64 {
                Some(x as i32)
            } else {
                None
            },
            None => None,
        }
    }

    fn format(&self) -> (text: String) {
        format_i64(*self as i64)
    }
}

impl FromTextInput for isize {
    open spec fn spec_parse(text: Seq<char>) -> Option<isize> {
        match signed_from_text(text) {
            Some(x) => if isize::MIN <= x <= isize::MAX {
                Some(x as isize)
            } else {
                None
            },
            None => None,
        }
    }

    open spec fn spec_format(self) -> Seq<char> {
        signed_text(self as int)
    }

    fn parse(s: &str) -> (parsed: Option<isize>) {
        match parse_i64(s) {
            Some(x) => if isize::MIN as i64 <= x && x <= isize::MAX as i64 {
                Some(x as isize)
            } else {
                None
            },
            None => None,
        }
    }

    fn format(&self) -> (text: String) {
        format_i64(*self as i64)
    }
}

/// The digits that display a number are digits, there is at least one of
/// them, and they denote that number.
pub proof fn lemma_decimal_text_denotes(n: nat)
    ensures
        decimal_text(n).len() > 0,
        all_decimal_digits(decimal_text(n)),
        decimal_value(decimal_text(n)) == n,
    decreases n,
{
    if n < 10 {
        assert(decimal_value(decimal_text(n).drop_last()) == 0);
    } else {
        lemma_decimal_text_denotes(n / 10);
        let front = decimal_text(n / 10);
        assert(front.push(digit_char(n % 10)).drop_last() =~= front);
    }
}

/// Among the texts that denote `n`, the digits of `n` are the one that
/// `n` is displayed as: they denote `n`, and no other text is both read as
/// `n` and written for it.
pub proof fn lemma_canonical_unsigned_text(text: Seq<char>, n: nat)
    ensures
        (unsigned_from_text(text) == Some(n) && decimal_text(n) == text) <==> text == decimal_text(n),
{
    if text == decimal_text(n) {
        lemma_decimal_text_denotes(n);
    }
}

/// The same for signed integers: the signed digits of `x` denote `x`.
pub proof fn lemma_canonical_signed_text(text: Seq<char>, x: int)
    ensures
        (signed_from_text(text) == Some(x) && signed_text(x) == text) <==> text == signed_text(x),
{
    if text == signed_text(x) {
        if x < 0 {
            lemma_decimal_text_denotes((-x) as nat);
            assert(text.skip(1) =~= decimal_text((-x) as nat));
        } else {
            lemma_decimal_text_denotes(x as nat);
        }
    }
}

/// A text input over `u64` commits exactly the canonical spellings: `text`
/// is accepted as `x` if and only if it is the decimal digits of `x`. A
/// sign, leading zeros, blanks and the empty text all stay uncommitted.
pub proof fn lemma_u64_accepts_canonical_text(text: Seq<char>, x: u64)
    ensures
        spec_from_input::<u64>(text) == Some(x) <==> text == decimal_text(x as nat),
{
    lemma_canonical_unsigned_text(text, x as nat);
}

/// A text input over `i64` commits exactly the canonical spellings: `text`
/// is accepted as `x` if and only if it is the digits of `x`, after a `-`
/// where `x` is negative. A `+`, leading zeros and `-0` stay uncommitted.
pub proof fn lemma_i64_accepts_canonical_text(text: Seq<char>, x: i64)
    ensures
        spec_from_input::<i64>(text) == Some(x) <==> text == signed_text(x as int),
{
    lemma_canonical_signed_text(text, x as int);
}

} // verus!
