//! Decimal integer texts: the spec model of std's integer parsers, and
//! the `ParseText` impls for the common integer types.

use vstd::prelude::*;

use crate::bridge::ParseText;

verus! {

/// Whether `c` is one of the ten ASCII decimal digits.
pub open spec fn is_dec_digit(c: char) -> bool {
    '0' as int <= c as int <= '9' as int
}

/// The numeric value of one decimal digit.
pub open spec fn dec_digit_value(c: char) -> int {
    c as int - '0' as int
}

/// The text after an optional leading sign.
pub open spec fn sign_stripped(s: Seq<char>) -> Seq<char> {
    if s.len() > 0 && (s[0] == '+' || s[0] == '-') {
        s.skip(1)
    } else {
        s
    }
}

/// The value of an unsigned run of decimal digits, most significant first.
pub open spec fn digits_value(s: Seq<char>) -> int
    decreases s.len(),
{
    if s.len() == 0 {
        0
    } else {
        digits_value(s.drop_last()) * 10 + dec_digit_value(s.last())
    }
}

/// A signed decimal integer text: an optional `+` or `-` sign followed by
/// at least one decimal digit and nothing else.
pub open spec fn is_signed_int_text(s: Seq<char>) -> bool {
    sign_stripped(s).len() > 0 && (forall|i: int|
        0 <= i < sign_stripped(s).len() ==> is_dec_digit(#[trigger] sign_stripped(s)[i]))
}

/// An unsigned decimal integer text: as the signed form, but a `-` sign
/// is not accepted, not even before a zero.
pub open spec fn is_unsigned_int_text(s: Seq<char>) -> bool {
    is_signed_int_text(s) && !(s.len() > 0 && s[0] == '-')
}

/// The integer a decimal integer text denotes.
pub open spec fn int_of_text(s: Seq<char>) -> int {
    if s.len() > 0 && s[0] == '-' {
        -digits_value(s.skip(1))
    } else {
        digits_value(sign_stripped(s))
    }
}

impl ParseText for i32 {
    open spec fn parse_ok(text: Seq<char>) -> bool {
        is_signed_int_text(text) && i32::MIN <= int_of_text(text) <= i32::MAX
    }

    open spec fn parse_value(text: Seq<char>) -> i32 {
        int_of_text(text) as i32
    }

    fn parse_text(text: &str) -> (r: Result<i32, String>) {
        parse_i32_text(text)
    }
}

impl ParseText for i64 {
    open spec fn parse_ok(text: Seq<char>) -> bool {
        is_signed_int_text(text) && i64::MIN <= int_of_text(text) <= i64::MAX
    }

    open spec fn parse_value(text: Seq<char>) -> i64 {
        int_of_text(text) as i64
    }

    fn parse_text(text: &str) -> (r: Result<i64, String>) {
        parse_i64_text(text)
    }
}

impl ParseText for u32 {
    open spec fn parse_ok(text: Seq<char>) -> bool {
        is_unsigned_int_text(text) && int_of_text(text) <= u32::MAX
    }

    open spec fn parse_value(text: Seq<char>) -> u32 {
        int_of_text(text) as u32
    }

    fn parse_text(text: &str) -> (r: Result<u32, String>) {
        parse_u32_text(text)
    }
}

impl ParseText for u64 {
    open spec fn parse_ok(text: Seq<char>) -> bool {
        is_unsigned_int_text(text) && int_of_text(text) <= u64::MAX
    }

    open spec fn parse_value(text: Seq<char>) -> u64 {
        int_of_text(text) as u64
    }

    fn parse_text(text: &str) -> (r: Result<u64, String>) {
        parse_u64_text(text)
    }
}

/// Relies on `i32::from_str` (std's `FromStr`): it accepts an optional
/// sign followed by decimal digits, exactly when the value fits in the
/// type, and on `Display` of `ParseIntError` for the failure text.
#[verifier::external_body]
fn parse_i32_text(text: &str) -> (r: Result<i32, String>)
    ensures
        (r is Ok) <==> (is_signed_int_text(text@) && i32::MIN <= int_of_text(text@) <= i32::MAX),
        r matches Ok(v) ==> v == int_of_text(text@) as i32,
{
    match <i32 as core::str::FromStr>::from_str(text) {
        Ok(v) => Ok(v),
        Err(e) => Err(format!("{}", e)),
    }
}

/// Relies on `i64::from_str` (std's `FromStr`): it accepts an optional
/// sign followed by decimal digits, exactly when the value fits in the
/// type, and on `Display` of `ParseIntError` for the failure text.
#[verifier::external_body]
fn parse_i64_text(text: &str) -> (r: Result<i64, String>)
    ensures
        (r is Ok) <==> (is_signed_int_text(text@) && i64::MIN <= int_of_text(text@) <= i64::MAX),
        r matches Ok(v) ==> v == int_of_text(text@) as i64,
{
    match <i64 as core::str::FromStr>::from_str(text) {
        Ok(v) => Ok(v),
        Err(e) => Err(format!("{}", e)),
    }
}

/// Relies on `u32::from_str` (std's `FromStr`): it accepts an optional
/// `+` sign followed by decimal digits, exactly when the value fits in the
/// type, and on `Display` of `ParseIntError` for the failure text.
#[verifier::external_body]
fn parse_u32_text(text: &str) -> (r: Result<u32, String>)
    ensures
        (r is Ok) <==> (is_unsigned_int_text(text@) && int_of_text(text@) <= u32::MAX),
        r matches Ok(v) ==> v == int_of_text(text@) as u32,
{
    match <u32 as core::str::FromStr>::from_str(text) {
        Ok(v) => Ok(v),
        Err(e) => Err(format!("{}", e)),
    }
}

/// Relies on `u64::from_str` (std's `FromStr`): it accepts an optional
/// `+` sign followed by decimal digits, exactly when the value fits in the
/// type, and on `Display` of `ParseIntError` for the failure text.
#[verifier::external_body]
fn parse_u64_text(text: &str) -> (r: Result<u64, String>)
    ensures
        (r is Ok) <==> (is_unsigned_int_text(text@) && int_of_text(text@) <= u64::MAX),
        r matches Ok(v) ==> v == int_of_text(text@) as u64,
{
    match <u64 as core::str::FromStr>::from_str(text) {
        Ok(v) => Ok(v),
        Err(e) => Err(format!("{}", e)),
    }
}

} // verus!
