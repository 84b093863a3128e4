//! Text helpers: message prefixes, and decimal integers as the standard
//! library writes and reads them.
use vstd::prelude::*;

verus! {

/// `m` begins with `prefix`.
pub open spec fn starts_with(m: Seq<char>, prefix: Seq<char>) -> bool {
    prefix.len() <= m.len() && m.subrange(0, prefix.len() as int) == prefix
}

/// The character of decimal digit `d`.
pub open spec fn digit_char(d: nat) -> char {
    if d == 0 { '0' }
    else if d == 1 { '1' }
    else if d == 2 { '2' }
    else if d == 3 { '3' }
    else if d == 4 { '4' }
    else if d == 5 { '5' }
    else if d == 6 { '6' }
    else if d == 7 { '7' }
    else if d == 8 { '8' }
    else { '9' }
}

/// The decimal digits of `n`, most significant first, without leading
/// zeros (`0` is written `0`).
pub open spec fn nat_decimal(n: nat) -> Seq<char>
    decreases n,
{
    if n < 10 {
        seq![digit_char(n)]
    } else {
        nat_decimal(n / 10).push(digit_char(n % 10))
    }
}

/// The decimal text of `n`: a `-` before the digits of a negative number.
pub open spec fn int_decimal(n: int) -> Seq<char> {
    if n < 0 {
        seq!['-'] + nat_decimal((-n) as nat)
    } else {
        nat_decimal(n as nat)
    }
}

/// The value of decimal digit character `c`.
pub open spec fn digit_value(c: char) -> int {
    (c as u32) - ('0' as u32)
}

/// `c` is one of `0` to `9`.
pub open spec fn is_digit(c: char) -> bool {
    '0' <= c <= '9'
}

/// The value of the digit string `s`, most significant digit first.
pub open spec fn digits_value(s: Seq<char>) -> int
    decreases s.len(),
{
    if s.len() == 0 {
        0
    } else {
        10 * digits_value(s.drop_last()) + digit_value(s.last())
    }
}

/// What `str::parse::<i64>` reads from `s`: an optional `+` or `-`, then
/// one or more decimal digits, denoting a value in the range of `i64`;
/// anything else is an error.
pub open spec fn parsed_i64(s: Seq<char>) -> Option<i64> {
    let signed = s.len() > 0 && (s[0] == '-' || s[0] == '+');
    let negative = s.len() > 0 && s[0] == '-';
    let body = if signed { s.drop_first() } else { s };
    let magnitude = digits_value(body);
    let value = if negative { -magnitude } else { magnitude };
    if body.len() > 0 && (forall|i: int| 0 <= i < body.len() ==> is_digit(#[trigger] body[i]))
        && i64::MIN <= value <= i64::MAX {
        Some(value as i64)
    } else {
        None
    }
}

/// Writes `n` in decimal with `ToString::to_string`.
#[verifier::external_body]
pub(crate) fn i64_to_string(n: i64) -> (res: String)
    ensures
        res@ == int_decimal(n as int),
{
    n.to_string()
}

/// Reads a decimal `i64` from `s` with `str::parse::<i64>`. On failure the
/// error's debug text is returned; that text is not stated.
#[verifier::external_body]
pub(crate) fn parse_i64(s: &str) -> (res: Result<i64, String>)
    ensures
        res matches Ok(n) ==> parsed_i64(s@) == Some(n),
        res is Err ==> parsed_i64(s@) is None,
{
    match s.parse::<i64>() {
        Ok(n) => Ok(n),
        Err(e) => Err(format!("{e:?}")),
    }
}

} // verus!
