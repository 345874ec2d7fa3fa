//! Decimal integer parsing with the rules of the standard library's
//! `str::parse` for integer types.
use vstd::prelude::*;

verus! {

/// Why a decimal integer could not be parsed.
#[derive(Debug, Clone, Copy, PartialEq, Eq, Structural)]
pub enum IntErrorKind {
    /// The text is empty.
    Empty,
    /// The text holds a character that is not a digit (or a lone sign).
    InvalidDigit,
    /// The value is too large for the integer type.
    PosOverflow,
    /// The value is too small for the integer type.
    NegOverflow,
}

/// An error from parsing a decimal integer.
#[derive(Debug, Clone, Copy, PartialEq, Eq, Structural)]
pub struct ParseIntError {
    /// The cause of the error.
    pub kind: IntErrorKind,
}

/// `c` is one of `0` through `9`.
pub open spec fn is_ascii_digit(c: char) -> bool {
    '0' <= c <= '9'
}

/// The value of the decimal digit `c`.
pub open spec fn digit_value(c: char) -> int {
    c as int - '0' as int
}

/// Reads `ds` as the decimal digits of a magnitude, left to right. The
/// first character that is not a digit gives `InvalidDigit`; the first digit
/// that takes the magnitude past `limit` gives `overflow`.
pub open spec fn scan_digits(ds: Seq<char>, limit: int, overflow: IntErrorKind) -> Result<
    int,
    IntErrorKind,
>
    decreases ds.len(),
{
    if ds.len() == 0 {
        Ok(0)
    } else {
        match scan_digits(ds.drop_last(), limit, overflow) {
            Err(e) => Err(e),
            Ok(v) => if !is_ascii_digit(ds.last()) {
                Err(IntErrorKind::InvalidDigit)
            } else if v * 10 + digit_value(ds.last()) > limit {
                Err(overflow)
            } else {
                Ok(v * 10 + digit_value(ds.last()))
            },
        }
    }
}

/// The result of parsing `s` as an integer of the range `min..=max`: an
/// optional sign (`-` only where `min` is negative) and decimal digits.
pub open spec fn parse_int_spec(s: Seq<char>, min: int, max: int) -> Result<int, IntErrorKind> {
    if s.len() == 0 {
        Err(IntErrorKind::Empty)
    } else if (s[0] == '+' || s[0] == '-') && s.len() == 1 {
        Err(IntErrorKind::InvalidDigit)
    } else if s[0] == '+' {
        scan_digits(s.drop_first(), max, IntErrorKind::PosOverflow)
    } else if s[0] == '-' && min < 0 {
        match scan_digits(s.drop_first(), -min, IntErrorKind::NegOverflow) {
            Ok(v) => Ok(-v),
            Err(e) => Err(e),
        }
    } else {
        scan_digits(s, max, IntErrorKind::PosOverflow)
    }
}

/// A parse result as a value of the spec.
pub open spec fn int_result<T: Integer>(r: Result<T, ParseIntError>) -> Result<int, IntErrorKind> {
    match r {
        Ok(v) => Ok(v as int),
        Err(e) => Err(e.kind),
    }
}

/// A failed scan stays failed however the text goes on.
proof fn lemma_scan_err_extends(ds: Seq<char>, k: int, limit: int, overflow: IntErrorKind)
    requires
        0 <= k <= ds.len(),
        scan_digits(ds.take(k), limit, overflow) is Err,
    ensures
        scan_digits(ds, limit, overflow) == scan_digits(ds.take(k), limit, overflow),
    decreases ds.len() - k,
{
    if k < ds.len() {
        assert(ds.take(k + 1).drop_last() == ds.take(k));
        lemma_scan_err_extends(ds, k + 1, limit, overflow);
    } else {
        assert(ds.take(k) == ds);
    }
}

/// A successful scan stays within its limit.
proof fn lemma_scan_bounded(ds: Seq<char>, limit: int, overflow: IntErrorKind)
    requires
        limit >= 0,
    ensures
        scan_digits(ds, limit, overflow) matches Ok(v) ==> 0 <= v <= limit,
    decreases ds.len(),
{
    if ds.len() > 0 {
        lemma_scan_bounded(ds.drop_last(), limit, overflow);
    }
}

/// A parsed integer lies within the range it was parsed for.
pub proof fn lemma_parse_int_bounded(s: Seq<char>, min: int, max: int)
    requires
        min <= 0 <= max,
    ensures
        parse_int_spec(s, min, max) matches Ok(v) ==> min <= v <= max,
{
    if s.len() > 0 {
        lemma_scan_bounded(s.drop_first(), max, IntErrorKind::PosOverflow);
        lemma_scan_bounded(s.drop_first(), -min, IntErrorKind::NegOverflow);
        lemma_scan_bounded(s, max, IntErrorKind::PosOverflow);
    }
}

/// Scans the characters `start..` of `s` as decimal digits against `limit`.
fn scan_from(s: &str, start: usize, limit: u128, overflow: IntErrorKind) -> (r: Result<
    u128,
    IntErrorKind,
>)
    requires
        start <= s@.len(),
        limit <= u64::MAX,
    ensures
        match r {
            Ok(v) => scan_digits(s@.skip(start as int), limit as int, overflow) == Ok::<int, IntErrorKind>(v as int),
            Err(e) => scan_digits(s@.skip(start as int), limit as int, overflow) == Err::<int, IntErrorKind>(e),
        },
{
    let len = s.unicode_len();
    let ghost ds = s@.skip(start as int);
    let mut i = start;
    let mut v: u128 = 0;
    assert(ds.take(0) == Seq::<char>::empty());
    while i < len
        invariant
            len == s@.len(),
            start <= i <= len,
            ds == s@.skip(start as int),
            limit <= u64::MAX,
            v <= limit,
            scan_digits(ds.take(i - start), limit as int, overflow) == Ok::<int, IntErrorKind>(v as int),
        decreases len - i,
    {
        let c = s.get_char(i);
        proof {
            assert(ds.take(i - start + 1).drop_last() == ds.take(i - start));
            assert(ds.take(i - start + 1).last() == c);
        }
        if !('0' <= c && c <= '9') {
            proof {
                lemma_scan_err_extends(ds, i - start + 1, limit as int, overflow);
            }
            return Err(IntErrorKind::InvalidDigit);
        }
        let d = (c as u32 - '0' as u32) as u128;
        if v * 10 + d > limit {
            proof {
                lemma_scan_err_extends(ds, i - start + 1, limit as int, overflow);
            }
            return Err(overflow);
        }
        v = v * 10 + d;
        i = i + 1;
    }
    proof {
        assert(ds.take(i - start) == ds);
    }
    Ok(v)
}

/// Parses `s` as an integer of the range `min..=max`.
fn parse_in_range(s: &str, min: i128, max: i128) -> (r: Result<i128, IntErrorKind>)
    requires
        -0x8000_0000_0000_0000 <= min <= 0 <= max <= u64::MAX,
    ensures
        match r {
            Ok(v) => parse_int_spec(s@, min as int, max as int) == Ok::<int, IntErrorKind>(v as int) && min <= v <= max,
            Err(e) => parse_int_spec(s@, min as int, max as int) == Err::<int, IntErrorKind>(e),
        },
{
    let len = s.unicode_len();
    if len == 0 {
        return Err(IntErrorKind::Empty);
    }
    let c0 = s.get_char(0);
    if (c0 == '+' || c0 == '-') && len == 1 {
        return Err(IntErrorKind::InvalidDigit);
    }
    if c0 == '+' {
        proof {
            assert(s@.skip(1) == s@.drop_first());
            lemma_scan_bounded(s@.drop_first(), max as int, IntErrorKind::PosOverflow);
        }
        match scan_from(s, 1, max as u128, IntErrorKind::PosOverflow) {
            Ok(v) => Ok(v as i128),
            Err(e) => Err(e),
        }
    } else if c0 == '-' && min < 0 {
        proof {
            assert(s@.skip(1) == s@.drop_first());
            lemma_scan_bounded(s@.drop_first(), -min, IntErrorKind::NegOverflow);
        }
        match scan_from(s, 1, (-min) as u128, IntErrorKind::NegOverflow) {
            Ok(v) => Ok(-(v as i128)),
            Err(e) => Err(e),
        }
    } else {
        proof {
            assert(s@.skip(0) == s@);
            lemma_scan_bounded(s@, max as int, IntErrorKind::PosOverflow);
        }
        match scan_from(s, 0, max as u128, IntErrorKind::PosOverflow) {
            Ok(v) => Ok(v as i128),
            Err(e) => Err(e),
        }
    }
}

/// Parses `s` as an `i32`, as `str::parse::<i32>` does.
pub fn parse_i32(s: &str) -> (r: Result<i32, ParseIntError>)
    ensures
        int_result(r) == parse_int_spec(s@, i32::MIN as int, i32::MAX as int),
{
    match parse_in_range(s, i32::MIN as i128, i32::MAX as i128) {
        Ok(v) => Ok(v as i32),
        Err(kind) => Err(ParseIntError { kind }),
    }
}

/// Parses `s` as a `u32`, as `str::parse::<u32>` does.
pub fn parse_u32(s: &str) -> (r: Result<u32, ParseIntError>)
    ensures
        int_result(r) == parse_int_spec(s@, 0, u32::MAX as int),
{
    match parse_in_range(s, 0, u32::MAX as i128) {
        Ok(v) => Ok(v as u32),
        Err(kind) => Err(ParseIntError { kind }),
    }
}

/// Parses `s` as a `u8`, as `str::parse::<u8>` does.
pub fn parse_u8(s: &str) -> (r: Result<u8, ParseIntError>)
    ensures
        int_result(r) == parse_int_spec(s@, 0, u8::MAX as int),
{
    match parse_in_range(s, 0, u8::MAX as i128) {
        Ok(v) => Ok(v as u8),
        Err(kind) => Err(ParseIntError { kind }),
    }
}

/// Parses `s` as a `u64`, as `str::parse::<u64>` does.
pub fn parse_u64(s: &str) -> (r: Result<u64, ParseIntError>)
    ensures
        int_result(r) == parse_int_spec(s@, 0, u64::MAX as int),
{
    match parse_in_range(s, 0, u64::MAX as i128) {
        Ok(v) => Ok(v as u64),
        Err(kind) => Err(ParseIntError { kind }),
    }
}

} // verus!
