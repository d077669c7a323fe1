//! The two temperature sources' text formats.
//!
//! The filesystem sensor holds an integer count of millidegrees, surrounded
//! by whitespace; a malformed value is an error. The external reporting tool
//! prints a line such as `temp=53.2'C`: the number between the last `=` and
//! the first following `'` is the temperature in degrees; a malformed value
//! reads as 0 °C.

use crate::error::MonitorError;
use crate::text::{
    all_digits, check_digits, digits_value, digits_value_capped, find_first, find_last, first_index,
    is_digit, last_index, lemma_digits_value_nonneg, trim, trim_bounds,
};
use vstd::prelude::*;

verus! {

pub const MINUS: u8 = 0x2d;

pub const PLUS: u8 = 0x2b;

pub const POINT: u8 = 0x2e;

pub const EQUALS: u8 = 0x3d;

pub const QUOTE: u8 = 0x27;

/// The largest whole number of degrees the reporting tool's value is taken
/// at; larger values are taken as this one.
pub const MAX_TOOL_DEGREES: u64 = 1_000_000_000_000;

/// Whether the text starts with a minus sign.
pub open spec fn is_negative(t: Seq<u8>) -> bool {
    t.len() > 0 && t[0] == MINUS
}

/// The text without its leading sign, if it has one.
pub open spec fn unsigned_part(t: Seq<u8>) -> Seq<u8> {
    if t.len() > 0 && (t[0] == MINUS || t[0] == PLUS) {
        t.drop_first()
    } else {
        t
    }
}

/// The integer that `t` spells: an optional sign, then one or more digits.
pub open spec fn int_value(t: Seq<u8>) -> Option<int> {
    let body = unsigned_part(t);
    if body.len() > 0 && all_digits(body) {
        Some(if is_negative(t) { -digits_value(body) } else { digits_value(body) })
    } else {
        None
    }
}

pub open spec fn fits_i64(v: int) -> bool {
    i64::MIN <= v <= i64::MAX
}

/// Division rounding toward zero.
pub open spec fn div_toward_zero(v: int, d: int) -> int {
    if v >= 0 {
        v / d
    } else {
        -((-v) / d)
    }
}

/// The whole degrees in the filesystem sensor's content: its trimmed text
/// read as a 64-bit count of millidegrees, divided by 1000 toward zero.
pub open spec fn sensor_degrees(content: Seq<u8>) -> Option<int> {
    let v = int_value(trim(content));
    if v is Some && fits_i64(v->0) {
        Some(div_toward_zero(v->0, 1000))
    } else {
        None
    }
}

/// The value of digit `k` of a fraction's digits, 0 past its end.
pub open spec fn frac_digit(fp: Seq<u8>, k: int) -> int {
    if k < fp.len() {
        fp[k] - 0x30
    } else {
        0
    }
}

/// The first three digits of a fraction as thousandths.
pub open spec fn frac_millis(fp: Seq<u8>) -> int {
    frac_digit(fp, 0) * 100 + frac_digit(fp, 1) * 10 + frac_digit(fp, 2)
}

/// The digits before the decimal point.
pub open spec fn whole_part(body: Seq<u8>) -> Seq<u8> {
    body.take(first_index(body, POINT))
}

/// The digits after the decimal point, empty where there is no point.
pub open spec fn fraction_part(body: Seq<u8>) -> Seq<u8> {
    let dot = first_index(body, POINT);
    if dot < body.len() {
        body.subrange(dot + 1, body.len() as int)
    } else {
        Seq::empty()
    }
}

/// The decimal number `t` spells (an optional sign, digits, and an optional
/// point with more digits; one digit at least), in thousandths, the digits
/// past the third after the point dropped; whole parts above
/// `MAX_TOOL_DEGREES` are taken at that bound.
pub open spec fn decimal_millis(t: Seq<u8>) -> Option<int> {
    let body = unsigned_part(t);
    let ip = whole_part(body);
    let fp = fraction_part(body);
    if all_digits(ip) && all_digits(fp) && ip.len() + fp.len() > 0 {
        let whole = if digits_value(ip) < MAX_TOOL_DEGREES {
            digits_value(ip)
        } else {
            MAX_TOOL_DEGREES as int
        };
        let m = whole * 1000 + frac_millis(fp);
        Some(if is_negative(t) { -m } else { m })
    } else {
        None
    }
}

/// The part of the reporting tool's output that holds the number: after
/// the last `=` (all of it where there is none), up to the first `'`
/// after that, trimmed.
pub open spec fn reading_text(out: Seq<u8>) -> Seq<u8> {
    let after = out.subrange(last_index(out, EQUALS) + 1, out.len() as int);
    trim(after.take(first_index(after, QUOTE)))
}

/// The temperature, in millidegrees, that the reporting tool's output gives;
/// 0 where its number is malformed.
pub open spec fn tool_millis(out: Seq<u8>) -> int {
    match decimal_millis(reading_text(out)) {
        Some(m) => m,
        None => 0,
    }
}

/// Where the text `s[lo..hi]` starts after its sign, and whether the sign
/// is a minus.
fn skip_sign(s: &[u8], lo: usize, hi: usize) -> (r: (usize, bool))
    requires
        lo <= hi <= s@.len(),
    ensures
        lo <= r.0 <= hi,
        s@.subrange(r.0 as int, hi as int) == unsigned_part(s@.subrange(lo as int, hi as int)),
        r.1 == is_negative(s@.subrange(lo as int, hi as int)),
{
    if lo < hi && (s[lo] == MINUS || s[lo] == PLUS) {
        assert(s@.subrange(lo as int, hi as int).drop_first() =~= s@.subrange(lo + 1, hi as int));
        (lo + 1, s[lo] == MINUS)
    } else {
        (lo, false)
    }
}

/// The whole degrees that the filesystem sensor's content gives: its text,
/// trimmed, is a count of millidegrees.
pub fn get_temp(content: &[u8]) -> (r: Result<i64, MonitorError>)
    ensures
        match sensor_degrees(content@) {
            Some(d) => r == Ok::<i64, MonitorError>(d as i64),
            None => r == Err::<i64, MonitorError>(MonitorError::Parse),
        },
{
    let (lo, hi) = trim_bounds(content, 0, content.len());
    let (start, negative) = skip_sign(content, lo, hi);
    assert(content@.subrange(0, content@.len() as int) =~= content@);
    let ghost body = content@.subrange(start as int, hi as int);
    if start == hi || !check_digits(content, start, hi) {
        return Err(MonitorError::Parse);
    }
    proof {
        lemma_digits_value_nonneg(body);
    }
    let limit: u64 = 0x8000_0000_0000_0000;
    let mag = digits_value_capped(content, start, hi, limit + 1);
    if negative {
        if mag > limit {
            return Err(MonitorError::Parse);
        }
        let milli: i128 = -(mag as i128);
        let d = milli / 1000;
        assert(d == div_toward_zero(milli as int, 1000));
        Ok(d as i64)
    } else {
        if mag >= limit {
            return Err(MonitorError::Parse);
        }
        Ok((mag / 1000) as i64)
    }
}

/// The temperature, in millidegrees, in the reporting tool's output; 0 where
/// the number in it is malformed.
pub fn temperature(out: &[u8]) -> (milli: i64)
    ensures
        milli == tool_millis(out@),
{
    let n = out.len();
    let from = match find_last(out, 0, n, EQUALS) {
        Some(k) => k + 1,
        None => 0,
    };
    assert(out@.subrange(0, n as int) =~= out@);
    let upto = find_first(out, from, n, QUOTE);
    let ghost after = out@.subrange(from as int, n as int);
    assert(after.take(upto - from) =~= out@.subrange(from as int, upto as int));
    let (lo, hi) = trim_bounds(out, from, upto);
    let (start, negative) = skip_sign(out, lo, hi);
    let ghost body = out@.subrange(start as int, hi as int);
    let dot = find_first(out, start, hi, POINT);
    assert(whole_part(body) =~= out@.subrange(start as int, dot as int));
    let frac_lo: usize = if dot < hi { dot + 1 } else { hi };
    assert(fraction_part(body) =~= out@.subrange(frac_lo as int, hi as int));
    if !check_digits(out, start, dot) || !check_digits(out, frac_lo, hi) || (dot == start
        && frac_lo == hi) {
        return 0;
    }
    let ghost fp = out@.subrange(frac_lo as int, hi as int);
    let whole = digits_value_capped(out, start, dot, MAX_TOOL_DEGREES);
    let mut frac: i64 = 0;
    let mut k: usize = 0;
    while k < 3
        invariant
            k <= 3,
            frac_lo <= hi <= out@.len(),
            fp == out@.subrange(frac_lo as int, hi as int),
            all_digits(fp),
            frac == (if k == 0 {
                0
            } else if k == 1 {
                frac_digit(fp, 0)
            } else if k == 2 {
                frac_digit(fp, 0) * 10 + frac_digit(fp, 1)
            } else {
                frac_millis(fp)
            }),
        decreases 3 - k,
    {
        let digit: i64 = if k < hi - frac_lo {
            assert(is_digit(fp[k as int]));
            (out[frac_lo + k] - 0x30) as i64
        } else {
            0
        };
        assert(digit == frac_digit(fp, k as int));
        frac = frac * 10 + digit;
        k = k + 1;
    }
    let m = (whole as i64) * 1000 + frac;
    if negative {
        -m
    } else {
        m
    }
}

} // verus!
