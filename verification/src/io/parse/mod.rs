//! Reading the Zinc text format: numbers, units, dates and times here, the
//! other values in `zinc`.
use vstd::prelude::*;
use vstd::string::StrSliceExecFns;
use crate::text::{str_chars, chars_slice_string};
use crate::common::is_unit_char;
use crate::io::parse::lex::{char_at, Class};
use crate::io::parse::grammar::{run1, exponent, number as number_rule, date as date_rule, time as time_rule, span,
    ZVal, models, ident};
use crate::io::parse::read::{read_run1, read_exponent, read_date, read_time, read_ident};
use crate::io::parse::values::{ParseErr, read_number};
use crate::h_number::{HNumber, HUnit, NumTrait};
use crate::h_date::HDate;
use crate::h_time::HTime;
use crate::h_val::HVal;

pub mod lex;
pub mod grammar;
pub mod read;
pub mod values;
pub mod grids;
pub mod zinc;

verus! {

/// Whether `chr` is a digit of a number that may hold `_` separators: the
/// test asks for an ASCII digit (by the character's lowest byte) that is also
/// `_`, which no character is.
pub fn is_digits(chr: char) -> (r: bool)
    ensures
        !r,
{
    let b: u32 = (chr as u32) % 256;
    (48 <= b && b <= 57) && chr == '_'
}

/// Digits at the front of `input`: the digits, and the run of `is_digits`
/// characters after them (always empty).
pub fn digits(input: &str) -> (r: Result<(&str, (&str, &str)), ParseErr>)
    ensures
        match r {
            Ok((rest, (ds, more))) => run1(input@, 0, Class::Digit) matches Some(e) && ds@ == span(input@, 0, e)
                && more@ == Seq::<char>::empty() && rest@ == input@.skip(e),
            Err(e) => e == ParseErr::NoMatch && run1(input@, 0, Class::Digit) is None,
        },
{
    let cs = str_chars(input);
    match read_run1(&cs, 0, Class::Digit) {
        Some(e) => {
            let ds = input.substring_char(0, e);
            let more = input.substring_char(e, e);
            Ok((input.substring_char(e, cs.len()), (ds, more)))
        },
        None => Err(ParseErr::NoMatch),
    }
}

/// An exponent at the front of `input` (see `exponent`): whether it is not
/// negative, and its digits.
pub fn exp(input: &str) -> (r: Result<(&str, (bool, (&str, &str))), ParseErr>)
    ensures
        match r {
            Ok((rest, (pos, (ds, more)))) => exponent(input@, 0) matches Some((b, e)) && pos == b && rest@
                == input@.skip(e) && ds@ == span(input@, e - ds@.len(), e) && ds@.len() > 0 && more@
                == Seq::<char>::empty(),
            Err(e) => e == ParseErr::NoMatch && exponent(input@, 0) is None,
        },
{
    let cs = str_chars(input);
    match read_exponent(&cs, 0) {
        Some((pos, e)) => {
            let start = if cs.len() > 1 && (cs[1] == '+' || cs[1] == '-') { 2 } else { 1 };
            let ds = input.substring_char(start, e);
            let more = input.substring_char(e, e);
            Ok((input.substring_char(e, cs.len()), (pos, (ds, more))))
        },
        None => Err(ParseErr::NoMatch),
    }
}

/// Whether `c` may appear in the unit of a Zinc number: an ASCII letter, a
/// character from U+0080 up, or one of `%`, `_`, `/`, `$`.
pub fn is_unit(c: char) -> (r: bool)
    ensures
        r == is_unit_char(c),
{
    ('a' <= c && c <= 'z') || ('A' <= c && c <= 'Z') || c >= '\u{80}' || c == '%' || c == '_'
        || c == '/' || c == '$'
}

/// A unit at the front of `input`: the longest run of unit characters, at
/// least one.
pub fn unit(input: &str) -> (r: Result<(&str, HUnit), ParseErr>)
    ensures
        match r {
            Ok((rest, u)) => run1(input@, 0, Class::Unit) matches Some(e) && u@ == span(input@, 0, e) && rest@
                == input@.skip(e),
            Err(e) => e == ParseErr::NoMatch && run1(input@, 0, Class::Unit) is None,
        },
{
    let cs = str_chars(input);
    match read_run1(&cs, 0, Class::Unit) {
        Some(e) => Ok((input.substring_char(e, cs.len()), HUnit::new(chars_slice_string(&cs, 0, e)))),
        None => Err(ParseErr::NoMatch),
    }
}

/// A number at the front of `input` (see the rule `number`): its value is
/// what the numeric type reads from its text, and its unit the unit that
/// follows, if any.
pub fn number<T: NumTrait + core::str::FromStr>(input: &str) -> (r: Result<(&str, HNumber<T>), ParseErr>)
    ensures
        match r {
            Ok((rest, x)) => number_rule(input@, 0) matches Some((t, u, e)) && rest@ == input@.skip(e) && models(
                HVal::Number(x),
                ZVal::Number(t, u),
            ),
            Err(ParseErr::NoMatch) => number_rule(input@, 0) is None,
            Err(ParseErr::BadNumber) => number_rule(input@, 0) is Some,
        },
{
    let cs = str_chars(input);
    match read_number::<T>(&cs, 0) {
        Ok(Some((x, e))) => Ok((input.substring_char(e, cs.len()), x)),
        Ok(None) => Err(ParseErr::NoMatch),
        Err(e) => Err(e),
    }
}

/// A date `YYYY-MM-DD` that exists at the front of `input` (see the rule `date`).
pub fn date(input: &str) -> (r: Result<(&str, HDate), ParseErr>)
    ensures
        match r {
            Ok((rest, x)) => date_rule(input@, 0) matches Some((y, m, d, e)) && x.year_spec() == y && x.month_spec()
                == m && x.day_spec() == d && rest@ == input@.skip(e),
            Err(e) => e == ParseErr::NoMatch && date_rule(input@, 0) is None,
        },
{
    let cs = str_chars(input);
    match read_date(&cs, 0) {
        Some((x, e)) => Ok((input.substring_char(e, cs.len()), x)),
        None => Err(ParseErr::NoMatch),
    }
}

/// A time `hh:mm:ss.` and optional digits of nanoseconds that names a time of
/// day at the front of `input` (see the rule `time`).
pub fn time(input: &str) -> (r: Result<(&str, HTime), ParseErr>)
    ensures
        match r {
            Ok((rest, x)) => time_rule(input@, 0) matches Some((h, m, s, n, e)) && x.hour_spec() == h
                && x.minute_spec() == m && x.second_spec() == s && x.nano_spec() == n && rest@ == input@.skip(e),
            Err(e) => e == ParseErr::NoMatch && time_rule(input@, 0) is None,
        },
{
    let cs = str_chars(input);
    match read_time(&cs, 0) {
        Some((x, e)) => Ok((input.substring_char(e, cs.len()), x)),
        None => Err(ParseErr::NoMatch),
    }
}

/// An identifier at the front of `input` (see `ident`): a lower-case letter,
/// then letters, digits and `_`.
pub fn id(input: &str) -> (r: Result<(&str, &str), ParseErr>)
    ensures
        match r {
            Ok((rest, name)) => ident(input@, 0) matches Some(e) && name@ == span(input@, 0, e) && rest@
                == input@.skip(e),
            Err(e) => e == ParseErr::NoMatch && ident(input@, 0) is None,
        },
{
    let cs = str_chars(input);
    match read_ident(&cs, 0) {
        Some(e) => Ok((input.substring_char(e, cs.len()), input.substring_char(0, e))),
        None => Err(ParseErr::NoMatch),
    }
}

} // verus!
