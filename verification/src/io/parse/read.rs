//! Reading the pieces of the Zinc grammar that hold no nested values, each
//! as its rule in `grammar` states it.
use vstd::prelude::*;
use crate::text::{push_char, chars_slice_string};
use crate::io::parse::lex::{tag, char_is, scan, Class, lemma_run_end, radix10_value, digits_value, all_digits,
    is_digit};
use crate::io::parse::grammar::{escape, plain, body, quoted, run1, reference, ident, exponent, number_end, field,
    date, opt_nanos, time, tz_name_end, two_digits, timezone, datetime, degrees_end, coord, span, ZTz, tz_offset};
use crate::h_ref::HRef;
use crate::h_date::HDate;
use crate::h_time::HTime;
use crate::h_datetime::{HDateTime, HTimezone};

verus! {

/// The character that the escape `\c` stands for (see `escape`).
fn escaped(uri: bool, c: char) -> (r: Option<char>)
    ensures
        r == escape(uri, c),
{
    if uri {
        if c == ':' || c == '/' || c == '#' || c == '"' || c == '[' || c == ']' || c == '@' || c == '`' || c
            == '&' || c == '=' || c == ';' || c == '\\' {
            Some(c)
        } else {
            None
        }
    } else {
        if c == 'b' {
            Some('\x08')
        } else if c == 'f' {
            Some('\x0C')
        } else if c == 'n' {
            Some('\n')
        } else if c == 'r' {
            Some('\r')
        } else if c == 't' {
            Some('\t')
        } else if c == '"' || c == '\\' || c == '$' {
            Some(c)
        } else {
            None
        }
    }
}

/// The body of a literal from `p` (see `body`).
pub fn read_body(cs: &Vec<char>, p: usize, uri: bool) -> (r: (String, usize))
    requires
        p <= cs@.len(),
    ensures
        (r.0@, r.1 as int) == body(cs@, p as int, uri),
        p <= r.1 <= cs@.len(),
{
    let _n = cs.len();
    let mut out = String::new();
    let mut q = p;
    let k = if uri { Class::UriPlain } else { Class::StrPlain };
    while q < cs.len()
        invariant
            p <= q <= cs@.len(),
            k == plain(uri),
            out@ + body(cs@, q as int, uri).0 == body(cs@, p as int, uri).0,
            body(cs@, q as int, uri).1 == body(cs@, p as int, uri).1,
        ensures
            p <= q <= cs@.len(),
            out@ + body(cs@, q as int, uri).0 == body(cs@, p as int, uri).0,
            body(cs@, q as int, uri).1 == body(cs@, p as int, uri).1,
            body(cs@, q as int, uri) == (Seq::<char>::empty(), q as int),
        decreases cs@.len() - q,
    {
        if cs[q] == '\\' && q + 1 < cs.len() {
            match escaped(uri, cs[q + 1]) {
                Some(c) => {
                    proof {
                        assert(seq![c] + body(cs@, q + 2, uri).0 == body(cs@, q as int, uri).0);
                        assert(out@.push(c) + body(cs@, q + 2, uri).0 == out@ + (seq![c] + body(cs@, q + 2, uri).0));
                    }
                    push_char(&mut out, c);
                    q = q + 2;
                    continue;
                },
                None => {},
            }
        }
        if crate::io::parse::lex::class_has(k, cs[q]) {
            proof {
                let c = cs@[q as int];
                assert(out@.push(c) + body(cs@, q + 1, uri).0 == out@ + (seq![c] + body(cs@, q + 1, uri).0));
            }
            push_char(&mut out, cs[q]);
            q = q + 1;
        } else {
            break;
        }
    }
    proof {
        assert(out@ + Seq::<char>::empty() == out@);
    }
    (out, q)
}

/// A literal between delimiters at `p` (see `quoted`).
pub fn read_quoted(cs: &Vec<char>, p: usize, uri: bool) -> (r: Option<(String, usize)>)
    requires
        p <= cs@.len(),
    ensures
        match quoted(cs@, p as int, uri) {
            Some((t, e)) => r matches Some((x, f)) && x@ == t && f == e && p < f <= cs@.len(),
            None => r is None,
        },
{
    let _n = cs.len();
    let d = if uri { '`' } else { '"' };
    if char_is(cs, p, d) {
        let (b, e) = read_body(cs, p + 1, uri);
        if char_is(cs, e, d) {
            Some((b, e + 1))
        } else {
            None
        }
    } else {
        None
    }
}

/// A run of at least one character of class `k` (see `run1`).
pub fn read_run1(cs: &Vec<char>, p: usize, k: Class) -> (r: Option<usize>)
    requires
        p <= cs@.len(),
    ensures
        match run1(cs@, p as int, k) {
            Some(e) => r matches Some(f) && f == e,
            None => r is None,
        },
        r matches Some(e) ==> p < e <= cs@.len(),
{
    let _n = cs.len();
    let e = scan(cs, p, k);
    if e > p {
        Some(e)
    } else {
        None
    }
}

/// A reference at `p` (see `reference`).
pub fn read_reference(cs: &Vec<char>, p: usize) -> (r: Option<(HRef, usize)>)
    requires
        p <= cs@.len(),
    ensures
        match reference(cs@, p as int) {
            Some((id, dis, e)) => r matches Some((x, f)) && x.id@ == id && crate::io::parse::grammar::opt_text(
                x.dis,
                dis,
            ) && f == e && p < f <= cs@.len(),
            None => r is None,
        },
{
    let _n = cs.len();
    if !char_is(cs, p, '@') {
        return None;
    }
    match read_run1(cs, p + 1, Class::RefChar) {
        Some(e) => {
            let id = chars_slice_string(cs, p + 1, e);
            if char_is(cs, e, ' ') {
                match read_quoted(cs, e + 1, false) {
                    Some((d, e2)) => Some((HRef::new(id, Some(d)), e2)),
                    None => Some((HRef::new(id, None), e)),
                }
            } else {
                Some((HRef::new(id, None), e))
            }
        },
        None => None,
    }
}

/// An identifier at `p` (see `ident`).
pub fn read_ident(cs: &Vec<char>, p: usize) -> (r: Option<usize>)
    requires
        p <= cs@.len(),
    ensures
        match ident(cs@, p as int) {
            Some(e) => r matches Some(f) && f == e,
            None => r is None,
        },
        r matches Some(e) ==> p < e <= cs@.len(),
{
    let _n = cs.len();
    if p < cs.len() && 'a' <= cs[p] && cs[p] <= 'z' {
        let e = scan(cs, p, Class::Word);
        proof {
            lemma_run_end(cs@, p as int, Class::Word);
            assert(crate::io::parse::lex::in_class(Class::Word, cs@[p as int]));
        }
        Some(e)
    } else {
        None
    }
}

/// An exponent at `p` (see `exponent`).
pub fn read_exponent(cs: &Vec<char>, p: usize) -> (r: Option<(bool, usize)>)
    requires
        p <= cs@.len(),
    ensures
        match exponent(cs@, p as int) {
            Some((b, e)) => r matches Some((c, f)) && c == b && f == e,
            None => r is None,
        },
        r matches Some((_, e)) ==> p < e <= cs@.len(),
{
    let _n = cs.len();
    if char_is(cs, p, 'e') || char_is(cs, p, 'E') {
        let (pos, q) = if char_is(cs, p + 1, '+') {
            (true, p + 2)
        } else if char_is(cs, p + 1, '-') {
            (false, p + 2)
        } else {
            (true, p + 1)
        };
        match read_run1(cs, q, Class::Digit) {
            Some(e) => Some((pos, e)),
            None => None,
        }
    } else {
        None
    }
}

/// The end of the text of a number at `p` (see `number_end`).
pub fn read_number_end(cs: &Vec<char>, p: usize) -> (r: Option<usize>)
    requires
        p <= cs@.len(),
    ensures
        match number_end(cs@, p as int) {
            Some(e) => r matches Some(f) && f == e,
            None => r is None,
        },
        r matches Some(e) ==> p < e <= cs@.len(),
{
    let _n = cs.len();
    let q = if char_is(cs, p, '-') { p + 1 } else { p };
    match read_run1(cs, q, Class::Digit) {
        Some(e1) => {
            let e2 = if char_is(cs, e1, '.') {
                match read_run1(cs, e1 + 1, Class::Digit) {
                    Some(f) => f,
                    None => e1,
                }
            } else {
                e1
            };
            match read_exponent(cs, e2) {
                Some((_, e3)) => Some(e3),
                None => Some(e2),
            }
        },
        None => None,
    }
}

/// The integer in the `n` characters at `p` (see `field`).
pub fn read_field(cs: &Vec<char>, p: usize, n: usize, signed: bool) -> (r: Option<i64>)
    requires
        n <= 4,
    ensures
        match field(cs@, p as int, n as int, signed) {
            Some(v) => r matches Some(w) && w == v,
            None => r is None,
        },
        r matches Some(v) ==> (signed ==> i32::MIN <= v <= i32::MAX) && (!signed ==> 0 <= v <= u32::MAX),
{
    let _n = cs.len();
    if p > cs.len() || n > cs.len() - p {
        return None;
    }
    radix10_value(cs, p, p + n, signed)
}

/// A date at `p` (see `date`).
pub fn read_date(cs: &Vec<char>, p: usize) -> (r: Option<(HDate, usize)>)
    requires
        p <= cs@.len(),
    ensures
        match date(cs@, p as int) {
            Some((y, m, d, e)) => r matches Some((x, f)) && x.year_spec() == y && x.month_spec() == m
                && x.day_spec() == d && f == e && p < f <= cs@.len(),
            None => r is None,
        },
{
    let _n = cs.len();
    if p > cs.len() || 10 > cs.len() - p {
        return None;
    }
    let y = read_field(cs, p, 4, true);
    let m = read_field(cs, p + 5, 2, false);
    let d = read_field(cs, p + 8, 2, false);
    match (y, m, d) {
        (Some(y), Some(m), Some(d)) => {
            if char_is(cs, p + 4, '-') && char_is(cs, p + 7, '-') {
                match HDate::new(y as i32, m as u32, d as u32) {
                    Ok(x) => Some((x, p + 10)),
                    Err(_) => None,
                }
            } else {
                None
            }
        },
        _ => None,
    }
}

/// Digits of nanoseconds at `p`, if any (see `opt_nanos`).
pub fn read_opt_nanos(cs: &Vec<char>, p: usize) -> (r: Option<(u32, usize)>)
    requires
        p <= cs@.len(),
    ensures
        match opt_nanos(cs@, p as int) {
            Some((n, e)) => r matches Some((m, f)) && m == n && f == e,
            None => r is None,
        },
        r matches Some((_, e)) ==> p <= e <= cs@.len(),
{
    let _n = cs.len();
    match read_run1(cs, p, Class::Digit) {
        Some(e) => {
            proof {
                lemma_run_end(cs@, p as int, Class::Digit);
                let t = span(cs@, p as int, e as int);
                assert forall|i: int| 0 <= i < t.len() implies is_digit(#[trigger] t[i]) by {
                    assert(t[i] == cs@[p + i]);
                }
            }
            match digits_value(cs, p, e) {
                Some(v) => {
                    if v <= 4294967295 {
                        Some((v as u32, e))
                    } else {
                        None
                    }
                },
                None => None,
            }
        },
        None => Some((0, p)),
    }
}

/// A time at `p` (see `time`).
pub fn read_time(cs: &Vec<char>, p: usize) -> (r: Option<(HTime, usize)>)
    requires
        p <= cs@.len(),
    ensures
        match time(cs@, p as int) {
            Some((h, m, s, n, e)) => r matches Some((x, f)) && x.hour_spec() == h && x.minute_spec() == m
                && x.second_spec() == s && x.nano_spec() == n && f == e && p < f <= cs@.len(),
            None => r is None,
        },
{
    let _n = cs.len();
    if p > cs.len() || 9 > cs.len() - p {
        return None;
    }
    let h = read_field(cs, p, 2, false);
    let m = read_field(cs, p + 3, 2, false);
    let s = read_field(cs, p + 6, 2, false);
    match (h, m, s) {
        (Some(h), Some(m), Some(s)) => {
            if char_is(cs, p + 2, ':') && char_is(cs, p + 5, ':') && char_is(cs, p + 8, '.') {
                match read_opt_nanos(cs, p + 9) {
                    Some((n, e)) => match HTime::new(h as u32, m as u32, s as u32, n) {
                        Ok(x) => Some((x, e)),
                        Err(_) => None,
                    },
                    None => None,
                }
            } else {
                None
            }
        },
        _ => None,
    }
}

/// The end of a zone name at `p` (see `tz_name_end`).
pub fn read_tz_name_end(cs: &Vec<char>, p: usize) -> (r: Option<usize>)
    requires
        p <= cs@.len(),
    ensures
        match tz_name_end(cs@, p as int) {
            Some(e) => r matches Some(f) && f == e,
            None => r is None,
        },
        r matches Some(e) ==> p < e <= cs@.len(),
{
    let _n = cs.len();
    match read_run1(cs, p, Class::Upper) {
        Some(e) => Some(scan(cs, e, Class::TzTail)),
        None => None,
    }
}

/// Two digits at `p` and their value (see `two_digits`).
pub fn read_two_digits(cs: &Vec<char>, p: usize) -> (r: Option<i32>)
    ensures
        match two_digits(cs@, p as int) {
            Some(v) => r matches Some(w) && w == v,
            None => r is None,
        },
        r matches Some(v) ==> 0 <= v <= 99,
{
    let _n = cs.len();
    if p < cs.len() && cs.len() - p >= 2 && '0' <= cs[p] && cs[p] <= '9' && '0' <= cs[p + 1] && cs[p + 1] <= '9' {
        let ghost t = span(cs@, p as int, p + 2);
        proof {
            reveal_with_fuel(crate::io::parse::lex::digits_val, 3);
            assert(t.drop_last().drop_last() == Seq::<char>::empty());
            assert(t.drop_last().last() == cs@[p as int]);
            assert(t.last() == cs@[p + 1]);
        }
        let v = (cs[p] as u32 - '0' as u32) * 10 + (cs[p + 1] as u32 - '0' as u32);
        Some(v as i32)
    } else {
        None
    }
}

/// A time zone at `p` (see `timezone`).
pub fn read_timezone(cs: &Vec<char>, p: usize) -> (r: Option<(HTimezone, usize)>)
    requires
        p <= cs@.len(),
    ensures
        match timezone(cs@, p as int) {
            Some((tz, e)) => r matches Some((x, f)) && x.offset_spec() == tz_offset(tz) && f == e && p < f
                <= cs@.len(),
            None => r is None,
        },
{
    proof {
        reveal(timezone);
    }
    let _n = cs.len();
    let mut offset: Option<i32> = None;
    if cs.len() - p > 3 && (char_is(cs, p, '-') || char_is(cs, p, '+')) && char_is(cs, p + 3, ':') {
        match (read_two_digits(cs, p + 1), read_two_digits(cs, p + 4)) {
            (Some(h), Some(m)) => {
                if h * 3600 + m * 60 < 86_400 {
                    let sign: i32 = if cs[p] == '-' { -1 } else { 1 };
                    offset = Some(sign * (h * 3600 + m * 60));
                }
            },
            _ => {},
        }
    }
    match offset {
        Some(o) => {
            if char_is(cs, p + 6, ' ') {
                match read_tz_name_end(cs, p + 7) {
                    Some(e) => {
                        let name = chars_slice_string(cs, p + 7, e);
                        match HTimezone::named(name.as_str(), o) {
                            Some(z) => {
                                return Some((z, e));
                            },
                            None => {},
                        }
                    },
                    None => {},
                }
            }
        },
        None => {},
    }
    if char_is(cs, p, 'Z') {
        if char_is(cs, p + 1, ' ') {
            match read_tz_name_end(cs, p + 2) {
                Some(e) => {
                    let name = chars_slice_string(cs, p + 2, e);
                    match HTimezone::named(name.as_str(), 0) {
                        Some(z) => {
                            return Some((z, e));
                        },
                        None => {},
                    }
                },
                None => {},
            }
        }
        Some((HTimezone::utc(), p + 1))
    } else {
        None
    }
}

/// A date-time at `p` (see `datetime`).
pub fn read_datetime(cs: &Vec<char>, p: usize) -> (r: Option<(HDateTime, usize)>)
    requires
        p <= cs@.len(),
    ensures
        match datetime(cs@, p as int) {
            Some((crate::io::parse::grammar::ZVal::DateTime(y, mo, d, h, mi, s, n, tz), e)) => r matches Some((x, f))
                && x.parts() == (y, mo, d, h, mi, s, n) && x.tz_spec().offset_spec() == tz_offset(tz) && f == e
                && p < f <= cs@.len(),
            Some(_) => false,
            None => r is None,
        },
{
    let _n = cs.len();
    if p > cs.len() || 19 > cs.len() - p {
        return None;
    }
    let y = read_field(cs, p, 4, true);
    let mo = read_field(cs, p + 5, 2, false);
    let d = read_field(cs, p + 8, 2, false);
    let h = read_field(cs, p + 11, 2, false);
    let mi = read_field(cs, p + 14, 2, false);
    let s = read_field(cs, p + 17, 2, false);
    match (y, mo, d) {
        (Some(y), Some(mo), Some(d)) => match (h, mi, s) {
            (Some(h), Some(mi), Some(s)) => {
                if char_is(cs, p + 4, '-') && char_is(cs, p + 7, '-') && char_is(cs, p + 10, 'T') && char_is(
                    cs,
                    p + 13,
                    ':',
                ) && char_is(cs, p + 16, ':') {
                    let mut frac: Option<(u32, usize)> = Some((0, p + 19));
                    if char_is(cs, p + 19, '.') {
                        match read_run1(cs, p + 20, Class::Digit) {
                            Some(_) => {
                                frac = read_opt_nanos(cs, p + 20);
                            },
                            None => {},
                        }
                    }
                    match frac {
                        Some((n, q)) => match read_timezone(cs, q) {
                            Some((tz, e)) => match HDateTime::new(
                                y as i32,
                                mo as u32,
                                d as u32,
                                h as u32,
                                mi as u32,
                                s as u32,
                                n,
                                tz,
                            ) {
                                Ok(x) => Some((x, e)),
                                Err(_) => None,
                            },
                            None => None,
                        },
                        None => None,
                    }
                } else {
                    None
                }
            },
            _ => None,
        },
        _ => None,
    }
}

/// The end of the text of degrees at `p` (see `degrees_end`).
pub fn read_degrees_end(cs: &Vec<char>, p: usize) -> (r: Option<usize>)
    requires
        p <= cs@.len(),
    ensures
        match degrees_end(cs@, p as int) {
            Some(e) => r matches Some(f) && f == e,
            None => r is None,
        },
        r matches Some(e) ==> p < e <= cs@.len(),
{
    let _n = cs.len();
    let q = if char_is(cs, p, '-') { p + 1 } else { p };
    match read_run1(cs, q, Class::Digit) {
        Some(e1) => {
            if char_is(cs, e1, '.') {
                match read_run1(cs, e1 + 1, Class::Digit) {
                    Some(f) => Some(f),
                    None => Some(e1),
                }
            } else {
                Some(e1)
            }
        },
        None => None,
    }
}

/// The spans of the degrees of a coordinate at `p` (see `coord`): the ends of
/// the latitude and the longitude, and the end of the coordinate.
pub fn read_coord_spans(cs: &Vec<char>, p: usize) -> (r: Option<(usize, usize, usize)>)
    requires
        p <= cs@.len(),
    ensures
        match coord(cs@, p as int) {
            Some((a, b, e)) => r matches Some((e1, e2, f)) && p + 2 < e1 && e1 + 1 <= e2 && e2 < f && f
                <= cs@.len() && a == span(cs@, p + 2, e1 as int) && b == span(cs@, e1 + 1, e2 as int) && f == e,
            None => r is None,
        },
{
    let _n = cs.len();
    if !tag(cs, p, "C(") {
        proof { reveal_strlit("C("); }
        return None;
    }
    proof { reveal_strlit("C("); }
    match read_degrees_end(cs, p + 2) {
        Some(e1) => {
            if char_is(cs, e1, ',') {
                match read_degrees_end(cs, e1 + 1) {
                    Some(e2) => {
                        if char_is(cs, e2, ')') {
                            Some((e1, e2, e2 + 1))
                        } else {
                            None
                        }
                    },
                    None => None,
                }
            } else {
                None
            }
        },
        None => None,
    }
}

} // verus!
