//! The Zinc grammar that the reader follows, stated over the characters of the
//! text and positions in it, and the values it describes.
use vstd::prelude::*;
use crate::io::parse::lex::{at, char_at, run_end, Class, radix10, digits_val};
use crate::h_date::valid_ymd;
use crate::h_time::valid_hmsn;
use crate::h_uri::url_serialization;
use crate::h_datetime::{tz_known, offset_in_range};
use crate::h_val::{HBox, HVal};
use crate::h_dict::{HDict, set_all};
use crate::h_number::unit_text;

verus! {

/// A time zone as the text states it: `Z` alone, or an offset in seconds and
/// the name of a zone.
pub enum ZTz {
    Utc,
    Named(Seq<char>, int),
}

/// A value as the Zinc text states it. Numbers are kept as their text, and the
/// entries of a dict in the order they are written, repeated names included.
pub enum ZVal {
    Null,
    Marker,
    Remove,
    NA,
    Bool(bool),
    Ref(Seq<char>, Option<Seq<char>>),
    Str(Seq<char>),
    Uri(Seq<char>),
    DateTime(int, int, int, int, int, int, int, ZTz),
    Date(int, int, int),
    Time(int, int, int, int),
    Number(Seq<char>, Option<Seq<char>>),
    Coord(Seq<char>, Seq<char>),
    Dict(Seq<(Seq<char>, ZVal)>),
    List(Seq<ZVal>),
}

/// The characters `s[p..q]`.
pub open spec fn span(s: Seq<char>, p: int, q: int) -> Seq<char> {
    s.subrange(p, q)
}

/// The character that the escape `\c` stands for in a string literal.
pub open spec fn str_escape(c: char) -> Option<char> {
    if c == 'b' {
        Some('\x08')
    } else if c == 'f' {
        Some('\x0C')
    } else if c == 'n' {
        Some('\n')
    } else if c == 'r' {
        Some('\r')
    } else if c == 't' {
        Some('\t')
    } else if c == '"' || c == '\\' || c == '$' {
        Some(c)
    } else {
        None
    }
}

/// The character that the escape `\c` stands for in a URI literal.
pub open spec fn uri_escape(c: char) -> Option<char> {
    if c == ':' || c == '/' || c == '#' || c == '"' || c == '[' || c == ']' || c == '@' || c == '`' || c == '&'
        || c == '=' || c == ';' || c == '\\' {
        Some(c)
    } else {
        None
    }
}

/// The escape table of a string literal, or of a URI literal.
pub open spec fn escape(uri: bool, c: char) -> Option<char> {
    if uri { uri_escape(c) } else { str_escape(c) }
}

/// The class of characters that stand for themselves in a literal.
pub open spec fn plain(uri: bool) -> Class {
    if uri { Class::UriPlain } else { Class::StrPlain }
}

/// The body of a literal from `p`: escapes and plain characters, as far as
/// they go; the characters they stand for and where the body ends.
pub open spec fn body(s: Seq<char>, p: int, uri: bool) -> (Seq<char>, int)
    decreases s.len() - p,
{
    if 0 <= p && p + 1 < s.len() && s[p] == '\\' && escape(uri, s[p + 1]) is Some {
        let (b, e) = body(s, p + 2, uri);
        (seq![escape(uri, s[p + 1]).unwrap()] + b, e)
    } else if 0 <= p < s.len() && crate::io::parse::lex::in_class(plain(uri), s[p]) {
        let (b, e) = body(s, p + 1, uri);
        (seq![s[p]] + b, e)
    } else {
        (seq![], p)
    }
}

/// A literal between the delimiter `d` at `p`: its characters and its end.
pub open spec fn quoted(s: Seq<char>, p: int, uri: bool) -> Option<(Seq<char>, int)> {
    let d = if uri { '`' } else { '"' };
    if char_at(s, p, d) {
        let (b, e) = body(s, p + 1, uri);
        if char_at(s, e, d) { Some((b, e + 1)) } else { None }
    } else {
        None
    }
}

/// A run of at least one character of class `k` from `p`: its end.
pub open spec fn run1(s: Seq<char>, p: int, k: Class) -> Option<int> {
    let e = run_end(s, p, k);
    if e > p { Some(e) } else { None }
}

/// A reference: `@`, its characters, and a space and a string if they follow.
pub open spec fn reference(s: Seq<char>, p: int) -> Option<(Seq<char>, Option<Seq<char>>, int)> {
    if char_at(s, p, '@') {
        match run1(s, p + 1, Class::RefChar) {
            Some(e) => {
                let id = span(s, p + 1, e);
                if char_at(s, e, ' ') {
                    match quoted(s, e + 1, false) {
                        Some((d, e2)) => Some((id, Some(d), e2)),
                        None => Some((id, None, e)),
                    }
                } else {
                    Some((id, None, e))
                }
            },
            None => None,
        }
    } else {
        None
    }
}

/// An identifier: a lower-case letter, then letters, digits and `_`; its end.
pub open spec fn ident(s: Seq<char>, p: int) -> Option<int> {
    if 0 <= p < s.len() && 'a' <= s[p] <= 'z' {
        Some(run_end(s, p, Class::Word))
    } else {
        None
    }
}

/// An exponent: `e` or `E`, an optional sign, digits; whether it is not
/// negative, and its end.
pub open spec fn exponent(s: Seq<char>, p: int) -> Option<(bool, int)> {
    if char_at(s, p, 'e') || char_at(s, p, 'E') {
        let (pos, q) = if char_at(s, p + 1, '+') {
            (true, p + 2)
        } else if char_at(s, p + 1, '-') {
            (false, p + 2)
        } else {
            (true, p + 1)
        };
        match run1(s, q, Class::Digit) {
            Some(e) => Some((pos, e)),
            None => None,
        }
    } else {
        None
    }
}

/// The end of the text of a number: an optional `-`, digits, an optional
/// fraction and an optional exponent.
pub open spec fn number_end(s: Seq<char>, p: int) -> Option<int> {
    let q = if char_at(s, p, '-') { p + 1 } else { p };
    match run1(s, q, Class::Digit) {
        Some(e1) => {
            let e2 = if char_at(s, e1, '.') && run1(s, e1 + 1, Class::Digit) is Some {
                run1(s, e1 + 1, Class::Digit).unwrap()
            } else {
                e1
            };
            match exponent(s, e2) {
                Some((_, e3)) => Some(e3),
                None => Some(e2),
            }
        },
        None => None,
    }
}

/// A number: its text, its unit if one follows, and its end.
pub open spec fn number(s: Seq<char>, p: int) -> Option<(Seq<char>, Option<Seq<char>>, int)> {
    match number_end(s, p) {
        Some(e) => match run1(s, e, Class::Unit) {
            Some(u) => Some((span(s, p, e), Some(span(s, e, u)), u)),
            None => Some((span(s, p, e), None, e)),
        },
        None => None,
    }
}

/// The value of the `n` characters at `p` read as a base-10 integer that
/// fits in an `i32` (`signed`) or a `u32`.
pub open spec fn field(s: Seq<char>, p: int, n: int, signed: bool) -> Option<int> {
    if 0 <= p && p + n <= s.len() {
        match radix10(span(s, p, p + n), signed) {
            Some(v) => if (signed && i32::MIN <= v <= i32::MAX) || (!signed && 0 <= v <= u32::MAX) {
                Some(v)
            } else {
                None
            },
            None => None,
        }
    } else {
        None
    }
}

/// A date `YYYY-MM-DD` that exists: year, month, day and the end.
pub open spec fn date(s: Seq<char>, p: int) -> Option<(int, int, int, int)> {
    match (field(s, p, 4, true), field(s, p + 5, 2, false), field(s, p + 8, 2, false)) {
        (Some(y), Some(m), Some(d)) => if char_at(s, p + 4, '-') && char_at(s, p + 7, '-') && valid_ymd(y, m, d) {
            Some((y, m, d, p + 10))
        } else {
            None
        },
        _ => None,
    }
}

/// Digits at `p`, if any, as a `u32`: `Some(None)` where there are none,
/// `None` where their value does not fit.
pub open spec fn opt_nanos(s: Seq<char>, p: int) -> Option<(int, int)> {
    match run1(s, p, Class::Digit) {
        Some(e) => if digits_val(span(s, p, e)) <= u32::MAX { Some((digits_val(span(s, p, e)), e)) } else { None },
        None => Some((0, p)),
    }
}

/// A time `hh:mm:ss.` with optional digits of nanoseconds that names a time
/// of day: hour, minute, second, nanosecond and the end.
pub open spec fn time(s: Seq<char>, p: int) -> Option<(int, int, int, int, int)> {
    match (field(s, p, 2, false), field(s, p + 3, 2, false), field(s, p + 6, 2, false)) {
        (Some(h), Some(m), Some(sec)) => if char_at(s, p + 2, ':') && char_at(s, p + 5, ':') && char_at(s, p + 8, '.') {
            match opt_nanos(s, p + 9) {
                Some((n, e)) => if valid_hmsn(h, m, sec, n) {
                    Some((h, m, sec, n, e))
                } else {
                    None
                },
                None => None,
            }
        } else {
            None
        },
        _ => None,
    }
}

/// The name of a zone at `p`: an upper-case letter and the characters of
/// `TzTail`; its end.
pub open spec fn tz_name_end(s: Seq<char>, p: int) -> Option<int> {
    match run1(s, p, Class::Upper) {
        Some(e) => Some(run_end(s, e, Class::TzTail)),
        None => None,
    }
}

/// Two digits at `p` and their value.
pub open spec fn two_digits(s: Seq<char>, p: int) -> Option<int> {
    if 0 <= p && p + 2 <= s.len() && '0' <= s[p] <= '9' && '0' <= s[p + 1] <= '9' {
        Some(digits_val(span(s, p, p + 2)))
    } else {
        None
    }
}

/// A time zone: `±hh:mm` of less than a day and a space and a known zone
/// name; `Z`, a space and a known zone name; or `Z` alone.
#[verifier::opaque]
pub open spec fn timezone(s: Seq<char>, p: int) -> Option<(ZTz, int)> {
    let offset = if (char_at(s, p, '-') || char_at(s, p, '+')) && char_at(s, p + 3, ':') {
        match (two_digits(s, p + 1), two_digits(s, p + 4)) {
            (Some(h), Some(m)) => if offset_in_range(h * 3600 + m * 60) {
                Some((if s[p] == '-' { -1int } else { 1int }) * (h * 3600 + m * 60))
            } else {
                None
            },
            _ => None,
        }
    } else {
        None
    };
    let named_after_offset = match offset {
        Some(o) => if char_at(s, p + 6, ' ') {
            match tz_name_end(s, p + 7) {
                Some(e) => if tz_known(span(s, p + 7, e)) { Some((ZTz::Named(span(s, p + 7, e), o), e)) } else { None },
                None => None,
            }
        } else {
            None
        },
        None => None,
    };
    if named_after_offset is Some {
        named_after_offset
    } else if char_at(s, p, 'Z') {
        if char_at(s, p + 1, ' ') && tz_name_end(s, p + 2) is Some && tz_known(
            span(s, p + 2, tz_name_end(s, p + 2).unwrap()),
        ) {
            let e = tz_name_end(s, p + 2).unwrap();
            Some((ZTz::Named(span(s, p + 2, e), 0), e))
        } else {
            Some((ZTz::Utc, p + 1))
        }
    } else {
        None
    }
}

/// A date-time `YYYY-MM-DDThh:mm:ss`, optional `.` and digits of nanoseconds,
/// and a time zone; the date and time must exist.
pub open spec fn datetime(s: Seq<char>, p: int) -> Option<(ZVal, int)> {
    match (field(s, p, 4, true), field(s, p + 5, 2, false), field(s, p + 8, 2, false)) {
        (Some(y), Some(mo), Some(d)) => match (field(s, p + 11, 2, false), field(s, p + 14, 2, false), field(
            s,
            p + 17,
            2,
            false,
        )) {
            (Some(h), Some(mi), Some(sec)) => if char_at(s, p + 4, '-') && char_at(s, p + 7, '-') && char_at(
                s,
                p + 10,
                'T',
            ) && char_at(s, p + 13, ':') && char_at(s, p + 16, ':') {
                let frac = if char_at(s, p + 19, '.') && run1(s, p + 20, Class::Digit) is Some {
                    let e = run1(s, p + 20, Class::Digit).unwrap();
                    if digits_val(span(s, p + 20, e)) <= u32::MAX {
                        Some((digits_val(span(s, p + 20, e)), e))
                    } else {
                        None
                    }
                } else {
                    Some((0int, p + 19))
                };
                match frac {
                    Some((n, q)) => match timezone(s, q) {
                        Some((tz, e)) => if valid_ymd(y, mo, d) && valid_hmsn(h, mi, sec, n) {
                            Some((ZVal::DateTime(y, mo, d, h, mi, sec, n, tz), e))
                        } else {
                            None
                        },
                        None => None,
                    },
                    None => None,
                }
            } else {
                None
            },
            _ => None,
        },
        _ => None,
    }
}

/// The end of the text of a coordinate's degrees: an optional `-`, digits and
/// an optional fraction.
pub open spec fn degrees_end(s: Seq<char>, p: int) -> Option<int> {
    let q = if char_at(s, p, '-') { p + 1 } else { p };
    match run1(s, q, Class::Digit) {
        Some(e1) => if char_at(s, e1, '.') && run1(s, e1 + 1, Class::Digit) is Some {
            run1(s, e1 + 1, Class::Digit)
        } else {
            Some(e1)
        },
        None => None,
    }
}

/// A coordinate `C(lat,long)`: the texts of both degrees and the end.
pub open spec fn coord(s: Seq<char>, p: int) -> Option<(Seq<char>, Seq<char>, int)> {
    if at(s, p, "C("@) {
        match degrees_end(s, p + 2) {
            Some(e1) => if char_at(s, e1, ',') {
                match degrees_end(s, e1 + 1) {
                    Some(e2) => if char_at(s, e2, ')') {
                        Some((span(s, p + 2, e1), span(s, e1 + 1, e2), e2 + 1))
                    } else {
                        None
                    },
                    None => None,
                }
            } else {
                None
            },
            None => None,
        }
    } else {
        None
    }
}

/// A literal at `p`, trying in order: `NA`, `N`, `M`, `R`, `T`/`F`, a
/// reference, a string, a URI the URL parser accepts, a date-time, a date, a
/// time, a number, a coordinate, a dict and a list. (A nested grid never
/// parses: the grid reader leaves its closing newlines unread.)
pub open spec fn literal(s: Seq<char>, p: int) -> Option<(ZVal, int)>
    decreases s.len() - p, 3int,
{
    if at(s, p, "NA"@) {
        Some((ZVal::NA, p + 2))
    } else if char_at(s, p, 'N') {
        Some((ZVal::Null, p + 1))
    } else if char_at(s, p, 'M') {
        Some((ZVal::Marker, p + 1))
    } else if char_at(s, p, 'R') {
        Some((ZVal::Remove, p + 1))
    } else if char_at(s, p, 'T') {
        Some((ZVal::Bool(true), p + 1))
    } else if char_at(s, p, 'F') {
        Some((ZVal::Bool(false), p + 1))
    } else if reference(s, p) is Some {
        let (id, dis, e) = reference(s, p).unwrap();
        Some((ZVal::Ref(id, dis), e))
    } else if quoted(s, p, false) is Some {
        let (t, e) = quoted(s, p, false).unwrap();
        Some((ZVal::Str(t), e))
    } else if quoted(s, p, true) is Some && url_serialization(quoted(s, p, true).unwrap().0) is Some {
        let (t, e) = quoted(s, p, true).unwrap();
        Some((ZVal::Uri(t), e))
    } else if datetime(s, p) is Some {
        datetime(s, p)
    } else if date(s, p) is Some {
        let (y, m, d, e) = date(s, p).unwrap();
        Some((ZVal::Date(y, m, d), e))
    } else if time(s, p) is Some {
        let (h, m, sec, n, e) = time(s, p).unwrap();
        Some((ZVal::Time(h, m, sec, n), e))
    } else if number(s, p) is Some {
        let (t, u, e) = number(s, p).unwrap();
        Some((ZVal::Number(t, u), e))
    } else if coord(s, p) is Some {
        let (a, b, e) = coord(s, p).unwrap();
        Some((ZVal::Coord(a, b), e))
    } else if dict(s, p) is Some {
        dict(s, p)
    } else {
        list(s, p)
    }
}

/// An entry of a dict at `p`: a name, and `:` and a literal if they follow
/// (else the entry is a marker).
pub open spec fn tag_item(s: Seq<char>, p: int) -> Option<((Seq<char>, ZVal), int)>
    decreases s.len() - p, 1int,
{
    match ident(s, p) {
        Some(e) => {
            if char_at(s, e, ':') && e + 1 > p {
                match literal(s, e + 1) {
                    Some((v, e2)) => Some(((span(s, p, e), v), e2)),
                    None => Some(((span(s, p, e), ZVal::Marker), e)),
                }
            } else {
                Some(((span(s, p, e), ZVal::Marker), e))
            }
        },
        None => None,
    }
}

/// The entries after those in `acc`, each after a space, as far as they go.
pub open spec fn tags_rest(s: Seq<char>, p: int, acc: Seq<(Seq<char>, ZVal)>) -> (Seq<(Seq<char>, ZVal)>, int)
    decreases s.len() - p, 2int,
{
    if char_at(s, p, ' ') && p + 1 > p {
        match tag_item(s, p + 1) {
            Some((it, e)) => if p < e <= s.len() { tags_rest(s, e, acc.push(it)) } else { (acc, p) },
            None => (acc, p),
        }
    } else {
        (acc, p)
    }
}

/// Entries separated by spaces, at least one.
pub open spec fn tags(s: Seq<char>, p: int) -> Option<(Seq<(Seq<char>, ZVal)>, int)>
    decreases s.len() - p, 2int,
{
    match tag_item(s, p) {
        Some((it, e)) => if p < e <= s.len() { Some(tags_rest(s, e, seq![it])) } else { None },
        None => None,
    }
}

/// A dict: `{`, entries if any, `}`.
pub open spec fn dict(s: Seq<char>, p: int) -> Option<(ZVal, int)>
    decreases s.len() - p, 2int,
{
    if char_at(s, p, '{') {
        let (es, e) = match tags(s, p + 1) {
            Some((es, e)) => (es, e),
            None => (seq![], p + 1),
        };
        if char_at(s, e, '}') { Some((ZVal::Dict(es), e + 1)) } else { None }
    } else {
        None
    }
}

/// The position after a list separator at `p`: spaces, `,`, spaces.
pub open spec fn list_sep(s: Seq<char>, p: int) -> Option<int> {
    let q = run_end(s, p, Class::Space);
    if char_at(s, q, ',') { Some(run_end(s, q + 1, Class::Space)) } else { None }
}

/// The elements after those in `acc`, each after a separator, as far as they go.
pub open spec fn list_rest(s: Seq<char>, p: int, acc: Seq<ZVal>) -> (Seq<ZVal>, int)
    decreases s.len() - p, 2int,
{
    match list_sep(s, p) {
        Some(q) => if p < q <= s.len() {
            match literal(s, q) {
                Some((v, e)) => if p < e <= s.len() { list_rest(s, e, acc.push(v)) } else { (acc, p) },
                None => (acc, p),
            }
        } else {
            (acc, p)
        },
        None => (acc, p),
    }
}

/// A list: `[`, literals separated by commas if any, `]`.
pub open spec fn list(s: Seq<char>, p: int) -> Option<(ZVal, int)>
    decreases s.len() - p, 2int,
{
    if char_at(s, p, '[') {
        let (vs, e) = match literal(s, p + 1) {
            Some((v, e1)) => if p < e1 <= s.len() { list_rest(s, e1, seq![v]) } else { (seq![], p + 1) },
            None => (seq![], p + 1),
        };
        if char_at(s, e, ']') { Some((ZVal::List(vs), e + 1)) } else { None }
    } else {
        None
    }
}

/// The offset in seconds of a time zone as the text states it.
pub open spec fn tz_offset(tz: ZTz) -> int {
    match tz {
        ZTz::Utc => 0,
        ZTz::Named(_, o) => o,
    }
}

/// Whether an optional string holds the characters `t`.
pub open spec fn opt_text(a: Option<String>, t: Option<Seq<char>>) -> bool {
    match (a, t) {
        (Some(x), Some(y)) => x@ == y,
        (None, None) => true,
        _ => false,
    }
}

/// Whether the value that the text states holds no number and no
/// coordinate, at any depth: reading it asks nothing of the numeric type.
pub open spec fn number_free(m: ZVal) -> bool
    decreases m,
{
    match m {
        ZVal::Number(_, _) => false,
        ZVal::Coord(_, _) => false,
        ZVal::List(vs) => forall|j: int| #![trigger vs[j]] 0 <= j < vs.len() ==> number_free(vs[j]),
        ZVal::Dict(es) => forall|j: int| #![trigger es[j]] 0 <= j < es.len() ==> number_free(es[j].1),
        _ => true,
    }
}

/// The values of a list that holds no number hold none.
pub proof fn lemma_list_free(vs: Seq<ZVal>, k: int)
    requires
        number_free(ZVal::List(vs)),
        0 <= k < vs.len(),
    ensures
        number_free(vs[k]),
{
    let m = ZVal::List(vs);
    assert(m->List_0 == vs);
    assert(decreases_to!(m => m->List_0));
    assert(decreases_to!(vs => vs[k]));
    assert(decreases_to!(m => vs[k]));
}

/// The values of a dict that holds no number hold none.
pub proof fn lemma_dict_free(es: Seq<(Seq<char>, ZVal)>)
    requires
        number_free(ZVal::Dict(es)),
    ensures
        entries_free(es),
{
    let m = ZVal::Dict(es);
    assert(m->Dict_0 == es);
    assert(decreases_to!(m => m->Dict_0));
    assert forall|k: int| 0 <= k < es.len() implies #[trigger] number_free(es[k].1) by {
        assert(decreases_to!(es => es[k]));
        assert(decreases_to!(es[k] => es[k].1));
        assert(decreases_to!(m => es[k].1));
    }
}

/// Whether no value of the entries holds a number or a coordinate.
pub open spec fn entries_free(es: Seq<(Seq<char>, ZVal)>) -> bool {
    forall|j: int| 0 <= j < es.len() ==> #[trigger] number_free(es[j].1)
}

/// Whether the value `v` is the value that the text states as `m`: the same
/// kind and contents; of a number only its unit, and of a coordinate nothing
/// more, is stated (their values are what the numeric type reads from the
/// text); a URI holds what the URL parser makes of its text; a dict holds its
/// entries as they are set in order (a later entry of the same name replaces
/// the value of an earlier one).
pub open spec fn models<T>(v: HVal<T>, m: ZVal) -> bool
    decreases m,
{
    match m {
        ZVal::Null => v is Null,
        ZVal::Marker => v is Marker,
        ZVal::Remove => v is Remove,
        ZVal::NA => v is NA,
        ZVal::Bool(b) => v matches HVal::Bool(x) && x.0 == b,
        ZVal::Ref(id, dis) => v matches HVal::Ref(r) && r.id@ == id && opt_text(r.dis, dis),
        ZVal::Str(t) => v matches HVal::Str(x) && x@ == t,
        ZVal::Uri(t) => v matches HVal::Uri(u) && url_serialization(t) == Some(u@),
        ZVal::DateTime(y, mo, d, h, mi, sec, n, tz) => v matches HVal::DateTime(x) && x.parts() == (
            y,
            mo,
            d,
            h,
            mi,
            sec,
            n,
        ) && x.tz_spec().offset_spec() == tz_offset(tz),
        ZVal::Date(y, mo, d) => v matches HVal::Date(x) && x.year_spec() == y && x.month_spec() == mo
            && x.day_spec() == d,
        ZVal::Time(h, mi, sec, n) => v matches HVal::Time(x) && x.hour_spec() == h && x.minute_spec() == mi
            && x.second_spec() == sec && x.nano_spec() == n,
        ZVal::Number(_, u) => v matches HVal::Number(x) && match (x.unit_spec(), u) {
            (Some(a), Some(b)) => a@ == b,
            (None, None) => true,
            _ => false,
        },
        ZVal::Coord(_, _) => v is Coord,
        ZVal::Dict(es) => v matches HVal::Dict(d) && d.wf() && exists|raw: Seq<(String, HBox<T>)>|
            #[trigger] set_all(Seq::empty(), raw) == d@ && raw.len() == es.len() && forall|j: int|
                #![trigger raw[j]]
                0 <= j < raw.len() ==> raw[j].0@ == es[j].0 && models(*raw[j].1, es[j].1),
        ZVal::List(vs) => v matches HVal::List(l) && l.inner@.len() == vs.len() && forall|j: int|
            #![trigger l.inner@[j]]
            0 <= j < vs.len() ==> models(*l.inner@[j], vs[j]),
    }
}

} // verus!
