//! Reading values: numbers, coordinates and the literals that nest values
//! (dicts and lists), each as its rule in `grammar` states it.
use vstd::prelude::*;
use crate::text::chars_slice_string;
use crate::io::parse::lex::{tag, char_is, scan, Class, lemma_run_end, char_at};
use crate::io::parse::grammar::{ZVal, models, literal, tag_item, tags, tags_rest, dict, list, list_rest, list_sep,
    number, coord, number_free, entries_free, ident, lemma_list_free, lemma_dict_free, number_end, degrees_end,
    exponent, span};
use crate::io::parse::read::{read_quoted, read_reference, read_run1, read_ident, read_number_end, read_date,
    read_time, read_datetime, read_coord_spans};
use crate::h_val::{HBox, HVal};
use crate::h_dict::{HDict, set_all};
use crate::h_list::HList;
use crate::h_number::{HNumber, HUnit, NumTrait};
use crate::h_coord::HCoord;
use crate::h_str::HStr;
use crate::h_uri::HUri;
use crate::h_na::NA;
use crate::h_null::NULL;
use crate::h_marker::MARKER;
use crate::h_remove::REMOVE;
use crate::h_bool::HBool;

verus! {

/// Why a text could not be read.
#[derive(Debug, PartialEq, Eq, Structural, Clone, Copy)]
pub enum ParseErr {
    /// The text does not follow the grammar.
    NoMatch,
    /// The text of a number follows the grammar, but the numeric type does
    /// not read it.
    BadNumber,
}

/// `str::parse` (`FromStr::from_str`) on the characters of `cs` from `from`
/// to `to`: the number that the numeric type reads from that text. The text
/// handed over is always a whole number of the grammar, from its first
/// character to the end that `number_end` gives (sign, digits, decimals and
/// exponent). Nothing is stated of the outcome: whether the type reads the
/// text, and which number it makes of it, are up to its `FromStr`.
#[verifier::external_body]
fn parse_number_text<T: core::str::FromStr>(cs: &Vec<char>, from: usize, to: usize) -> (r: Option<T>)
    requires
        from <= to <= cs@.len(),
        number_end(cs@, from as int) == Some(to as int),
{
    let text: String = cs[from..to].iter().collect();
    text.parse::<T>().ok()
}

/// Where the degrees of a coordinate end before a `,` or a `)`, they are a
/// whole number of the grammar: no exponent follows them.
proof fn lemma_degrees_whole(s: Seq<char>, p: int, e: int)
    requires
        degrees_end(s, p) == Some(e),
        char_at(s, e, ',') || char_at(s, e, ')'),
    ensures
        number_end(s, p) == Some(e),
{
    assert(exponent(s, e) is None);
}

/// Whether the outcome `r` of reading at a position answers the rule's result
/// `g` in a text of `len` characters: a value the rule states, ending where it
/// ends; nothing where the rule finds nothing; a number the numeric type
/// refuses only where the rule's value holds a number or a coordinate, or the
/// rule finds nothing.
pub open spec fn answers<T, X>(r: Result<Option<(X, usize)>, ParseErr>, g: Option<(ZVal, int)>, len: int, p: int, v: spec_fn(X) -> HVal<T>) -> bool {
    match r {
        Ok(Some((x, e))) => g matches Some((m, f)) && f == e && p < e <= len && models(v(x), m),
        Ok(None) => g is None,
        Err(e) => e == ParseErr::BadNumber && !(g matches Some((m, _)) && number_free(m)),
    }
}

/// Reading further entries keeps those already read.
proof fn lemma_tags_rest_keeps(s: Seq<char>, q: int, acc: Seq<(Seq<char>, ZVal)>)
    ensures
        tags_rest(s, q, acc).0.len() >= acc.len(),
        forall|j: int| 0 <= j < acc.len() ==> #[trigger] tags_rest(s, q, acc).0[j] == acc[j],
    decreases s.len() - q,
{
    if char_at(s, q, ' ') && q + 1 > q {
        match tag_item(s, q + 1) {
            Some((it, e)) => if q < e <= s.len() {
                lemma_tags_rest_keeps(s, e, acc.push(it));
                assert forall|j: int| 0 <= j < acc.len() implies #[trigger] tags_rest(s, q, acc).0[j] == acc[j] by {
                    assert(acc.push(it)[j] == acc[j]);
                }
            },
            None => {},
        }
    }
}

/// Reading further values of a list keeps those already read.
proof fn lemma_list_rest_keeps(s: Seq<char>, q: int, acc: Seq<ZVal>)
    ensures
        list_rest(s, q, acc).0.len() >= acc.len(),
        forall|j: int| 0 <= j < acc.len() ==> #[trigger] list_rest(s, q, acc).0[j] == acc[j],
    decreases s.len() - q,
{
    match list_sep(s, q) {
        Some(q2) => if q < q2 <= s.len() {
            match literal(s, q2) {
                Some((v, e)) => if q < e <= s.len() {
                    lemma_list_rest_keeps(s, e, acc.push(v));
                    assert forall|j: int| 0 <= j < acc.len() implies #[trigger] list_rest(s, q, acc).0[j] == acc[j] by {
                        assert(acc.push(v)[j] == acc[j]);
                    }
                },
                None => {},
            }
        },
        None => {},
    }
}

/// Where the entries from `q` on, after a space, hold no number and end
/// before neither `:` nor a space, the next entry is read and holds no number,
/// and no `:` follows it.
proof fn lemma_tags_next_free(s: Seq<char>, q: int, ms: Seq<(Seq<char>, ZVal)>)
    requires
        char_at(s, q, ' '),
        entries_free(tags_rest(s, q, ms).0),
        !char_at(s, tags_rest(s, q, ms).1, ':'),
        !char_at(s, tags_rest(s, q, ms).1, ' '),
    ensures
        tag_item(s, q + 1) matches Some((it, e)) && number_free(it.1) && !char_at(s, e, ':'),
{
    match tag_item(s, q + 1) {
        Some((it, e)) => {
            if q < e <= s.len() {
                lemma_tags_rest_keeps(s, e, ms.push(it));
                assert(tags_rest(s, q, ms).0[ms.len() as int] == ms.push(it)[ms.len() as int]);
            }
        },
        None => {},
    }
}

/// Where the entries at `p` hold no number and end before no `:`, the first
/// is read and holds no number, and no `:` follows it.
proof fn lemma_tags_first_free(s: Seq<char>, p: int)
    requires
        tags(s, p) matches Some((ms, f)) && entries_free(ms) && !char_at(s, f, ':'),
    ensures
        tag_item(s, p) matches Some((it, e)) && number_free(it.1) && !char_at(s, e, ':'),
{
    let (it, e) = tag_item(s, p).unwrap();
    lemma_tags_rest_keeps(s, e, seq![it]);
    assert(tags(s, p).unwrap().0[0] == seq![it][0]);
}

/// Where the values of a list from `q` on hold no number and end before `]`,
/// and a separator ends at `q2`, the value at `q2` is read and holds no number.
proof fn lemma_list_next_free(s: Seq<char>, q: int, ms: Seq<ZVal>, q2: int)
    requires
        list_sep(s, q) == Some(q2),
        q < q2 <= s.len(),
        !char_at(s, q, ']'),
        number_free(ZVal::List(list_rest(s, q, ms).0)),
        char_at(s, list_rest(s, q, ms).1, ']'),
    ensures
        literal(s, q2) matches Some((m, _)) && number_free(m),
{
    match literal(s, q2) {
        Some((v, e)) => {
            if q < e <= s.len() {
                lemma_list_rest_keeps(s, e, ms.push(v));
                let vs = list_rest(s, q, ms).0;
                assert(vs == list_rest(s, e, ms.push(v)).0);
                assert(vs[ms.len() as int] == ms.push(v)[ms.len() as int]);
                lemma_list_free(vs, ms.len() as int);
            } else {
                assert(list_rest(s, q, ms) == (ms, q));
            }
        },
        None => {
            assert(list_rest(s, q, ms) == (ms, q));
        },
    }
}

/// Where a list at `p` holds no number and its first value does not start
/// with `]`, that value is read and holds no number.
proof fn lemma_list_first_free(s: Seq<char>, p: int)
    requires
        list(s, p) matches Some((m, _)) && number_free(m),
        !char_at(s, p + 1, ']'),
    ensures
        literal(s, p + 1) matches Some((v, _)) && number_free(v),
{
    match literal(s, p + 1) {
        Some((v, e1)) => {
            if p < e1 <= s.len() {
                lemma_list_rest_keeps(s, e1, seq![v]);
                let vs = list_rest(s, e1, seq![v]).0;
                assert(vs[0] == seq![v][0]);
                lemma_list_free(vs, 0);
            }
        },
        None => {},
    }
}

/// Whether `raw` holds the entries that the text states as `ms`.
pub open spec fn entries_model<T>(raw: Seq<(String, HBox<T>)>, ms: Seq<(Seq<char>, ZVal)>) -> bool {
    raw.len() == ms.len() && forall|j: int| #![trigger raw[j]] 0 <= j < raw.len() ==> raw[j].0@ == ms[j].0 && models(*raw[j].1, ms[j].1)
}

/// Whether `items` holds the values that the text states as `ms`.
pub open spec fn items_model<T>(items: Seq<HBox<T>>, ms: Seq<ZVal>) -> bool {
    items.len() == ms.len() && forall|j: int| #![trigger items[j]] 0 <= j < items.len() ==> models(*items[j], ms[j])
}

/// Adding an entry and its statement keeps the entries tied to their statements.
proof fn lemma_entries_push<T>(raw: Seq<(String, HBox<T>)>, ms: Seq<(Seq<char>, ZVal)>, it: (String, HBox<T>), m: (Seq<char>, ZVal))
    requires
        entries_model(raw, ms),
        it.0@ == m.0,
        models(*it.1, m.1),
    ensures
        entries_model(raw.push(it), ms.push(m)),
{
    assert forall|j: int| 0 <= j < raw.len() + 1 implies #[trigger] raw.push(it)[j].0@ == ms.push(m)[j].0 && models(
        *raw.push(it)[j].1,
        ms.push(m)[j].1,
    ) by {
        if j < raw.len() {
            assert(raw.push(it)[j] == raw[j]);
            assert(ms.push(m)[j] == ms[j]);
        } else {
            assert(raw.push(it)[j] == it);
            assert(ms.push(m)[j] == m);
        }
    }
}

/// A dict made by setting entries in order holds what their statements state.
pub proof fn lemma_dict_models<T>(d: HDict<T>, raw: Seq<(String, HBox<T>)>, ms: Seq<(Seq<char>, ZVal)>)
    requires
        d.wf(),
        set_all(Seq::empty(), raw) == d@,
        entries_model(raw, ms),
    ensures
        models(HVal::Dict(d), ZVal::Dict(ms)),
{
    assert(raw.len() == ms.len());
}

/// A list of values holds what their statements state.
proof fn lemma_list_models<T>(l: HList<T>, ms: Seq<ZVal>)
    requires
        items_model(l.inner@, ms),
    ensures
        models(HVal::List(l), ZVal::List(ms)),
{
    assert(l.inner@.len() == ms.len());
}

/// Adding a value and its statement keeps the values tied to their statements.
proof fn lemma_items_push<T>(items: Seq<HBox<T>>, ms: Seq<ZVal>, v: HBox<T>, m: ZVal)
    requires
        items_model(items, ms),
        models(*v, m),
    ensures
        items_model(items.push(v), ms.push(m)),
{
    assert forall|j: int| 0 <= j < items.len() + 1 implies models(#[trigger] *items.push(v)[j], ms.push(m)[j]) by {
        if j < items.len() {
            assert(items.push(v)[j] == items[j]);
            assert(ms.push(m)[j] == ms[j]);
        } else {
            assert(items.push(v)[j] == v);
            assert(ms.push(m)[j] == m);
        }
    }
}

/// A number at `p` (see `number`); its value is what the numeric type reads
/// from its text.
pub fn read_number<T: NumTrait + core::str::FromStr>(cs: &Vec<char>, p: usize) -> (r: Result<Option<(HNumber<T>, usize)>, ParseErr>)
    requires
        p <= cs@.len(),
    ensures
        match r {
            Ok(Some((x, e))) => number(cs@, p as int) matches Some((_, u, f)) && f == e && p < e <= cs@.len()
                && models(HVal::Number(x), ZVal::Number(number(cs@, p as int).unwrap().0, u)),
            Ok(None) => number(cs@, p as int) is None,
            Err(e) => e == ParseErr::BadNumber && number(cs@, p as int) is Some,
        },
{
    match read_number_end(cs, p) {
        None => Ok(None),
        Some(e) => {
            match parse_number_text::<T>(cs, p, e) {
                None => Err(ParseErr::BadNumber),
                Some(v) => match read_run1(cs, e, Class::Unit) {
                    Some(u) => {
                        let unit = HUnit::new(chars_slice_string(cs, e, u));
                        Ok(Some((HNumber::new(v, Some(unit)), u)))
                    },
                    None => Ok(Some((HNumber::new(v, None), e))),
                },
            }
        },
    }
}

/// A coordinate at `p` (see `coord`); its degrees are what the numeric type
/// reads from their texts.
pub fn read_coord<T: NumTrait + core::str::FromStr>(cs: &Vec<char>, p: usize) -> (r: Result<Option<(HCoord<T>, usize)>, ParseErr>)
    requires
        p <= cs@.len(),
    ensures
        match r {
            Ok(Some((x, e))) => coord(cs@, p as int) matches Some((_, _, f)) && f == e && p < e <= cs@.len(),
            Ok(None) => coord(cs@, p as int) is None,
            Err(e) => e == ParseErr::BadNumber && coord(cs@, p as int) is Some,
        },
{
    match read_coord_spans(cs, p) {
        None => Ok(None),
        Some((e1, e2, e)) => {
            proof {
                let s = cs@;
                let d1 = degrees_end(s, p + 2).unwrap();
                let d2 = degrees_end(s, d1 + 1).unwrap();
                assert(span(s, p + 2, d1).len() == span(s, p + 2, e1 as int).len());
                assert(d1 == e1);
                assert(span(s, d1 + 1, d2).len() == span(s, e1 + 1, e2 as int).len());
                lemma_degrees_whole(s, p + 2, e1 as int);
                lemma_degrees_whole(s, e1 + 1, e2 as int);
            }
            match (parse_number_text::<T>(cs, p + 2, e1), parse_number_text::<T>(cs, e1 + 1, e2)) {
                (Some(lat), Some(long)) => Ok(Some((HCoord::new(lat, long), e))),
                _ => Err(ParseErr::BadNumber),
            }
        },
    }
}

/// A literal at `p` (see `literal`).
pub fn read_literal<T: NumTrait + core::str::FromStr>(cs: &Vec<char>, p: usize) -> (r: Result<Option<(HBox<T>, usize)>, ParseErr>)
    requires
        p <= cs@.len(),
    ensures
        answers(r, literal(cs@, p as int), cs@.len() as int, p as int, |x: HBox<T>| *x),
        char_at(cs@, p as int, ']') ==> r is Ok,
    decreases cs@.len() - p, 3int,
{
    let n = cs.len();
    proof {
        reveal_strlit("NA");
        reveal_strlit("C(");
        if char_at(cs@, p as int, ']') && crate::io::parse::lex::at(cs@, p as int, "C("@) {
            assert(cs@.subrange(p as int, p + 2)[0] == cs@[p as int]);
        }
    }
    if tag(cs, p, "NA") {
        return Ok(Some((NA.to_hbox(), p + 2)));
    }
    if char_is(cs, p, 'N') {
        return Ok(Some((NULL.to_hbox(), p + 1)));
    }
    if char_is(cs, p, 'M') {
        return Ok(Some((MARKER.to_hbox(), p + 1)));
    }
    if char_is(cs, p, 'R') {
        return Ok(Some((REMOVE.to_hbox(), p + 1)));
    }
    if char_is(cs, p, 'T') {
        return Ok(Some((HBool(true).to_hbox(), p + 1)));
    }
    if char_is(cs, p, 'F') {
        return Ok(Some((HBool(false).to_hbox(), p + 1)));
    }
    match read_reference(cs, p) {
        Some((x, e)) => {
            return Ok(Some((x.to_hbox(), e)));
        },
        None => {},
    }
    match read_quoted(cs, p, false) {
        Some((t, e)) => {
            return Ok(Some((HStr(t).to_hbox(), e)));
        },
        None => {},
    }
    match read_quoted(cs, p, true) {
        Some((t, e)) => match HUri::new(t.as_str()) {
            Ok(u) => {
                return Ok(Some((u.to_hbox(), e)));
            },
            Err(_) => {},
        },
        None => {},
    }
    match read_datetime(cs, p) {
        Some((x, e)) => {
            return Ok(Some((x.to_hbox(), e)));
        },
        None => {},
    }
    match read_date(cs, p) {
        Some((x, e)) => {
            return Ok(Some((x.to_hbox(), e)));
        },
        None => {},
    }
    match read_time(cs, p) {
        Some((x, e)) => {
            return Ok(Some((x.to_hbox(), e)));
        },
        None => {},
    }
    match read_number::<T>(cs, p)? {
        Some((x, e)) => {
            return Ok(Some((x.to_hbox(), e)));
        },
        None => {},
    }
    match read_coord::<T>(cs, p)? {
        Some((x, e)) => {
            return Ok(Some((x.to_hbox(), e)));
        },
        None => {},
    }
    match read_dict::<T>(cs, p)? {
        Some((x, e)) => {
            return Ok(Some((x.to_hbox(), e)));
        },
        None => {},
    }
    match read_list::<T>(cs, p)? {
        Some((x, e)) => Ok(Some((x.to_hbox(), e))),
        None => Ok(None),
    }
}

/// An entry of a dict at `p` (see `tag_item`).
pub fn read_tag_item<T: NumTrait + core::str::FromStr>(cs: &Vec<char>, p: usize) -> (r: Result<Option<((String, HBox<T>), usize)>, ParseErr>)
    requires
        p <= cs@.len(),
    ensures
        match r {
            Ok(Some(((k, v), e))) => tag_item(cs@, p as int) matches Some(((km, vm), f)) && f == e && p < e <= cs@.len()
                && k@ == km && models(*v, vm),
            Ok(None) => tag_item(cs@, p as int) is None,
            Err(e) => e == ParseErr::BadNumber && !(tag_item(cs@, p as int) matches Some((it, f)) && number_free(it.1)
                && !char_at(cs@, f, ':')),
        },
        tag_item(cs@, p as int) is None ==> r is Ok,
    decreases cs@.len() - p, 1int,
{
    let n = cs.len();
    match read_ident(cs, p) {
        None => Ok(None),
        Some(e) => {
            let key = chars_slice_string(cs, p, e);
            if char_is(cs, e, ':') {
                match read_literal::<T>(cs, e + 1)? {
                    Some((v, e2)) => Ok(Some(((key, v), e2))),
                    None => Ok(Some(((key, MARKER.to_hbox()), e))),
                }
            } else {
                Ok(Some(((key, MARKER.to_hbox()), e)))
            }
        },
    }
}

/// Entries separated by spaces at `p` (see `tags`).
pub fn read_tags<T: NumTrait + core::str::FromStr>(cs: &Vec<char>, p: usize) -> (r: Result<Option<(Vec<(String, HBox<T>)>, usize)>, ParseErr>)
    requires
        p <= cs@.len(),
    ensures
        match r {
            Ok(Some((raw, e))) => tags(cs@, p as int) matches Some((ms, f)) && f == e && p < e <= cs@.len()
                && entries_model(raw@, ms),
            Ok(None) => tags(cs@, p as int) is None,
            Err(e) => e == ParseErr::BadNumber && !(tags(cs@, p as int) matches Some((ms, f)) && entries_free(ms)
                && !char_at(cs@, f, ':') && !char_at(cs@, f, ' ')),
        },
        tag_item(cs@, p as int) is None ==> r is Ok,
    decreases cs@.len() - p, 2int,
{
    let n = cs.len();
    let first_r = read_tag_item::<T>(cs, p);
    match first_r {
        Err(err) => {
            proof {
                if tags(cs@, p as int) matches Some((ms, f)) && entries_free(ms) && !char_at(cs@, f, ':') {
                    lemma_tags_first_free(cs@, p as int);
                }
            }
            return Err(err);
        },
        Ok(_) => {},
    }
    match first_r.unwrap() {
        None => Ok(None),
        Some((it, e)) => {
            let ghost first = tag_item(cs@, p as int).unwrap().0;
            let ghost mut ms: Seq<(Seq<char>, ZVal)> = seq![first];
            let mut raw: Vec<(String, HBox<T>)> = Vec::new();
            raw.push(it);
            let mut q = e;
            let mut more = true;
            proof {
                assert(entries_model(raw@, ms)) by {
                    assert(raw@[0] == it);
                }
            }
            while more
                invariant
                    n == cs@.len(),
                    p < e <= q <= cs@.len(),
                    tags(cs@, p as int) == Some(tags_rest(cs@, e as int, seq![first])),
                    tags_rest(cs@, q as int, ms) == tags_rest(cs@, e as int, seq![first]),
                    entries_model(raw@, ms),
                    !more ==> tags_rest(cs@, q as int, ms) == (ms, q as int),
                decreases cs@.len() - q + if more { 1int } else { 0int },
            {
                if char_is(cs, q, ' ') {
                    let next = read_tag_item::<T>(cs, q + 1);
                    match next {
                        Err(err) => {
                            proof {
                                if tags(cs@, p as int) matches Some((fm, ff)) && entries_free(fm) && !char_at(cs@, ff, ':')
                                    && !char_at(cs@, ff, ' ') {
                                    lemma_tags_next_free(cs@, q as int, ms);
                                }
                            }
                            return Err(err);
                        },
                        Ok(_) => {},
                    }
                    match next.unwrap() {
                        Some((it2, e2)) => {
                            let ghost m2 = tag_item(cs@, q + 1).unwrap().0;
                            proof {
                                assert(tags_rest(cs@, q as int, ms) == tags_rest(cs@, e2 as int, ms.push(m2)));
                                lemma_entries_push(raw@, ms, it2, m2);
                            }
                            raw.push(it2);
                            proof {
                                ms = ms.push(m2);
                            }
                            q = e2;
                        },
                        None => {
                            more = false;
                        },
                    }
                } else {
                    more = false;
                }
            }
            Ok(Some((raw, q)))
        },
    }
}

/// A dict at `p` (see `dict`).
pub fn read_dict<T: NumTrait + core::str::FromStr>(cs: &Vec<char>, p: usize) -> (r: Result<Option<(HDict<T>, usize)>, ParseErr>)
    requires
        p <= cs@.len(),
    ensures
        answers(r, dict(cs@, p as int), cs@.len() as int, p as int, |x: HDict<T>| HVal::Dict(x)),
        r matches Ok(Some((d, _))) ==> d.wf(),
        !char_at(cs@, p as int, '{') ==> r is Ok,
    decreases cs@.len() - p, 2int,
{
    let n = cs.len();
    if !char_is(cs, p, '{') {
        return Ok(None);
    }
    let tr = read_tags::<T>(cs, p + 1);
    match tr {
        Err(err) => {
            proof {
                if dict(cs@, p as int) matches Some((m, _)) && number_free(m) {
                    if tags(cs@, p + 1) is Some {
                        lemma_dict_free(tags(cs@, p + 1).unwrap().0);
                    }
                }
            }
            return Err(err);
        },
        Ok(_) => {},
    }
    let (raw, e) = match tr.unwrap() {
        Some((raw, e)) => (raw, e),
        None => (Vec::new(), p + 1),
    };
    let ghost ms: Seq<(Seq<char>, ZVal)> = match tags(cs@, p + 1) {
        Some((ms, _)) => ms,
        None => seq![],
    };
    if char_is(cs, e, '}') {
        let ghost rs = raw@;
        let d = HDict::from_entries(raw);
        proof {
            assert(entries_model(rs, ms));
            assert(set_all(Seq::<(String, HBox<T>)>::empty(), rs) == d@);
            lemma_dict_models(d, rs, ms);
        }
        Ok(Some((d, e + 1)))
    } else {
        Ok(None)
    }
}

/// A list at `p` (see `list`).
pub fn read_list<T: NumTrait + core::str::FromStr>(cs: &Vec<char>, p: usize) -> (r: Result<Option<(HList<T>, usize)>, ParseErr>)
    requires
        p <= cs@.len(),
    ensures
        answers(r, list(cs@, p as int), cs@.len() as int, p as int, |x: HList<T>| HVal::List(x)),
        !char_at(cs@, p as int, '[') ==> r is Ok,
    decreases cs@.len() - p, 2int,
{
    let n = cs.len();
    if !char_is(cs, p, '[') {
        return Ok(None);
    }
    let mut items: Vec<HBox<T>> = Vec::new();
    let ghost mut ms: Seq<ZVal> = seq![];
    let mut q = p + 1;
    let lr = read_literal::<T>(cs, p + 1);
    match lr {
        Err(err) => {
            proof {
                if list(cs@, p as int) matches Some((m, _)) && number_free(m) {
                    lemma_list_first_free(cs@, p as int);
                }
            }
            return Err(err);
        },
        Ok(_) => {},
    }
    match lr.unwrap() {
        None => {},
        Some((v, e1)) => {
            let ghost first = literal(cs@, p + 1).unwrap().0;
            items.push(v);
            proof {
                ms = seq![first];
                assert(items@[0] == v);
            }
            q = e1;
            let mut more = true;
            while more
                invariant
                    n == cs@.len(),
                    p + 1 < e1 <= q <= cs@.len(),
                    char_at(cs@, p as int, '['),
                    literal(cs@, p + 1) == Some((first, e1 as int)),
                    list_rest(cs@, q as int, ms) == list_rest(cs@, e1 as int, seq![first]),
                    items_model(items@, ms),
                    !more ==> list_rest(cs@, q as int, ms) == (ms, q as int),
                decreases cs@.len() - q + if more { 1int } else { 0int },
            {
                let q1 = scan(cs, q, Class::Space);
                if char_is(cs, q1, ',') {
                    let q2 = scan(cs, q1 + 1, Class::Space);
                    let nr = read_literal::<T>(cs, q2);
                    match nr {
                        Err(err) => {
                            proof {
                                assert(list_sep(cs@, q as int) == Some(q2 as int));
                                if list(cs@, p as int) matches Some((m, _)) && number_free(m) {
                                    lemma_list_next_free(cs@, q as int, ms, q2 as int);
                                }
                            }
                            return Err(err);
                        },
                        Ok(_) => {},
                    }
                    match nr.unwrap() {
                        Some((v2, e2)) => {
                            let ghost m2 = literal(cs@, q2 as int).unwrap().0;
                            proof {
                                assert(list_sep(cs@, q as int) == Some(q2 as int));
                                assert(list_rest(cs@, q as int, ms) == list_rest(cs@, e2 as int, ms.push(m2)));
                                lemma_items_push(items@, ms, v2, m2);
                            }
                            items.push(v2);
                            proof {
                                ms = ms.push(m2);
                            }
                            q = e2;
                        },
                        None => {
                            more = false;
                        },
                    }
                } else {
                    more = false;
                }
            }
        },
    }
    if char_is(cs, q, ']') {
        let l = HList::from_vec(items);
        proof {
            lemma_list_models(l, ms);
        }
        Ok(Some((l, q + 1)))
    } else {
        Ok(None)
    }
}

} // verus!
