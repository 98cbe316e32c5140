//! Reading grids: their version line, metadata and columns, as the Zinc
//! grammar of the reader states them.
use vstd::prelude::*;
use crate::text::{chars_slice_string, to_owned_string};
use crate::io::parse::lex::{tag, char_is, scan, Class, at, char_at, run_end};
use crate::io::parse::grammar::{ZVal, models, tags, ident, run1, span, entries_free, tag_item};
use crate::io::parse::read::{read_run1, read_ident};
use crate::io::parse::values::{ParseErr, read_tags, entries_model};
use crate::h_val::{HBox, HVal};
use crate::h_dict::{HDict, set_all, set_entry, lookup, unique_keys, lemma_set_entry, lemma_set_all_unique};
use crate::h_number::NumTrait;
use crate::h_grid::HGrid;

verus! {

/// The value of the last of the stated entries named `k`, if any.
pub open spec fn last_val(es: Seq<(Seq<char>, ZVal)>, k: Seq<char>) -> Option<ZVal>
    decreases es.len(),
{
    if es.len() == 0 {
        None
    } else if es.last().0 == k {
        Some(es.last().1)
    } else {
        last_val(es.drop_last(), k)
    }
}

/// In a dict made by setting entries in order, a name holds the value of the
/// last entry of that name.
pub proof fn lemma_lookup_last<T>(raw: Seq<(String, HBox<T>)>, ms: Seq<(Seq<char>, ZVal)>, k: Seq<char>)
    requires
        entries_model(raw, ms),
    ensures
        unique_keys(set_all(Seq::empty(), raw)),
        match last_val(ms, k) {
            Some(m) => lookup(set_all(Seq::empty(), raw), k) matches Some(v) && models(*v, m),
            None => lookup(set_all(Seq::empty(), raw), k) is None,
        },
    decreases raw.len(),
{
    let e: Seq<(String, HBox<T>)> = Seq::empty();
    lemma_set_all_unique(e, raw);
    if raw.len() == 0 {
    } else {
        let r0 = raw.drop_last();
        let m0 = ms.drop_last();
        assert(entries_model(r0, m0)) by {
            assert forall|j: int| 0 <= j < r0.len() implies #[trigger] r0[j].0@ == m0[j].0 && models(*r0[j].1, m0[j].1) by {
                assert(r0[j] == raw[j]);
                assert(m0[j] == ms[j]);
            }
        }
        lemma_lookup_last(r0, m0, k);
        lemma_set_entry(set_all(e, r0), raw.last().0, raw.last().1);
        assert(raw.last() == raw[raw.len() - 1]);
        assert(ms.last() == ms[ms.len() - 1]);
    }
}

/// The upper-case form of the letters of `nan` and `infinity`.
pub open spec fn upper_of(d: char) -> char {
    if d == 'a' {
        'A'
    } else if d == 'f' {
        'F'
    } else if d == 'i' {
        'I'
    } else if d == 'n' {
        'N'
    } else if d == 't' {
        'T'
    } else if d == 'y' {
        'Y'
    } else {
        d
    }
}

/// Whether `t`, written in the letters of `nan` and `infinity`, stands at
/// `p` in any case of its letters.
pub open spec fn at_nocase(s: Seq<char>, p: int, t: Seq<char>) -> bool {
    0 <= p && p + t.len() <= s.len() && forall|i: int|
        0 <= i < t.len() ==> s[p + i] == t[i] || s[p + i] == upper_of(t[i])
}

/// The upper-case form of the letters of `nan` and `infinity`.
fn upper(d: char) -> (r: char)
    ensures
        r == upper_of(d),
{
    if d == 'a' {
        'A'
    } else if d == 'f' {
        'F'
    } else if d == 'i' {
        'I'
    } else if d == 'n' {
        'N'
    } else if d == 't' {
        'T'
    } else if d == 'y' {
        'Y'
    } else {
        d
    }
}

/// The end of a floating-point number at `p`: an optional sign, digits with
/// an optional fraction or a fraction alone, and an exponent whose digits
/// must follow its `e`; else `nan`, `infinity` or `inf` in any case.
pub open spec fn float_end(s: Seq<char>, p: int) -> Option<int> {
    let q = if char_at(s, p, '+') || char_at(s, p, '-') { p + 1 } else { p };
    let mantissa = match run1(s, q, Class::Digit) {
        Some(e1) => if char_at(s, e1, '.') { Some(run_end(s, e1 + 1, Class::Digit)) } else { Some(e1) },
        None => if char_at(s, q, '.') { run1(s, q + 1, Class::Digit) } else { None },
    };
    match mantissa {
        Some(m) => if char_at(s, m, 'e') || char_at(s, m, 'E') {
            let q2 = if char_at(s, m + 1, '+') || char_at(s, m + 1, '-') { m + 2 } else { m + 1 };
            run1(s, q2, Class::Digit)
        } else {
            Some(m)
        },
        None => if at_nocase(s, p, "nan"@) {
            Some(p + 3)
        } else if at_nocase(s, p, "infinity"@) {
            Some(p + 8)
        } else if at_nocase(s, p, "inf"@) {
            Some(p + 3)
        } else {
            None
        },
    }
}

/// A grid with no columns: `ver:"` and a number and `"`, a space and
/// metadata if they follow, then a line `empty` and only line feeds to the
/// end. The metadata and where the `\nempty` line starts.
pub open spec fn grid(s: Seq<char>, p: int) -> Option<(Option<Seq<(Seq<char>, ZVal)>>, int)> {
    if at(s, p, "ver:\""@) {
        match float_end(s, p + 5) {
            Some(v) => if char_at(s, v, '"') {
                let q = v + 1;
                let (meta, r) = match run1(s, q, Class::Space) {
                    Some(e) => match tags(s, e) {
                        Some((es, e2)) => (Some(es), e2),
                        None => (None, q),
                    },
                    None => (None, q),
                };
                if at(s, r, "\nempty"@) && run1(s, r + 6, Class::Newline) == Some(s.len() as int) {
                    Some((meta, r))
                } else {
                    None
                }
            } else {
                None
            },
            None => None,
        }
    } else {
        None
    }
}

/// The metadata entries that the error grid rule reads at `p`: those after
/// `ver:"3.0"` and spaces, where they read (none where they do not).
pub open spec fn err_meta(s: Seq<char>, p: int) -> Seq<(Seq<char>, ZVal)> {
    match run1(s, p + 9, Class::Space) {
        Some(e) => match tags(s, e) {
            Some((es, _)) => es,
            None => seq![],
        },
        None => seq![],
    }
}

/// Whether stated metadata, if there is any, holds no number or coordinate.
pub open spec fn meta_free(m: Option<Seq<(Seq<char>, ZVal)>>) -> bool {
    match m {
        Some(es) => entries_free(es),
        None => true,
    }
}

/// An error grid: `ver:"3.0"`, spaces, metadata and a line feed, then a line
/// `empty` and only line feeds to the end; the metadata must name strings
/// `dis` and `errTrace`. Their values and where the `empty` line starts.
pub open spec fn grid_err(s: Seq<char>, p: int) -> Option<(Seq<char>, Seq<char>, int)> {
    if at(s, p, "ver:\"3.0\""@) {
        match run1(s, p + 9, Class::Space) {
            Some(e) => match tags(s, e) {
                Some((es, e2)) => if char_at(s, e2, '\n') && at(s, e2 + 1, "empty"@) && run1(
                    s,
                    e2 + 6,
                    Class::Newline,
                ) == Some(s.len() as int) {
                    match (last_val(es, "dis"@), last_val(es, "errTrace"@)) {
                        (Some(ZVal::Str(d)), Some(ZVal::Str(t))) => Some((d, t, e2 + 1)),
                        _ => None,
                    }
                } else {
                    None
                },
                None => None,
            },
            None => None,
        }
    } else {
        None
    }
}

/// A column: a name, spaces, and metadata if it follows.
pub open spec fn col_item(s: Seq<char>, p: int) -> Option<((Seq<char>, Option<Seq<(Seq<char>, ZVal)>>), int)> {
    match ident(s, p) {
        Some(e) => match run1(s, e, Class::Space) {
            Some(e2) => match tags(s, e2) {
                Some((es, e3)) => Some(((span(s, p, e), Some(es)), e3)),
                None => Some(((span(s, p, e), None), e2)),
            },
            None => None,
        },
        None => None,
    }
}

/// The columns after those in `acc`, each after a comma, as far as they go.
pub open spec fn cols_rest(s: Seq<char>, p: int, acc: Seq<(Seq<char>, Option<Seq<(Seq<char>, ZVal)>>)>) -> (Seq<(Seq<char>, Option<Seq<(Seq<char>, ZVal)>>)>, int)
    decreases s.len() - p,
{
    if char_at(s, p, ',') {
        match col_item(s, p + 1) {
            Some((c, e)) => if p < e <= s.len() { cols_rest(s, e, acc.push(c)) } else { (acc, p) },
            None => (acc, p),
        }
    } else {
        (acc, p)
    }
}

/// Columns separated by commas, at least one.
pub open spec fn cols(s: Seq<char>, p: int) -> Option<(Seq<(Seq<char>, Option<Seq<(Seq<char>, ZVal)>>)>, int)> {
    match col_item(s, p) {
        Some((c, e)) => if p < e <= s.len() { Some(cols_rest(s, e, seq![c])) } else { None },
        None => None,
    }
}

/// Whether the columns stated hold no number or coordinate in their metadata.
pub open spec fn cols_free(ms: Seq<(Seq<char>, Option<Seq<(Seq<char>, ZVal)>>)>) -> bool {
    forall|j: int| 0 <= j < ms.len() ==> #[trigger] meta_free(ms[j].1)
}

/// Whether a column can end at `f`: no `:`, space or lower-case letter
/// stands there to continue it.
pub open spec fn col_end_ok(s: Seq<char>, f: int) -> bool {
    !char_at(s, f, ':') && !char_at(s, f, ' ') && !(0 <= f < s.len() && 'a' <= s[f] <= 'z')
}

/// Reading further columns keeps those already read.
proof fn lemma_cols_rest_keeps(s: Seq<char>, q: int, acc: Seq<(Seq<char>, Option<Seq<(Seq<char>, ZVal)>>)>)
    ensures
        cols_rest(s, q, acc).0.len() >= acc.len(),
        forall|j: int| 0 <= j < acc.len() ==> #[trigger] cols_rest(s, q, acc).0[j] == acc[j],
    decreases s.len() - q,
{
    if char_at(s, q, ',') {
        match col_item(s, q + 1) {
            Some((c, e)) => if q < e <= s.len() {
                lemma_cols_rest_keeps(s, e, acc.push(c));
                assert forall|j: int| 0 <= j < acc.len() implies #[trigger] cols_rest(s, q, acc).0[j] == acc[j] by {
                    assert(acc.push(c)[j] == acc[j]);
                }
            },
            None => {},
        }
    }
}

/// Where the columns from `q` on, after a comma, hold no number and end
/// where no column continues and no comma stands, the next column is read,
/// holds no number, and ends where no column continues.
proof fn lemma_cols_next_free(s: Seq<char>, q: int, ms: Seq<(Seq<char>, Option<Seq<(Seq<char>, ZVal)>>)>)
    requires
        char_at(s, q, ','),
        cols_free(cols_rest(s, q, ms).0),
        col_end_ok(s, cols_rest(s, q, ms).1),
        !char_at(s, cols_rest(s, q, ms).1, ','),
    ensures
        col_item(s, q + 1) matches Some((c, e)) && meta_free(c.1) && col_end_ok(s, e),
{
    match col_item(s, q + 1) {
        Some((c, e)) => {
            if q < e <= s.len() {
                lemma_cols_rest_keeps(s, e, ms.push(c));
                assert(cols_rest(s, q, ms).0[ms.len() as int] == ms.push(c)[ms.len() as int]);
            }
        },
        None => {},
    }
}

/// Where the columns at `p` hold no number and end where no column continues
/// and no comma stands, the first is read, holds no number, and ends where no
/// column continues.
proof fn lemma_cols_first_free(s: Seq<char>, p: int)
    requires
        cols(s, p) matches Some((ms, f)) && cols_free(ms) && col_end_ok(s, f) && !char_at(s, f, ','),
    ensures
        col_item(s, p) matches Some((c, e)) && meta_free(c.1) && col_end_ok(s, e),
{
    let (c, e) = col_item(s, p).unwrap();
    lemma_cols_rest_keeps(s, e, seq![c]);
    assert(cols(s, p).unwrap().0[0] == seq![c][0]);
}

/// Whether the optional dict `d` holds the optional stated entries `m`.
pub open spec fn meta_models<T>(d: Option<HDict<T>>, m: Option<Seq<(Seq<char>, ZVal)>>) -> bool {
    match (d, m) {
        (Some(x), Some(es)) => models(HVal::Dict(x), ZVal::Dict(es)),
        (None, None) => true,
        _ => false,
    }
}

/// The end of a floating-point number at `p` (see `float_end`).
pub fn read_float_end(cs: &Vec<char>, p: usize) -> (r: Option<usize>)
    requires
        p <= cs@.len(),
    ensures
        match float_end(cs@, p as int) {
            Some(e) => r matches Some(f) && f == e && f <= cs@.len(),
            None => r is None,
        },
{
    let n = cs.len();
    let q = if char_is(cs, p, '+') || char_is(cs, p, '-') { p + 1 } else { p };
    let mantissa = match read_run1(cs, q, Class::Digit) {
        Some(e1) => if char_is(cs, e1, '.') { Some(scan(cs, e1 + 1, Class::Digit)) } else { Some(e1) },
        None => if char_is(cs, q, '.') { read_run1(cs, q + 1, Class::Digit) } else { None },
    };
    match mantissa {
        Some(m) => {
            if char_is(cs, m, 'e') || char_is(cs, m, 'E') {
                let q2 = if char_is(cs, m + 1, '+') || char_is(cs, m + 1, '-') { m + 2 } else { m + 1 };
                read_run1(cs, q2, Class::Digit)
            } else {
                Some(m)
            }
        },
        None => {
            if tag_nocase(cs, p, "nan") {
                proof { reveal_strlit("nan"); }
                Some(p + 3)
            } else if tag_nocase(cs, p, "infinity") {
                proof { reveal_strlit("nan"); reveal_strlit("infinity"); }
                Some(p + 8)
            } else if tag_nocase(cs, p, "inf") {
                proof { reveal_strlit("nan"); reveal_strlit("infinity"); reveal_strlit("inf"); }
                Some(p + 3)
            } else {
                proof { reveal_strlit("nan"); reveal_strlit("infinity"); reveal_strlit("inf"); }
                None
            }
        },
    }
}

/// Whether the lower-case ASCII letters `t` stand at `p` in any case.
fn tag_nocase(cs: &Vec<char>, p: usize, t: &str) -> (r: bool)
    ensures
        r == at_nocase(cs@, p as int, t@),
{
    let tc = crate::text::str_chars(t);
    if tc.len() > cs.len() || p > cs.len() - tc.len() {
        return false;
    }
    let n = cs.len();
    let mut i: usize = 0;
    while i < tc.len()
        invariant
            n == cs@.len(),
            tc@ == t@,
            p + tc@.len() <= cs@.len(),
            i <= tc@.len(),
            forall|j: int| 0 <= j < i ==> cs@[p + j] == tc@[j] || cs@[p + j] == upper_of(tc@[j]),
        decreases tc@.len() - i,
    {
        let c = cs[p + i];
        let d = tc[i];
        let ok = c == d || c == upper(d);
        if !ok {
            assert(!(cs@[p + i] == t@[i as int] || cs@[p + i] == upper_of(t@[i as int])));
            return false;
        }
        i = i + 1;
    }
    true
}

/// A grid with no columns at `p` (see `grid`).
#[verifier::rlimit(40)]
#[verifier::spinoff_prover]
pub fn read_grid<T: NumTrait + core::str::FromStr>(cs: &Vec<char>, p: usize) -> (r: Result<Option<(HGrid<T>, usize)>, ParseErr>)
    requires
        p <= cs@.len(),
    ensures
        match r {
            Ok(Some((g, e))) => grid(cs@, p as int) matches Some((m, f)) && f == e && e <= cs@.len() && (
            g matches HGrid::Empty { meta } && meta_models(meta, m)),
            Ok(None) => grid(cs@, p as int) is None,
            Err(e) => e == ParseErr::BadNumber && !(grid(cs@, p as int) matches Some((m, _)) && meta_free(m)),
        },
{
    let n = cs.len();
    proof { reveal_strlit("ver:\""); reveal_strlit("\nempty"); }
    if !tag(cs, p, "ver:\"") {
        return Ok(None);
    }
    let v = match read_float_end(cs, p + 5) {
        Some(v) => v,
        None => {
            return Ok(None);
        },
    };
    if !char_is(cs, v, '"') {
        return Ok(None);
    }
    let q = v + 1;
    let mut meta: Option<HDict<T>> = None;
    let mut r = q;
    match read_run1(cs, q, Class::Space) {
        Some(e) => match {
            let tr = read_tags::<T>(cs, e);
            match tr {
                Err(err) => {
                    proof {
                        reveal_strlit("\nempty");
                        if grid(cs@, p as int) matches Some((m, _)) && meta_free(m) {
                            let rr = grid(cs@, p as int).unwrap().1;
                            assert(at(cs@, rr, "\nempty"@));
                            assert(cs@[rr] == cs@.subrange(rr, rr + 6)[0]);
                        }
                    }
                    return Err(err);
                },
                Ok(x) => x,
            }
        } {
            Some((raw, e2)) => {
                let ghost rs = raw@;
                let ghost es = tags(cs@, e as int).unwrap().0;
                let d = HDict::from_entries(raw);
                proof {
                    crate::io::parse::values::lemma_dict_models(d, rs, es);
                }
                meta = Some(d);
                r = e2;
            },
            None => {},
        },
        None => {},
    }
    if tag(cs, r, "\nempty") {
        match read_run1(cs, r + 6, Class::Newline) {
            Some(f) => {
                if f == cs.len() {
                    return Ok(Some((HGrid::Empty { meta }, r)));
                }
            },
            None => {},
        }
    }
    Ok(None)
}

/// The string value of the entry named `key`, if it is a string.
fn string_entry<T>(d: &HDict<T>, key: &str) -> (r: Option<String>)
    requires
        d.wf(),
    ensures
        match lookup(d@, key@) {
            Some(v) => match *v {
                HVal::Str(s) => r matches Some(x) && x@ == s@,
                _ => r is None,
            },
            None => r is None,
        },
{
    match d.get(key) {
        Some(v) => match &**v {
            HVal::Str(s) => Some(s.clone_into_string()),
            _ => None,
        },
        None => None,
    }
}

/// An error grid at `p` (see `grid_err`).
pub fn read_grid_err<T: NumTrait + core::str::FromStr>(cs: &Vec<char>, p: usize) -> (r: Result<Option<(HGrid<T>, usize)>, ParseErr>)
    requires
        p <= cs@.len(),
    ensures
        match r {
            Ok(Some((g, e))) => grid_err(cs@, p as int) matches Some((d, t, f)) && f == e && e <= cs@.len()
                && (g matches HGrid::Error { dis, errTrace } && dis@ == d && (errTrace matches Some(x) && x@ == t)),
            Ok(None) => grid_err(cs@, p as int) is None,
            Err(e) => e == ParseErr::BadNumber && !(grid_err(cs@, p as int) is Some && entries_free(err_meta(cs@, p as int))),
        },
{
    let n = cs.len();
    proof { reveal_strlit("ver:\"3.0\""); reveal_strlit("empty"); reveal_strlit("dis"); reveal_strlit("errTrace"); }
    if !tag(cs, p, "ver:\"3.0\"") {
        return Ok(None);
    }
    let e = match read_run1(cs, p + 9, Class::Space) {
        Some(e) => e,
        None => {
            return Ok(None);
        },
    };
    let tr = read_tags::<T>(cs, e);
    match tr {
        Err(err) => {
            return Err(err);
        },
        Ok(_) => {},
    }
    let (raw, e2) = match tr.unwrap() {
        Some(x) => x,
        None => {
            return Ok(None);
        },
    };
    if !(char_is(cs, e2, '\n') && tag(cs, e2 + 1, "empty")) {
        return Ok(None);
    }
    let rest_ok = match read_run1(cs, e2 + 6, Class::Newline) {
        Some(f) => f == cs.len(),
        None => false,
    };
    if !rest_ok {
        return Ok(None);
    }
    let ghost rs = raw@;
    let ghost es = tags(cs@, e as int).unwrap().0;
    let d = HDict::from_entries(raw);
    proof {
        lemma_lookup_last(rs, es, "dis"@);
        lemma_lookup_last(rs, es, "errTrace"@);
    }
    let dis = match string_entry(&d, "dis") {
        Some(s) => s,
        None => {
            return Ok(None);
        },
    };
    let trace = match string_entry(&d, "errTrace") {
        Some(s) => s,
        None => {
            return Ok(None);
        },
    };
    Ok(Some((HGrid::Error { dis, errTrace: Some(trace) }, e2 + 1)))
}

/// A column at `p` (see `col_item`).
fn read_col_item<T: NumTrait + core::str::FromStr>(cs: &Vec<char>, p: usize) -> (r: Result<Option<((String, Option<HDict<T>>), usize)>, ParseErr>)
    requires
        p <= cs@.len(),
    ensures
        match r {
            Ok(Some(((name, meta), e))) => col_item(cs@, p as int) matches Some(((nm, mm), f)) && f == e && p < e
                <= cs@.len() && name@ == nm && meta_models(meta, mm),
            Ok(None) => col_item(cs@, p as int) is None,
            Err(e) => e == ParseErr::BadNumber && !(col_item(cs@, p as int) matches Some((c, f)) && meta_free(c.1)
                && col_end_ok(cs@, f)),
        },
{
    let n = cs.len();
    let e = match read_ident(cs, p) {
        Some(e) => e,
        None => {
            return Ok(None);
        },
    };
    let e2 = match read_run1(cs, e, Class::Space) {
        Some(e2) => e2,
        None => {
            return Ok(None);
        },
    };
    let name = chars_slice_string(cs, p, e);
    let tr = read_tags::<T>(cs, e2);
    match tr {
        Err(err) => {
            return Err(err);
        },
        Ok(_) => {},
    }
    match tr.unwrap() {
        Some((raw, e3)) => {
            let ghost rs = raw@;
            let ghost es = tags(cs@, e2 as int).unwrap().0;
            let d = HDict::from_entries(raw);
            proof {
                crate::io::parse::values::lemma_dict_models(d, rs, es);
            }
            Ok(Some(((name, Some(d)), e3)))
        },
        None => Ok(Some(((name, None), e2))),
    }
}

/// Whether the columns read, `out`, hold the stated columns `ms`.
pub open spec fn cols_model<T>(out: Seq<(String, Option<HDict<T>>)>, ms: Seq<(Seq<char>, Option<Seq<(Seq<char>, ZVal)>>)>) -> bool {
    out.len() == ms.len() && forall|j: int| #![trigger out[j]] 0 <= j < out.len() ==> out[j].0@ == ms[j].0 && meta_models(out[j].1, ms[j].1)
}

/// Columns separated by commas at `p` (see `cols`).
pub fn read_cols<T: NumTrait + core::str::FromStr>(cs: &Vec<char>, p: usize) -> (r: Result<Option<(Vec<(String, Option<HDict<T>>)>, usize)>, ParseErr>)
    requires
        p <= cs@.len(),
    ensures
        match r {
            Ok(Some((out, e))) => cols(cs@, p as int) matches Some((ms, f)) && f == e && e <= cs@.len() && cols_model(out@, ms),
            Ok(None) => cols(cs@, p as int) is None,
            Err(e) => e == ParseErr::BadNumber && !(cols(cs@, p as int) matches Some((ms, f)) && cols_free(ms)
                && col_end_ok(cs@, f) && !char_at(cs@, f, ',')),
        },
{
    let n = cs.len();
    let first_r = read_col_item::<T>(cs, p);
    match first_r {
        Err(err) => {
            proof {
                if cols(cs@, p as int) matches Some((ms, f)) && cols_free(ms) && col_end_ok(cs@, f) && !char_at(cs@, f, ',') {
                    lemma_cols_first_free(cs@, p as int);
                }
            }
            return Err(err);
        },
        Ok(_) => {},
    }
    match first_r.unwrap() {
        None => Ok(None),
        Some((c, e)) => {
            let ghost first = col_item(cs@, p as int).unwrap().0;
            let ghost mut ms = seq![first];
            let mut out: Vec<(String, Option<HDict<T>>)> = Vec::new();
            out.push(c);
            let mut q = e;
            let mut more = true;
            assert(cols_model(out@, ms)) by {
                assert(out@[0] == c);
            }
            while more
                invariant
                    n == cs@.len(),
                    p < e <= q <= cs@.len(),
                    cols(cs@, p as int) == Some(cols_rest(cs@, e as int, seq![first])),
                    cols_rest(cs@, q as int, ms) == cols_rest(cs@, e as int, seq![first]),
                    cols_model(out@, ms),
                    !more ==> cols_rest(cs@, q as int, ms) == (ms, q as int),
                decreases cs@.len() - q + if more { 1int } else { 0int },
            {
                if char_is(cs, q, ',') {
                    let next = read_col_item::<T>(cs, q + 1);
                    match next {
                        Err(err) => {
                            proof {
                                if cols(cs@, p as int) matches Some((fm, ff)) && cols_free(fm) && col_end_ok(cs@, ff)
                                    && !char_at(cs@, ff, ',') {
                                    lemma_cols_next_free(cs@, q as int, ms);
                                }
                            }
                            return Err(err);
                        },
                        Ok(_) => {},
                    }
                    match next.unwrap() {
                        Some((c2, e2)) => {
                            let ghost m2 = col_item(cs@, q + 1).unwrap().0;
                            proof {
                                assert(cols_rest(cs@, q as int, ms) == cols_rest(cs@, e2 as int, ms.push(m2)));
                                assert forall|j: int| 0 <= j < out@.len() + 1 implies #[trigger] out@.push(c2)[j].0@
                                    == ms.push(m2)[j].0 && meta_models(out@.push(c2)[j].1, ms.push(m2)[j].1) by {
                                    if j < out@.len() {
                                        assert(out@.push(c2)[j] == out@[j]);
                                        assert(ms.push(m2)[j] == ms[j]);
                                    }
                                }
                            }
                            out.push(c2);
                            proof {
                                ms = ms.push(m2);
                            }
                            q = e2;
                        },
                        None => {
                            more = false;
                        },
                    }
                } else {
                    more = false;
                }
            }
            Ok(Some((out, q)))
        },
    }
}

} // verus!
