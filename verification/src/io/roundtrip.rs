//! What the Zinc reader gives back of what the Zinc writer wrote.
use vstd::prelude::*;
use crate::common::{zinc_escaped, zinc_escape_char};
use crate::h_str::zinc_str_literal;
use crate::io::parse::grammar::{body, quoted, str_escape, reference, literal, models, list, list_rest, list_sep,
    datetime, date, time, number, number_end, coord, dict, field, run1, tags, tags_rest, tag_item, ident, span};
use crate::io::parse::lex::{at, char_at, in_class, run_end, lemma_run_end, Class, radix10};
use crate::h_val::{HVal, HBox, zinc_of, list_zinc, dict_zinc, has_non_null, grid_zinc, ver_header};
use crate::h_dict::{HDict, set_all, set_entry, has_key, unique_keys};
use crate::h_ref::HRef;
use crate::h_list::HList;
use crate::h_str::HStr;
use crate::h_grid::HGrid;
use crate::io::parse::grids::{grid_err, last_val};
use crate::io::parse::grammar::{ZVal, number_free, entries_free};
use crate::io::parse::grids::err_meta;
use crate::io::parse::zinc::grid_err_post;
use crate::io::parse::values::ParseErr;
use crate::io::parse::lex::is_digit;
use crate::io::date_roundtrip::{lemma_date_literal, lemma_time_literal};
use crate::h_date::valid_ymd;
use crate::h_time::valid_hmsn;

verus! {

/// Whether every character of `s` is one the Zinc writer escapes in a form
/// the reader takes back: no control character other than backspace, form
/// feed, line feed, carriage return and tab (the others are written `\uXXXX`).
pub open spec fn zinc_readable(s: Seq<char>) -> bool {
    forall|i: int|
        0 <= i < s.len() ==> (#[trigger] s[i] >= ' ' || s[i] == '\x08' || s[i] == '\x0C' || s[i] == '\n' || s[i]
            == '\r' || s[i] == '\t')
}

/// The escape of a string is the escape of its first character followed by
/// the escape of the rest.
proof fn lemma_escaped_front(s: Seq<char>)
    requires
        s.len() > 0,
    ensures
        zinc_escaped(s) == zinc_escape_char(s[0]) + zinc_escaped(s.skip(1)),
    decreases s.len(),
{
    if s.len() == 1 {
        assert(s.drop_last() =~= Seq::<char>::empty());
        assert(s.skip(1) =~= Seq::<char>::empty());
        assert(zinc_escaped(s.drop_last()) =~= Seq::<char>::empty());
        assert(zinc_escaped(s) =~= zinc_escape_char(s[0]));
    } else {
        let d = s.drop_last();
        lemma_escaped_front(d);
        assert(d.skip(1) =~= s.skip(1).drop_last());
        assert(s.skip(1).last() == s.last());
        assert(zinc_escaped(s.skip(1)) == zinc_escaped(d.skip(1)) + zinc_escape_char(s.last()));
        assert(zinc_escaped(s) =~= zinc_escape_char(s[0]) + zinc_escaped(s.skip(1)));
    }
}

/// The reader's body rule, run on the escape of `s` followed by a quote,
/// gives back `s` and stops at the quote.
proof fn lemma_body_escaped(t: Seq<char>, p: int, s: Seq<char>)
    requires
        zinc_readable(s),
        0 <= p,
        p + zinc_escaped(s).len() < t.len(),
        t.subrange(p, p + zinc_escaped(s).len()) == zinc_escaped(s),
        t[p + zinc_escaped(s).len()] == '"',
    ensures
        body(t, p, false) == (s, p + zinc_escaped(s).len()),
    decreases s.len(),
{
    let n: int = zinc_escaped(s).len() as int;
    if s.len() == 0 {
        assert(n == 0);
        assert(body(t, p, false) == (Seq::<char>::empty(), p));
        assert(s =~= Seq::<char>::empty());
    } else {
        lemma_escaped_front(s);
        let c = s[0];
        let e = zinc_escape_char(c);
        let rest = s.skip(1);
        assert(zinc_readable(rest)) by {
            assert forall|i: int| 0 <= i < rest.len() implies (#[trigger] rest[i] >= ' ' || rest[i] == '\x08'
                || rest[i] == '\x0C' || rest[i] == '\n' || rest[i] == '\r' || rest[i] == '\t') by {
                assert(rest[i] == s[i + 1]);
            }
        }
        assert(s[0] >= ' ' || s[0] == '\x08' || s[0] == '\x0C' || s[0] == '\n' || s[0] == '\r' || s[0] == '\t');
        let q = p + e.len();
        assert(zinc_escaped(s) == e + zinc_escaped(rest));
        assert(t.subrange(q, q + zinc_escaped(rest).len()) =~= zinc_escaped(rest)) by {
            assert forall|k: int| 0 <= k < zinc_escaped(rest).len() implies t.subrange(
                q,
                q + zinc_escaped(rest).len(),
            )[k] == zinc_escaped(rest)[k] by {
                assert(t[q + k] == t.subrange(p, p + n)[e.len() + k]);
            }
        }
        lemma_body_escaped(t, q, rest);
        assert(t[p] == t.subrange(p, p + n)[0]);
        assert(t[p] == e[0]);
        if e.len() > 1 {
            assert(t[p + 1] == t.subrange(p, p + n)[1]);
            assert(t[p + 1] == e[1]);
        }
        if c >= ' ' && c != '"' && c != '\\' && c != '$' {
            assert(e == seq![c]);
            assert(t[p] == c);
            assert(body(t, p, false) == (seq![c] + rest, p + n));
        } else {
            assert(e.len() == 2 && e[0] == '\\');
            assert(str_escape(e[1]) == Some(c));
            assert(t[p] == '\\' && t[p + 1] == e[1]);
            assert(body(t, p, false) == (seq![c] + rest, p + n));
        }
        assert(seq![c] + rest =~= s);
    }
}

/// The text `a + b` stands at `p` exactly where `a` stands at `p` and `b`
/// right after it.
pub(crate) proof fn lemma_at_split(t: Seq<char>, p: int, a: Seq<char>, b: Seq<char>)
    requires
        at(t, p, a + b),
    ensures
        at(t, p, a),
        at(t, p + a.len(), b),
{
    assert forall|k: int| 0 <= k < a.len() implies t.subrange(p, p + a.len())[k] == a[k] by {
        assert(t.subrange(p, p + (a + b).len())[k] == (a + b)[k]);
    }
    assert(t.subrange(p, p + a.len()) =~= a);
    assert forall|k: int| 0 <= k < b.len() implies t.subrange(p + a.len(), p + a.len() + b.len())[k] == b[k] by {
        assert(t.subrange(p, p + (a + b).len())[a.len() + k] == (a + b)[a.len() + k]);
    }
    assert(t.subrange(p + a.len(), p + a.len() + b.len()) =~= b);
}

/// Where `a` stands at `p`, its characters are those of the text there.
pub(crate) proof fn lemma_at_index(t: Seq<char>, p: int, a: Seq<char>, k: int)
    requires
        at(t, p, a),
        0 <= k < a.len(),
    ensures
        t[p + k] == a[k],
{
    assert(t.subrange(p, p + a.len())[k] == a[k]);
}

/// A string literal written at `p` reads back as its string.
proof fn lemma_quoted_at(t: Seq<char>, p: int, s: Seq<char>)
    requires
        zinc_readable(s),
        at(t, p, zinc_str_literal(s)),
    ensures
        quoted(t, p, false) == Some((s, p + zinc_str_literal(s).len())),
{
    let n: int = zinc_escaped(s).len() as int;
    let lit = zinc_str_literal(s);
    lemma_at_split(t, p, seq!['"'] + zinc_escaped(s), seq!['"']);
    lemma_at_split(t, p, seq!['"'], zinc_escaped(s));
    lemma_at_index(t, p, lit, 0);
    lemma_at_index(t, p, lit, n + 1);
    lemma_body_escaped(t, p + 1, s);
}

/// A reference without display text written at `p`, whose identifier is a
/// run of reference characters and is not continued by what follows, reads
/// back as its identifier.
proof fn lemma_reference_at(t: Seq<char>, p: int, r: HRef)
    requires
        r.dis is None,
        r.id@.len() > 0,
        forall|i: int| 0 <= i < r.id@.len() ==> in_class(Class::RefChar, #[trigger] r.id@[i]),
        at(t, p, r.zinc()),
        p + r.zinc().len() < t.len() ==> !in_class(Class::RefChar, t[p + r.zinc().len()]) && t[p + r.zinc().len()]
            != ' ',
    ensures
        reference(t, p) == Some((r.id@, None::<Seq<char>>, p + r.zinc().len())),
{
    let id = r.id@;
    let n: int = id.len() as int;
    assert(r.zinc() =~= seq!['@'] + id);
    lemma_at_split(t, p, seq!['@'], id);
    lemma_at_index(t, p, r.zinc(), 0);
    lemma_run_end(t, p + 1, Class::RefChar);
    let e = run_end(t, p + 1, Class::RefChar);
    assert forall|j: int| p + 1 <= j < p + 1 + n implies in_class(Class::RefChar, #[trigger] t[j]) by {
        lemma_at_index(t, p + 1, id, j - p - 1);
    }
    if e < p + 1 + n {
        assert(in_class(Class::RefChar, t[e]));
    }
    if e > p + 1 + n {
        assert(in_class(Class::RefChar, t[p + 1 + n]));
    }
    assert(e == p + 1 + n);
    assert(t.subrange(p + 1, p + 1 + n) =~= id);
}

/// Whether the writer's Zinc text of `v` reads back on its own: `v` is null,
/// a marker, remove, NA, a boolean, a string the writer does not escape as
/// `\uXXXX`, a reference without display text whose identifier is a run
/// of reference characters, a date of a year from 0 to 9999, or a time of
/// day whose nanosecond is not zero.
pub open spec fn zinc_scalar<T>(v: HVal<T>) -> bool {
    match v {
        HVal::Null(_) => true,
        HVal::Marker(_) => true,
        HVal::Remove(_) => true,
        HVal::NA(_) => true,
        HVal::Bool(_) => true,
        HVal::Str(x) => zinc_readable(x@),
        HVal::Ref(r) => r.dis is None && r.id@.len() > 0 && (forall|i: int|
            0 <= i < r.id@.len() ==> in_class(Class::RefChar, #[trigger] r.id@[i])),
        HVal::Date(x) => valid_ymd(x.year_spec(), x.month_spec(), x.day_spec()) && 0 <= x.year_spec() <= 9999,
        HVal::Time(x) => valid_hmsn(x.hour_spec(), x.minute_spec(), x.second_spec(), x.nano_spec())
            && x.nano_spec() != 0,
        _ => false,
    }
}

/// Whether what follows at `q` lets the text of `v` end there: after null,
/// no `A` (which would make `NA`); after a reference, no character that would
/// continue it and no space (which would start a display text); after a
/// date, no `T` (which would make a date-time); after a time, no digit
/// (which would continue its nanoseconds).
pub open spec fn zinc_follows<T>(v: HVal<T>, t: Seq<char>, q: int) -> bool {
    match v {
        HVal::Null(_) => !char_at(t, q, 'A'),
        HVal::Ref(_) => q < t.len() ==> !in_class(Class::RefChar, t[q]) && t[q] != ' ',
        HVal::Date(_) => !char_at(t, q, 'T'),
        HVal::Time(_) => 0 <= q < t.len() ==> !is_digit(t[q]),
        _ => true,
    }
}

/// No rule for a single value reads one at a bracket or a brace.
proof fn lemma_only_list_at_bracket(t: Seq<char>, p: int)
    requires
        0 <= p < t.len(),
        t[p] == '[' || t[p] == ']' || t[p] == '{' || t[p] == '}',
    ensures
        !at(t, p, "NA"@),
        reference(t, p) is None,
        quoted(t, p, false) is None,
        quoted(t, p, true) is None,
        datetime(t, p) is None,
        date(t, p) is None,
        time(t, p) is None,
        number(t, p) is None,
        coord(t, p) is None,
        t[p] != '{' ==> dict(t, p) is None,
{
    reveal_strlit("NA");
    reveal_strlit("C(");
    if at(t, p, "NA"@) {
        lemma_at_index(t, p, "NA"@, 0);
    }
    if at(t, p, "C("@) {
        lemma_at_index(t, p, "C("@, 0);
    }
    assert forall|n: int, sg: bool| n > 0 implies #[trigger] field(t, p, n, sg) is None by {
        if 0 <= p && p + n <= t.len() {
            let sp = t.subrange(p, p + n);
            assert(sp[0] == t[p]);
            assert(radix10(sp, sg) is None);
        }
    }
    assert(field(t, p, 4, true) is None);
    assert(field(t, p, 2, false) is None);
    assert(run_end(t, p, Class::Digit) == p);
    assert(run1(t, p, Class::Digit) is None);
    assert(number_end(t, p) is None);
}

/// Where the text of a value that `zinc_scalar` admits stands at `p` and is
/// followed as `zinc_follows` asks, the literal rule reads back that value and
/// stops where its text ends. The text is not empty and does not begin with
/// a space or a tab.
proof fn lemma_literal_at<T>(t: Seq<char>, p: int, v: HVal<T>)
    requires
        zinc_scalar(v),
        at(t, p, zinc_of(v)),
        zinc_follows(v, t, p + zinc_of(v).len()),
    ensures
        literal(t, p) matches Some((m, e)) && models(v, m) && e == p + zinc_of(v).len(),
        zinc_of(v).len() > 0,
        !in_class(Class::Space, zinc_of(v)[0]),
        zinc_of(v)[0] != ',' && zinc_of(v)[0] != ']',
{
    reveal_strlit("NA");
    lemma_at_index(t, p, zinc_of(v), 0);
    match v {
        HVal::NA(x) => {
            assert(t.subrange(p, p + 2) =~= "NA"@) by {
                lemma_at_index(t, p, zinc_of(v), 1);
            }
        },
        HVal::Null(x) => {
            assert(!at(t, p, "NA"@)) by {
                if at(t, p, "NA"@) {
                    lemma_at_index(t, p, "NA"@, 1);
                }
            }
        },
        HVal::Str(x) => {
            lemma_quoted_at(t, p, x@);
            assert(reference(t, p) is None);
        },
        HVal::Ref(r) => {
            lemma_reference_at(t, p, r);
        },
        HVal::Date(x) => {
            lemma_date_literal(t, p, x.year_spec(), x.month_spec(), x.day_spec());
        },
        HVal::Time(x) => {
            lemma_time_literal(t, p, x.hour_spec(), x.minute_spec(), x.second_spec(), x.nano_spec());
        },
        _ => {},
    }
}

/// Reading a Zinc string literal gives back the string that was written,
/// whatever follows it, for every string whose characters the writer does not
/// escape as `\uXXXX`.
pub proof fn law_zinc_string_roundtrip(s: Seq<char>, rest: Seq<char>)
    requires
        zinc_readable(s),
    ensures
        quoted(zinc_str_literal(s) + rest, 0, false) == Some((s, zinc_str_literal(s).len() as int)),
{
    let t = zinc_str_literal(s) + rest;
    assert(t.subrange(0, zinc_str_literal(s).len() as int) =~= zinc_str_literal(s));
    lemma_quoted_at(t, 0, s);
}

/// Reading the Zinc text of a reference without display text gives back its
/// identifier, where the identifier is a non-empty run of the characters a
/// reference is made of and what follows neither continues it nor starts a
/// display text. (A display text does not read back: the writer leaves it
/// unquoted, and the reader takes only a quoted one.)
pub proof fn law_zinc_ref_roundtrip(r: HRef, rest: Seq<char>)
    requires
        r.dis is None,
        r.id@.len() > 0,
        forall|i: int| 0 <= i < r.id@.len() ==> in_class(Class::RefChar, #[trigger] r.id@[i]),
        rest.len() > 0 ==> !in_class(Class::RefChar, rest[0]) && rest[0] != ' ',
    ensures
        reference(r.zinc() + rest, 0) == Some((r.id@, None::<Seq<char>>, r.zinc().len() as int)),
{
    let t = r.zinc() + rest;
    assert(t.subrange(0, r.zinc().len() as int) =~= r.zinc());
    if r.zinc().len() < t.len() {
        assert(t[r.zinc().len() as int] == rest[0]);
    }
    lemma_reference_at(t, 0, r);
}

/// Reading a value's Zinc literal gives back that value and stops where the
/// literal ends, for the values that `zinc_scalar` admits, followed by text
/// that `zinc_follows` admits.
pub proof fn law_zinc_literal_roundtrip<T>(v: HVal<T>, rest: Seq<char>)
    requires
        zinc_scalar(v),
        zinc_follows(v, zinc_of(v) + rest, zinc_of(v).len() as int),
    ensures
        literal(zinc_of(v) + rest, 0) matches Some((m, e)) && models(v, m) && e == zinc_of(v).len(),
{
    let t = zinc_of(v) + rest;
    assert(t.subrange(0, zinc_of(v).len() as int) =~= zinc_of(v));
    lemma_literal_at(t, 0, v);
}

/// The `k`-th element of `es`.
pub open spec fn elem<T>(es: Seq<HBox<T>>, k: int) -> HVal<T> {
    *es[k]
}

/// The texts of the elements of `es` from the `k`-th on, each after `, `.
pub open spec fn zinc_list_tail<T>(es: Seq<HBox<T>>, k: int) -> Seq<char>
    decreases es.len() - k,
{
    if k < 0 || k >= es.len() {
        seq![]
    } else {
        seq![',', ' '] + zinc_of(*es[k]) + zinc_list_tail(es, k + 1)
    }
}

/// The tail from `k` of a list is that of the list without its last element,
/// followed by `, ` and the last element's text.
proof fn lemma_tail_push<T>(es: Seq<HBox<T>>, k: int)
    requires
        1 <= k < es.len(),
    ensures
        zinc_list_tail(es, k) == zinc_list_tail(es.drop_last(), k) + seq![',', ' '] + zinc_of(*es.last()),
    decreases es.len() - k,
{
    let d = es.drop_last();
    if k == es.len() - 1 {
        assert(zinc_list_tail(es, k + 1) =~= Seq::<char>::empty());
        assert(zinc_list_tail(d, k) =~= Seq::<char>::empty());
        assert(zinc_list_tail(es, k) =~= seq![',', ' '] + zinc_of(*es[k]));
    } else {
        lemma_tail_push(es, k + 1);
        assert(d[k] == es[k]);
        assert(zinc_list_tail(es, k) =~= zinc_list_tail(d, k) + seq![',', ' '] + zinc_of(*es.last()));
    }
}

/// The text of a non-empty list's elements is the first element's text and
/// then the tail from the second.
proof fn lemma_list_zinc_front<T>(es: Seq<HBox<T>>)
    requires
        es.len() >= 1,
    ensures
        list_zinc(es) == zinc_of(*es[0]) + zinc_list_tail(es, 1),
    decreases es.len(),
{
    if es.len() == 1 {
        assert(zinc_list_tail(es, 1) =~= Seq::<char>::empty());
        assert(list_zinc(es) =~= zinc_of(*es[0]) + zinc_list_tail(es, 1));
    } else {
        let d = es.drop_last();
        lemma_list_zinc_front(d);
        lemma_tail_push(es, 1);
        assert(d[0] == es[0]);
        assert(list_zinc(es) =~= zinc_of(*es[0]) + zinc_list_tail(es, 1));
    }
}

/// The list rule reads the elements from the `k`-th on, each after `, `, up
/// to the closing bracket.
proof fn lemma_list_rest_reads<T>(t: Seq<char>, q: int, es: Seq<HBox<T>>, k: int, acc: Seq<
    crate::io::parse::grammar::ZVal,
>)
    requires
        1 <= k <= es.len(),
        forall|j: int| 0 <= j < es.len() ==> zinc_scalar(*#[trigger] es[j]),
        0 <= q,
        at(t, q, zinc_list_tail(es, k)),
        char_at(t, q + zinc_list_tail(es, k).len(), ']'),
        acc.len() == k,
        forall|j: int| 0 <= j < k ==> models(*es[j], #[trigger] acc[j]),
    ensures
        list_rest(t, q, acc).1 == q + zinc_list_tail(es, k).len(),
        list_rest(t, q, acc).0.len() == es.len(),
        forall|j: int| 0 <= j < es.len() ==> models(*es[j], #[trigger] list_rest(t, q, acc).0[j]),
    decreases es.len() - k,
{
    if k == es.len() {
        assert(zinc_list_tail(es, k).len() == 0);
        assert(run_end(t, q, Class::Space) == q);
        assert(list_sep(t, q) is None);
    } else {
        let z = zinc_of(elem(es, k));
        let tl = zinc_list_tail(es, k + 1);
        assert(zinc_list_tail(es, k) == seq![',', ' '] + z + tl);
        lemma_at_split(t, q, seq![',', ' '] + z, tl);
        lemma_at_split(t, q, seq![',', ' '], z);
        lemma_at_index(t, q, seq![',', ' '], 0);
        lemma_at_index(t, q, seq![',', ' '], 1);
        let e: int = q + 2 + z.len() as int;
        if k + 1 < es.len() {
            lemma_at_index(t, e, tl, 0);
            assert(tl[0] == ',');
        } else {
            assert(tl.len() == 0);
        }
        assert(char_at(t, e, ',') || char_at(t, e, ']'));
        assert(zinc_follows(elem(es, k), t, e));
        lemma_literal_at(t, q + 2, elem(es, k));
        lemma_at_index(t, q + 2, z, 0);
        assert(run_end(t, q, Class::Space) == q);
        assert(run_end(t, q + 2, Class::Space) == q + 2);
        assert(run_end(t, q + 1, Class::Space) == q + 2);
        assert(list_sep(t, q) == Some(q + 2));
        let m = literal(t, q + 2).unwrap().0;
        let acc2 = acc.push(m);
        assert forall|j: int| 0 <= j < k + 1 implies models(*es[j], #[trigger] acc2[j]) by {
            if j < k {
                assert(acc2[j] == acc[j]);
            }
        }
        lemma_list_rest_reads(t, e, es, k + 1, acc2);
        assert(list_rest(t, q, acc) == list_rest(t, e, acc2));
    }
}

/// At an opening bracket, the literal rule is the list rule; at a closing
/// one, it reads nothing.
proof fn lemma_literal_at_bracket(t: Seq<char>, p: int)
    requires
        0 <= p < t.len(),
        t[p] == '[' || t[p] == ']',
    ensures
        t[p] == '[' ==> literal(t, p) == list(t, p),
        t[p] == ']' ==> literal(t, p) is None,
{
    lemma_only_list_at_bracket(t, p);
}

/// The list rule reads the text of a list at `0` back as the list.
#[verifier::rlimit(30)]
proof fn lemma_list_reads<T>(t: Seq<char>, l: HList<T>)
    requires
        forall|j: int| 0 <= j < l.inner@.len() ==> zinc_scalar(*#[trigger] l.inner@[j]),
        at(t, 0, zinc_of(HVal::List(l))),
    ensures
        list(t, 0) matches Some((m, e)) && models(HVal::List(l), m) && e == zinc_of(HVal::List(l)).len(),
{
    let es = l.inner@;
    let z = zinc_of(HVal::List(l));
    assert(z == seq!['['] + list_zinc(es) + seq![']']);
    lemma_at_split(t, 0, seq!['['] + list_zinc(es), seq![']']);
    lemma_at_split(t, 0, seq!['['], list_zinc(es));
    lemma_at_index(t, 0, z, 0);
    let close: int = 1 + list_zinc(es).len() as int;
    lemma_at_index(t, 0, z, close);
    if es.len() == 0 {
        assert(list_zinc(es).len() == 0);
        lemma_literal_at_bracket(t, 1);
    } else {
        lemma_list_zinc_front(es);
        let z0 = zinc_of(elem(es, 0));
        let tl = zinc_list_tail(es, 1);
        lemma_at_split(t, 1, z0, tl);
        let e1: int = 1 + z0.len() as int;
        if es.len() > 1 {
            lemma_at_index(t, e1, tl, 0);
        } else {
            assert(tl.len() == 0);
        }
        lemma_literal_at(t, 1, elem(es, 0));
        let m0 = literal(t, 1).unwrap().0;
        lemma_list_rest_reads(t, e1, es, 1, seq![m0]);
    }
}

/// Reading the Zinc text of a list gives back the list, element by element,
/// and stops where the text ends, where each element is a value that
/// `zinc_scalar` admits.
pub proof fn law_zinc_list_roundtrip<T>(l: HList<T>, rest: Seq<char>)
    requires
        forall|j: int| 0 <= j < l.inner@.len() ==> zinc_scalar(*#[trigger] l.inner@[j]),
    ensures
        literal(zinc_of(HVal::List(l)) + rest, 0) matches Some((m, e)) && models(HVal::List(l), m) && e == zinc_of(
            HVal::List(l),
        ).len(),
{
    let z = zinc_of(HVal::List(l));
    let t = z + rest;
    assert(t.subrange(0, z.len() as int) =~= z);
    lemma_at_index(t, 0, z, 0);
    lemma_literal_at_bracket(t, 0);
    lemma_list_reads(t, l);
}

/// The value of the entry `e`.
pub open spec fn entry_value<T>(e: (String, HBox<T>)) -> HVal<T> {
    *e.1
}

/// Whether `k` reads as the name of a dict entry: a lower-case letter, then
/// letters, digits and `_`.
pub open spec fn zinc_name(k: Seq<char>) -> bool {
    k.len() > 0 && 'a' <= k[0] <= 'z' && forall|i: int| 0 <= i < k.len() ==> in_class(Class::Word, #[trigger] k[i])
}

/// Whether a dict entry is written as `name:value` in a form the reader takes
/// back: its name reads as a name and its value is one that
/// `zinc_entry_value` admits. (Null entries are left out by the
/// writer, remove entries are written `-name`, which the reader does not take,
/// and a marker entry is written as its name with no space before the next
/// entry, so the reader takes the two names as one.)
pub open spec fn zinc_dict_entry<T>(e: (String, HBox<T>)) -> bool {
    zinc_name(e.0@) && zinc_entry_value(*e.1)
}

/// The text after the first entry: nothing where there is no entry, else a
/// space and the entries.
pub open spec fn zinc_dict_rest<T>(s: Seq<(String, HBox<T>)>) -> Seq<char> {
    if s.len() == 0 {
        seq![]
    } else {
        seq![' '] + dict_zinc(s)
    }
}

/// The text of a dict's entries is the first entry as `name:value`, then
/// the rest after a space.
proof fn lemma_dict_zinc_front<T>(s: Seq<(String, HBox<T>)>)
    requires
        s.len() > 0,
        forall|j: int| 0 <= j < s.len() ==> zinc_dict_entry(#[trigger] s[j]),
    ensures
        dict_zinc(s) == s[0].0@ + seq![':'] + zinc_of(*s[0].1) + zinc_dict_rest(s.drop_first()),
{
    let d = s.drop_first();
    assert(zinc_dict_entry(s[0]));
    if d.len() > 0 {
        assert(zinc_dict_entry(s[1]));
        assert(d[0] == s[1]);
        assert(!((*d[0].1) is Null));
        assert(has_non_null(d));
    } else {
        assert(!has_non_null(d));
    }
    let k = s[0].0@;
    let more = has_non_null(d);
    let piece = k + seq![':'] + zinc_of(entry_value(s[0])) + if more { seq![' '] } else { seq![] };
    assert(dict_zinc(s) == piece + dict_zinc(d)) by {
        match entry_value(s[0]) {
            HVal::Bool(_) => {},
            HVal::NA(_) => {},
            HVal::Str(_) => {},
            _ => {},
        }
    }
    if d.len() > 0 {
        assert(dict_zinc(s) =~= k + seq![':'] + zinc_of(entry_value(s[0])) + zinc_dict_rest(d));
    } else {
        assert(dict_zinc(d) =~= Seq::<char>::empty());
        assert(dict_zinc(s) =~= k + seq![':'] + zinc_of(entry_value(s[0])) + zinc_dict_rest(d));
    }
}

/// Whether a value is written after `name:` in a form the reader takes back
/// before a space or a closing brace: a boolean, NA, a string the writer does
/// not escape as `\uXXXX`, a date of a year from 0 to 9999, or a time of day
/// whose nanosecond is not zero.
pub open spec fn zinc_entry_value<T>(v: HVal<T>) -> bool {
    match v {
        HVal::Bool(_) => true,
        HVal::NA(_) => true,
        HVal::Str(x) => zinc_readable(x@),
        HVal::Date(_) => zinc_scalar(v),
        HVal::Time(_) => zinc_scalar(v),
        _ => false,
    }
}

/// An entry written as `name:value` at `p` reads back as its name and value.
pub(crate) proof fn lemma_tag_reads<T>(t: Seq<char>, p: int, k: Seq<char>, v: HVal<T>)
    requires
        zinc_name(k),
        zinc_entry_value(v),
        0 <= p,
        at(t, p, k + seq![':'] + zinc_of(v)),
        zinc_follows(v, t, p + k.len() + 1 + zinc_of(v).len()),
    ensures
        tag_item(t, p) matches Some((it, q)) && it.0 == k && models(v, it.1) && q == p + k.len() + 1 + zinc_of(
            v,
        ).len(),
{
    let n: int = k.len() as int;
    let z = zinc_of(v);
    lemma_at_split(t, p, k + seq![':'], z);
    lemma_at_split(t, p, k, seq![':']);
    lemma_at_index(t, p, k, 0);
    lemma_at_index(t, p + n, seq![':'], 0);
    lemma_run_end(t, p, Class::Word);
    let w = run_end(t, p, Class::Word);
    assert forall|j: int| p <= j < p + n implies in_class(Class::Word, #[trigger] t[j]) by {
        lemma_at_index(t, p, k, j - p);
    }
    if w < p + n {
        assert(in_class(Class::Word, t[w]));
    }
    if w > p + n {
        assert(in_class(Class::Word, t[p + n]));
    }
    assert(w == p + n);
    assert(ident(t, p) == Some(p + n));
    assert(span(t, p, p + n) =~= k);
    lemma_literal_at(t, p + n + 1, v);
}

/// An entry of a dict written as `name:value` at `p` reads back as its name
/// and value.
proof fn lemma_tag_item_reads<T>(t: Seq<char>, p: int, e: (String, HBox<T>))
    requires
        zinc_dict_entry(e),
        0 <= p,
        at(t, p, e.0@ + seq![':'] + zinc_of(*e.1)),
        char_at(t, p + e.0@.len() + 1 + zinc_of(*e.1).len(), ' ') || char_at(
            t,
            p + e.0@.len() + 1 + zinc_of(*e.1).len(),
            '}',
        ),
    ensures
        tag_item(t, p) matches Some((it, q)) && it.0 == e.0@ && models(*e.1, it.1) && q == p + e.0@.len() + 1
            + zinc_of(*e.1).len(),
{
    let q = p + e.0@.len() + 1 + zinc_of(entry_value(e)).len();
    assert(zinc_follows(entry_value(e), t, q));
    lemma_tag_reads(t, p, e.0@, entry_value(e));
}

/// The entries after the first, each after a space, read back up to the
/// closing brace.
#[verifier::rlimit(100)]
#[verifier::spinoff_prover]
proof fn lemma_tags_rest_reads<T>(t: Seq<char>, q: int, s: Seq<(String, HBox<T>)>, acc: Seq<(Seq<char>, crate::io::parse::grammar::ZVal)>)
    requires
        forall|j: int| 0 <= j < s.len() ==> zinc_dict_entry(#[trigger] s[j]),
        0 <= q,
        at(t, q, zinc_dict_rest(s)),
        char_at(t, q + zinc_dict_rest(s).len(), '}'),
    ensures
        tags_rest(t, q, acc).1 == q + zinc_dict_rest(s).len(),
        tags_rest(t, q, acc).0.len() == acc.len() + s.len(),
        forall|j: int| 0 <= j < acc.len() ==> #[trigger] tags_rest(t, q, acc).0[j] == acc[j],
        forall|j: int|
            0 <= j < s.len() ==> (#[trigger] tags_rest(t, q, acc).0[acc.len() + j]).0 == s[j].0@ && models(
                *s[j].1,
                tags_rest(t, q, acc).0[acc.len() + j].1,
            ),
    decreases s.len(),
{
    if s.len() == 0 {
        assert(!char_at(t, q, ' '));
    } else {
        lemma_dict_zinc_front(s);
        let d = s.drop_first();
        assert forall|j: int| 0 <= j < d.len() implies zinc_dict_entry(#[trigger] d[j]) by {
            assert(d[j] == s[j + 1]);
        }
        let piece = s[0].0@ + seq![':'] + zinc_of(entry_value(s[0]));
        let rd = zinc_dict_rest(d);
        assert(zinc_dict_rest(s) =~= seq![' '] + piece + rd);
        lemma_at_split(t, q, seq![' '] + piece, rd);
        lemma_at_split(t, q, seq![' '], piece);
        lemma_at_index(t, q, seq![' '], 0);
        let e: int = q + 1 + piece.len() as int;
        if d.len() > 0 {
            lemma_at_index(t, e, rd, 0);
            assert(rd[0] == ' ');
        } else {
            assert(rd.len() == 0);
        }
        assert(char_at(t, e, ' ') || char_at(t, e, '}'));
        lemma_tag_item_reads(t, q + 1, s[0]);
        let it = tag_item(t, q + 1).unwrap().0;
        let acc2 = acc.push(it);
        lemma_tags_rest_reads(t, e, d, acc2);
        assert(tags_rest(t, q, acc) == tags_rest(t, e, acc2));
        let out = tags_rest(t, q, acc).0;
        assert forall|j: int| 0 <= j < acc.len() implies #[trigger] out[j] == acc[j] by {
            assert(out[j] == acc2[j]);
        }
        assert forall|j: int| 0 <= j < s.len() implies (#[trigger] out[acc.len() + j]).0 == s[j].0@ && models(
            *s[j].1,
            out[acc.len() + j].1,
        ) by {
            if j == 0 {
                assert(out[acc.len() as int] == acc2[acc.len() as int]);
            } else {
                assert(s[j] == d[j - 1]);
                assert(out[acc2.len() + (j - 1)] == out[acc.len() + j]);
            }
        }
    }
}

/// Setting, in order, entries whose names are distinct gives those entries.
pub(crate) proof fn lemma_set_all_distinct<T>(s: Seq<(String, HBox<T>)>)
    requires
        unique_keys(s),
    ensures
        set_all(Seq::empty(), s) == s,
    decreases s.len(),
{
    if s.len() > 0 {
        let d = s.drop_last();
        assert(unique_keys(d));
        lemma_set_all_distinct(d);
        assert(!has_key(d, s.last().0@)) by {
            if has_key(d, s.last().0@) {
                let i = choose|i: int| 0 <= i < d.len() && d[i].0@ == s.last().0@;
                assert(s[i].0@ == s[s.len() - 1].0@);
            }
        }
        assert(d.push(s.last()) =~= s);
    }
}

/// The dict rule reads the text of a dict at `0` back as the dict.
#[verifier::rlimit(100)]
#[verifier::spinoff_prover]
proof fn lemma_dict_reads<T>(t: Seq<char>, dd: HDict<T>)
    requires
        dd.wf(),
        forall|j: int| 0 <= j < dd@.len() ==> zinc_dict_entry(#[trigger] dd@[j]),
        at(t, 0, zinc_of(HVal::Dict(dd))),
    ensures
        dict(t, 0) matches Some((m, e)) && models(HVal::Dict(dd), m) && e == zinc_of(HVal::Dict(dd)).len(),
{
    let s = dd@;
    let z = zinc_of(HVal::Dict(dd));
    assert(z == seq!['{'] + dict_zinc(s) + seq!['}']);
    lemma_at_split(t, 0, seq!['{'] + dict_zinc(s), seq!['}']);
    lemma_at_split(t, 0, seq!['{'], dict_zinc(s));
    lemma_at_index(t, 0, z, 0);
    let close: int = 1 + dict_zinc(s).len() as int;
    lemma_at_index(t, 0, z, close);
    lemma_set_all_distinct(s);
    if s.len() == 0 {
        assert(dict_zinc(s).len() == 0);
        assert(ident(t, 1) is None);
        assert(tags(t, 1) is None);
        assert(set_all(Seq::empty(), s) == dd@);
    } else {
        lemma_dict_zinc_front(s);
        let d = s.drop_first();
        assert forall|j: int| 0 <= j < d.len() implies zinc_dict_entry(#[trigger] d[j]) by {
            assert(d[j] == s[j + 1]);
        }
        let piece = s[0].0@ + seq![':'] + zinc_of(entry_value(s[0]));
        let rd = zinc_dict_rest(d);
        lemma_at_split(t, 1, piece, rd);
        let e1: int = 1 + piece.len() as int;
        if d.len() > 0 {
            lemma_at_index(t, e1, rd, 0);
            assert(rd[0] == ' ');
        } else {
            assert(rd.len() == 0);
        }
        assert(char_at(t, e1, ' ') || char_at(t, e1, '}'));
        lemma_tag_item_reads(t, 1, s[0]);
        let it = tag_item(t, 1).unwrap().0;
        lemma_tags_rest_reads(t, e1, d, seq![it]);
        let es = tags_rest(t, e1, seq![it]).0;
        assert(tags(t, 1) == Some((es, close)));
        assert forall|j: int| 0 <= j < s.len() implies s[j].0@ == es[j].0 && models(*s[j].1, es[j].1) by {
            if j == 0 {
                assert(es[0] == seq![it][0]);
            } else {
                assert(s[j] == d[j - 1]);
                assert(es[1 + (j - 1)] == es[j]);
            }
        }
        assert(set_all(Seq::empty(), s) == dd@);
    }
}

/// Reading the Zinc text of a dict gives back the dict, entry by entry, and
/// stops where the text ends, where each entry is one that
/// `zinc_dict_entry` admits.
pub proof fn law_zinc_dict_roundtrip<T>(d: HDict<T>, rest: Seq<char>)
    requires
        d.wf(),
        forall|j: int| 0 <= j < d@.len() ==> zinc_dict_entry(#[trigger] d@[j]),
    ensures
        literal(zinc_of(HVal::Dict(d)) + rest, 0) matches Some((m, e)) && models(HVal::Dict(d), m) && e == zinc_of(
            HVal::Dict(d),
        ).len(),
{
    let z = zinc_of(HVal::Dict(d));
    let t = z + rest;
    assert(t.subrange(0, z.len() as int) =~= z);
    lemma_at_index(t, 0, z, 0);
    lemma_only_list_at_bracket(t, 0);
    lemma_dict_reads(t, d);
}

/// Where `a` stands at `p` and `b` right after it, `a + b` stands at `p`.
pub(crate) proof fn lemma_at_join(t: Seq<char>, p: int, a: Seq<char>, b: Seq<char>)
    requires
        at(t, p, a),
        at(t, p + a.len(), b),
    ensures
        at(t, p, a + b),
{
    assert forall|k: int| 0 <= k < a.len() + b.len() implies t.subrange(p, p + a.len() + b.len())[k] == (a + b)[k] by {
        if k < a.len() {
            lemma_at_index(t, p, a, k);
        } else {
            lemma_at_index(t, p + a.len(), b, k - a.len());
        }
    }
    assert(t.subrange(p, p + (a + b).len()) =~= a + b);
}

/// Where the characters of `a` stand one by one from `p`, `a` stands at `p`.
proof fn lemma_at_chars(t: Seq<char>, p: int, a: Seq<char>)
    requires
        0 <= p,
        p + a.len() <= t.len(),
        forall|k: int| 0 <= k < a.len() ==> t[p + k] == #[trigger] a[k],
    ensures
        at(t, p, a),
{
    assert(t.subrange(p, p + a.len()) =~= a);
}

/// The text of an error grid with a trace, in its pieces.
proof fn lemma_error_text<T>(dis: String, trace: String)
    ensures
        grid_zinc(HGrid::<T>::Error { dis, errTrace: Some(trace) }) == ver_header() + " err dis:"@ + zinc_str_literal(
            dis@,
        ) + " errTrace:"@ + zinc_str_literal(trace@) + "\nempty\n"@,
{
}

/// The marker `err` between spaces reads as a marker entry.
proof fn lemma_error_marker(t: Seq<char>)
    requires
        13 < t.len(),
        t[10] == 'e' && t[11] == 'r' && t[12] == 'r' && t[13] == ' ',
    ensures
        tag_item(t, 10) == Some((("err"@, ZVal::Marker), 13int)),
{
    reveal_strlit("err");
    assert(run_end(t, 13, Class::Word) == 13);
    assert(run_end(t, 12, Class::Word) == 13);
    assert(run_end(t, 11, Class::Word) == 13);
    assert(run_end(t, 10, Class::Word) == 13);
    assert(ident(t, 10) == Some(13int));
    assert(span(t, 10, 13) =~= "err"@);
}

/// `name:` and a string literal at `p` read as the entry of that name and string.
proof fn lemma_string_entry<T>(t: Seq<char>, p: int, k: Seq<char>, v: String)
    requires
        zinc_name(k),
        zinc_readable(v@),
        0 <= p,
        at(t, p, k + seq![':']),
        at(t, p + k.len() + 1, zinc_str_literal(v@)),
    ensures
        tag_item(t, p) == Some(((k, ZVal::Str(v@)), p + k.len() + 1 + zinc_str_literal(v@).len())),
{
    let x = HVal::<T>::Str(HStr(v));
    assert(zinc_of(x) == zinc_str_literal(v@));
    lemma_at_join(t, p, k + seq![':'], zinc_str_literal(v@));
    lemma_tag_reads(t, p, k, x);
}

/// Where the pieces of an error grid's text stand in it.
#[verifier::rlimit(40)]
proof fn lemma_error_layout(t: Seq<char>, ld: Seq<char>, lt: Seq<char>, c0: int, d0: int)
    requires
        t == ver_header() + " err dis:"@ + ld + " errTrace:"@ + lt + "\nempty\n"@,
        c0 == 18 + ld.len(),
        d0 == c0 + 10 + lt.len(),
    ensures
        t.len() == d0 + 7,
        at(t, 0, "ver:\"3.0\""@),
        t[9] == ' ' && t[10] == 'e' && t[11] == 'r' && t[12] == 'r' && t[13] == ' ',
        at(t, 14, "dis"@ + seq![':']),
        at(t, 18, ld),
        t[c0] == ' ',
        at(t, c0 + 1, "errTrace"@ + seq![':']),
        at(t, c0 + 10, lt),
        t[d0] == '\n',
        at(t, d0 + 1, "empty"@),
        t[d0 + 6] == '\n',
{
    let a = ver_header();
    let b = " err dis:"@;
    let c = " errTrace:"@;
    let d = "\nempty\n"@;
    reveal_strlit(" err dis:");
    reveal_strlit(" errTrace:");
    reveal_strlit("\nempty\n");
    reveal_strlit("ver:\"3.0\"");
    reveal_strlit("dis");
    reveal_strlit("errTrace");
    reveal_strlit("empty");
    assert(at(t, 0, t)) by {
        assert(t.subrange(0, t.len() as int) =~= t);
    }
    lemma_at_split(t, 0, a + b + ld + c + lt, d);
    lemma_at_split(t, 0, a + b + ld + c, lt);
    lemma_at_split(t, 0, a + b + ld, c);
    lemma_at_split(t, 0, a + b, ld);
    lemma_at_split(t, 0, a, b);
    assert forall|k: int| 0 <= k < 9 implies t[k] == a[k] && t[9 + k] == b[k] by {
        lemma_at_index(t, 0, a, k);
        lemma_at_index(t, 9, b, k);
    }
    assert forall|k: int| 0 <= k < 10 implies t[c0 + k] == c[k] by {
        lemma_at_index(t, c0, c, k);
    }
    assert forall|k: int| 0 <= k < 7 implies t[d0 + k] == d[k] by {
        lemma_at_index(t, d0, d, k);
    }
    lemma_at_chars(t, 0, "ver:\"3.0\""@);
    lemma_at_chars(t, 14, "dis"@ + seq![':']);
    lemma_at_chars(t, c0 + 1, "errTrace"@ + seq![':']);
    lemma_at_chars(t, d0 + 1, "empty"@);
}

/// Three entries that follow one another, each after a space, up to a line
/// feed, read as the metadata.
#[verifier::rlimit(100)]
#[verifier::spinoff_prover]
proof fn lemma_error_chain(t: Seq<char>, m0: (Seq<char>, ZVal), m1: (Seq<char>, ZVal), m2: (Seq<char>, ZVal), c0: int, d0: int)
    requires
        13 < c0 < d0 < t.len(),
        tag_item(t, 10) == Some((m0, 13int)),
        t[13] == ' ',
        tag_item(t, 14) == Some((m1, c0)),
        t[c0] == ' ',
        tag_item(t, c0 + 1) == Some((m2, d0)),
        t[d0] == '\n',
    ensures
        tags(t, 10) == Some((seq![m0, m1, m2], d0)),
{
    let es = seq![m0, m1, m2];
    lemma_tags_rest_stop(t, d0, es);
    assert(seq![m0, m1].push(m2) == es);
    lemma_tags_rest_step(t, c0, seq![m0, m1], m2, d0);
    assert(seq![m0].push(m1) == seq![m0, m1]);
    lemma_tags_rest_step(t, 13, seq![m0], m1, c0);
}

/// A space and an entry continue the entries.
pub(crate) proof fn lemma_tags_rest_step(t: Seq<char>, p: int, acc: Seq<(Seq<char>, ZVal)>, it: (Seq<char>, ZVal), e: int)
    requires
        0 <= p < t.len(),
        t[p] == ' ',
        tag_item(t, p + 1) == Some((it, e)),
        p < e <= t.len(),
    ensures
        tags_rest(t, p, acc) == tags_rest(t, e, acc.push(it)),
{
}

/// The entries end where no space follows.
pub(crate) proof fn lemma_tags_rest_stop(t: Seq<char>, p: int, acc: Seq<(Seq<char>, ZVal)>)
    requires
        0 <= p < t.len(),
        t[p] != ' ',
    ensures
        tags_rest(t, p, acc) == (acc, p),
{
}

/// The metadata of an error grid laid out as `lemma_error_layout` gives reads
/// as the marker `err`, the message and the trace, up to the line feed.
#[verifier::rlimit(50)]
#[verifier::spinoff_prover]
proof fn lemma_error_tags<T>(t: Seq<char>, dis: String, trace: String, c0: int, d0: int)
    requires
        zinc_readable(dis@),
        zinc_readable(trace@),
        c0 == 18 + zinc_str_literal(dis@).len(),
        d0 == c0 + 10 + zinc_str_literal(trace@).len(),
        t.len() == d0 + 7,
        t[10] == 'e' && t[11] == 'r' && t[12] == 'r' && t[13] == ' ',
        at(t, 14, "dis"@ + seq![':']),
        at(t, 18, zinc_str_literal(dis@)),
        t[c0] == ' ',
        at(t, c0 + 1, "errTrace"@ + seq![':']),
        at(t, c0 + 10, zinc_str_literal(trace@)),
        t[d0] == '\n',
    ensures
        tags(t, 10) == Some((seq![("err"@, ZVal::Marker), ("dis"@, ZVal::Str(dis@)), ("errTrace"@, ZVal::Str(trace@))], d0)),
{
    reveal_strlit("dis");
    reveal_strlit("errTrace");
    lemma_error_marker(t);
    assert(zinc_name("dis"@));
    assert(zinc_name("errTrace"@));
    lemma_string_entry::<T>(t, 14, "dis"@, dis);
    lemma_string_entry::<T>(t, c0 + 1, "errTrace"@, trace);
    lemma_error_chain(t, ("err"@, ZVal::Marker), ("dis"@, ZVal::Str(dis@)), ("errTrace"@, ZVal::Str(trace@)), c0, d0);
}

/// In the metadata of an error grid, the last `dis` and `errTrace` entries
/// are the message and the trace.
proof fn lemma_error_last_vals(d: Seq<char>, tr: Seq<char>)
    ensures
        last_val(seq![("err"@, ZVal::Marker), ("dis"@, ZVal::Str(d)), ("errTrace"@, ZVal::Str(tr))], "dis"@) == Some(
            ZVal::Str(d),
        ),
        last_val(seq![("err"@, ZVal::Marker), ("dis"@, ZVal::Str(d)), ("errTrace"@, ZVal::Str(tr))], "errTrace"@)
            == Some(ZVal::Str(tr)),
{
    reveal_strlit("dis");
    reveal_strlit("errTrace");
    let m0 = ("err"@, ZVal::Marker);
    let m1 = ("dis"@, ZVal::Str(d));
    let m2 = ("errTrace"@, ZVal::Str(tr));
    let es = seq![m0, m1, m2];
    assert(es.drop_last() =~= seq![m0, m1]);
    assert("errTrace"@.len() != "dis"@.len());
    assert(seq![m0, m1].last() == m1);
    assert(last_val(seq![m0, m1], "dis"@) == Some(ZVal::Str(d)));
}

/// The error grid rule reads a text laid out as `lemma_error_layout` gives.
proof fn lemma_error_reads<T>(t: Seq<char>, dis: String, trace: String, c0: int, d0: int)
    requires
        zinc_readable(dis@),
        zinc_readable(trace@),
        c0 == 18 + zinc_str_literal(dis@).len(),
        d0 == c0 + 10 + zinc_str_literal(trace@).len(),
        t.len() == d0 + 7,
        at(t, 0, "ver:\"3.0\""@),
        t[9] == ' ' && t[10] == 'e' && t[11] == 'r' && t[12] == 'r' && t[13] == ' ',
        at(t, 14, "dis"@ + seq![':']),
        at(t, 18, zinc_str_literal(dis@)),
        t[c0] == ' ',
        at(t, c0 + 1, "errTrace"@ + seq![':']),
        at(t, c0 + 10, zinc_str_literal(trace@)),
        t[d0] == '\n',
        at(t, d0 + 1, "empty"@),
        t[d0 + 6] == '\n',
    ensures
        grid_err(t, 0) matches Some((d, tr, _)) && d == dis@ && tr == trace@,
        entries_free(err_meta(t, 0)),
{
    assert(run_end(t, 10, Class::Space) == 10);
    assert(run_end(t, 9, Class::Space) == 10);
    lemma_error_tags::<T>(t, dis, trace, c0, d0);
    let es = seq![("err"@, ZVal::Marker), ("dis"@, ZVal::Str(dis@)), ("errTrace"@, ZVal::Str(trace@))];
    assert(err_meta(t, 0) == es);
    assert forall|j: int| 0 <= j < es.len() implies #[trigger] number_free(es[j].1) by {
        if j == 0 {
            assert(es[0].1 == ZVal::Marker);
        } else if j == 1 {
            assert(es[1].1 == ZVal::Str(dis@));
        } else {
            assert(es[2].1 == ZVal::Str(trace@));
        }
    }
    assert(run_end(t, d0 + 7, Class::Newline) == d0 + 7);
    assert(run_end(t, d0 + 6, Class::Newline) == d0 + 7);
    lemma_error_last_vals(dis@, trace@);
}

/// Reading the Zinc text of an error grid gives back its message and its
/// trace, where both are strings the writer does not escape as `\uXXXX`: the
/// reader takes it as an error grid, so an answer holding it is an error
/// (see `HaystackResponse::as_result`). (An error grid without a trace does
/// not read as one: the reader asks for both.)
pub proof fn law_zinc_error_grid_roundtrip<T>(dis: String, trace: String)
    requires
        zinc_readable(dis@),
        zinc_readable(trace@),
    ensures
        grid_err(grid_zinc(HGrid::<T>::Error { dis, errTrace: Some(trace) }), 0) matches Some((d, tr, _)) && d
            == dis@ && tr == trace@,
{
    let t = grid_zinc(HGrid::<T>::Error { dis, errTrace: Some(trace) });
    lemma_error_text::<T>(dis, trace);
    let c0: int = 18 + zinc_str_literal(dis@).len() as int;
    let d0: int = c0 + 10 + zinc_str_literal(trace@).len() as int;
    lemma_error_layout(t, zinc_str_literal(dis@), zinc_str_literal(trace@), c0, d0);
    lemma_error_reads::<T>(t, dis, trace, c0, d0);
}

/// Reading with `grid_err` the Zinc text of an error grid gives back that
/// error grid, its message and its trace, where both are strings the writer
/// does not escape as `\uXXXX`: the metadata holds no number, so the outcome
/// rests on the text alone.
pub proof fn law_grid_err_reads_written<T>(dis: String, trace: String, r: Result<(&str, HGrid<T>), ParseErr>)
    requires
        zinc_readable(dis@),
        zinc_readable(trace@),
        grid_err_post(grid_zinc(HGrid::<T>::Error { dis, errTrace: Some(trace) }), r),
    ensures
        r matches Ok((_, g)) && g matches HGrid::Error { dis: d, errTrace: Some(tr) } && d@ == dis@ && tr@ == trace@,
{
    let t = grid_zinc(HGrid::<T>::Error { dis, errTrace: Some(trace) });
    lemma_error_text::<T>(dis, trace);
    let c0: int = 18 + zinc_str_literal(dis@).len() as int;
    let d0: int = c0 + 10 + zinc_str_literal(trace@).len() as int;
    lemma_error_layout(t, zinc_str_literal(dis@), zinc_str_literal(trace@), c0, d0);
    lemma_error_reads::<T>(t, dis, trace, c0, d0);
}

} // verus!
