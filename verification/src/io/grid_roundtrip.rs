//! What the Zinc grid reader gives back of the grids without columns that
//! the Zinc writer wrote.
use vstd::prelude::*;
use crate::io::parse::lex::{at, char_at, in_class, run_end, lemma_run_end, Class};
use crate::io::parse::grammar::{tag_item, tags, tags_rest, ident, span, models, run1, ZVal};
use crate::io::parse::grids::{grid, float_end, meta_models};
use crate::io::roundtrip::{zinc_name, zinc_entry_value, zinc_follows, entry_value, lemma_tag_reads,
    lemma_at_split, lemma_at_index, lemma_set_all_distinct, lemma_tags_rest_step, lemma_tags_rest_stop};
use crate::io::date_roundtrip::lemma_run_end_at;
use crate::h_val::{HVal, HBox, zinc_of, grid_meta_zinc, grid_zinc, ver_header};
use crate::h_dict::{HDict, set_all};
use crate::h_grid::HGrid;

verus! {

/// Whether an entry of grid metadata is written in a form the reader takes
/// back: its name reads as a name, and its value is a marker or one that
/// `zinc_entry_value` admits.
pub open spec fn zinc_meta_entry<T>(e: (String, HBox<T>)) -> bool {
    zinc_name(e.0@) && (entry_value(e) is Marker || zinc_entry_value(entry_value(e)))
}

/// The text of an entry of grid metadata: its name for a marker, else the
/// name, `:` and the value.
pub open spec fn meta_entry_zinc<T>(e: (String, HBox<T>)) -> Seq<char> {
    match entry_value(e) {
        HVal::Marker(_) => e.0@,
        _ => e.0@ + seq![':'] + zinc_of(entry_value(e)),
    }
}

/// The text of metadata is a space and the first entry, then the text of the
/// others.
proof fn lemma_meta_zinc_front<T>(s: Seq<(String, HBox<T>)>)
    requires
        s.len() > 0,
    ensures
        grid_meta_zinc(s) == seq![' '] + meta_entry_zinc(s[0]) + grid_meta_zinc(s.drop_first()),
    decreases s.len(),
{
    if s.len() == 1 {
        assert(s.drop_last() =~= Seq::<(String, HBox<T>)>::empty());
        assert(s.drop_first() =~= Seq::<(String, HBox<T>)>::empty());
        assert(grid_meta_zinc(s) =~= seq![' '] + meta_entry_zinc(s[0]));
    } else {
        let a = s.drop_last();
        let d = s.drop_first();
        lemma_meta_zinc_front(a);
        assert(a.drop_first() =~= d.drop_last());
        assert(a[0] == s[0]);
        assert(d.last() == s.last());
        assert(grid_meta_zinc(s) == grid_meta_zinc(a) + seq![' '] + meta_entry_zinc(s.last()));
        assert(grid_meta_zinc(d) == grid_meta_zinc(d.drop_last()) + seq![' '] + meta_entry_zinc(d.last()));
        assert(grid_meta_zinc(s) =~= seq![' '] + meta_entry_zinc(s[0]) + grid_meta_zinc(d));
    }
}

/// A name at `p` followed by a character that is not part of a name ends there.
proof fn lemma_name_ends(t: Seq<char>, p: int, k: Seq<char>)
    requires
        zinc_name(k),
        0 <= p,
        at(t, p, k),
        p + k.len() < t.len() ==> !in_class(Class::Word, t[p + k.len()]),
    ensures
        ident(t, p) == Some(p + k.len()),
        span(t, p, p + k.len()) == k,
{
    assert forall|j: int| p <= j < p + k.len() implies in_class(Class::Word, #[trigger] t[j]) by {
        lemma_at_index(t, p, k, j - p);
    }
    lemma_run_end_at(t, p, p + k.len(), Class::Word);
    lemma_at_index(t, p, k, 0);
}

/// An entry of metadata at `p`, followed by a space or a line feed, reads
/// back as its name and value.
proof fn lemma_meta_item_reads<T>(t: Seq<char>, p: int, e: (String, HBox<T>))
    requires
        zinc_meta_entry(e),
        0 <= p,
        at(t, p, meta_entry_zinc(e)),
        char_at(t, p + meta_entry_zinc(e).len(), ' ') || char_at(t, p + meta_entry_zinc(e).len(), '\n'),
    ensures
        tag_item(t, p) matches Some((it, q)) && it.0 == e.0@ && models(entry_value(e), it.1) && q == p
            + meta_entry_zinc(e).len(),
{
    let k = e.0@;
    let v = entry_value(e);
    match v {
        HVal::Marker(_) => {
            lemma_name_ends(t, p, k);
        },
        _ => {
            let q = p + k.len() + 1 + zinc_of(v).len();
            assert(meta_entry_zinc(e) == k + seq![':'] + zinc_of(v));
            assert(zinc_follows(v, t, q));
            lemma_tag_reads(t, p, k, v);
        },
    }
}

/// The first entry of metadata at `q + 1`, after a space, reads back, and
/// the text of the others follows it up to the line feed.
#[verifier::rlimit(30)]
proof fn lemma_meta_step<T>(t: Seq<char>, q: int, s: Seq<(String, HBox<T>)>)
    requires
        s.len() > 0,
        forall|j: int| 0 <= j < s.len() ==> zinc_meta_entry(#[trigger] s[j]),
        0 <= q,
        at(t, q, grid_meta_zinc(s)),
        char_at(t, q + grid_meta_zinc(s).len(), '\n'),
    ensures
        char_at(t, q, ' '),
        tag_item(t, q + 1) matches Some((it, f)) && f == q + 1 + meta_entry_zinc(s[0]).len() && it.0 == s[0].0@
            && models(*s[0].1, it.1),
        q < q + 1 + meta_entry_zinc(s[0]).len() <= t.len(),
        at(t, q + 1 + meta_entry_zinc(s[0]).len(), grid_meta_zinc(s.drop_first())),
        q + 1 + meta_entry_zinc(s[0]).len() + grid_meta_zinc(s.drop_first()).len() == q + grid_meta_zinc(s).len(),
        forall|j: int| 0 <= j < s.drop_first().len() ==> zinc_meta_entry(#[trigger] s.drop_first()[j]),
{
    lemma_meta_zinc_front(s);
    let d = s.drop_first();
    assert forall|j: int| 0 <= j < d.len() implies zinc_meta_entry(#[trigger] d[j]) by {
        assert(d[j] == s[j + 1]);
    }
    let piece = meta_entry_zinc(s[0]);
    let rd = grid_meta_zinc(d);
    lemma_at_split(t, q, seq![' '] + piece, rd);
    lemma_at_split(t, q, seq![' '], piece);
    lemma_at_index(t, q, seq![' '], 0);
    let e: int = q + 1 + piece.len() as int;
    if d.len() > 0 {
        lemma_meta_zinc_front(d);
        lemma_at_index(t, e, rd, 0);
    } else {
        assert(rd.len() == 0);
    }
    assert(char_at(t, e, ' ') || char_at(t, e, '\n'));
    assert(zinc_meta_entry(s[0]));
    lemma_meta_item_reads(t, q + 1, s[0]);
}

/// The entries of metadata from the first of `s` on, each after a space, read
/// back up to the line feed after them.
#[verifier::rlimit(50)]
#[verifier::spinoff_prover]
proof fn lemma_meta_rest_reads<T>(t: Seq<char>, q: int, s: Seq<(String, HBox<T>)>, acc: Seq<(Seq<char>, ZVal)>)
    requires
        forall|j: int| 0 <= j < s.len() ==> zinc_meta_entry(#[trigger] s[j]),
        0 <= q,
        at(t, q, grid_meta_zinc(s)),
        char_at(t, q + grid_meta_zinc(s).len(), '\n'),
    ensures
        tags_rest(t, q, acc).1 == q + grid_meta_zinc(s).len(),
        tags_rest(t, q, acc).0.len() == acc.len() + s.len(),
        forall|j: int| 0 <= j < acc.len() ==> #[trigger] tags_rest(t, q, acc).0[j] == acc[j],
        forall|j: int|
            0 <= j < s.len() ==> (#[trigger] tags_rest(t, q, acc).0[acc.len() + j]).0 == s[j].0@ && models(
                *s[j].1,
                tags_rest(t, q, acc).0[acc.len() + j].1,
            ),
    decreases s.len(),
{
    if s.len() == 0 {
        assert(grid_meta_zinc(s).len() == 0);
        lemma_tags_rest_stop(t, q, acc);
    } else {
        let d = s.drop_first();
        lemma_meta_step(t, q, s);
        let e: int = q + 1 + meta_entry_zinc(s[0]).len() as int;
        let it = tag_item(t, q + 1).unwrap().0;
        let acc2 = acc.push(it);
        lemma_tags_rest_step(t, q, acc, it, e);
        lemma_meta_rest_reads(t, e, d, acc2);
        let out = tags_rest(t, q, acc).0;
        assert forall|j: int| 0 <= j < acc.len() implies #[trigger] out[j] == acc[j] by {
            assert(out[j] == acc2[j]);
        }
        assert forall|j: int| 0 <= j < s.len() implies (#[trigger] out[acc.len() + j]).0 == s[j].0@ && models(
            *s[j].1,
            out[acc.len() + j].1,
        ) by {
            if j == 0 {
                assert(out[acc.len() as int] == acc2[acc.len() as int]);
            } else {
                assert(s[j] == d[j - 1]);
                assert(out[acc2.len() + (j - 1)] == out[acc.len() + j]);
            }
        }
    }
}

/// The header `ver:"3.0"` at the front reads as a version that ends before
/// the closing quote.
proof fn lemma_header_reads(t: Seq<char>)
    requires
        t.len() > 9,
        t.subrange(0, 9) == ver_header(),
    ensures
        at(t, 0, "ver:\""@),
        float_end(t, 5) == Some(8int),
        char_at(t, 8, '"'),
{
    reveal_strlit("ver:\"");
    assert(t[0] == t.subrange(0, 9)[0] && t[1] == t.subrange(0, 9)[1] && t[2] == t.subrange(0, 9)[2]);
    assert(t[3] == t.subrange(0, 9)[3] && t[4] == t.subrange(0, 9)[4] && t[5] == t.subrange(0, 9)[5]);
    assert(t[6] == t.subrange(0, 9)[6] && t[7] == t.subrange(0, 9)[7] && t[8] == t.subrange(0, 9)[8]);
    assert(t.subrange(0, 5) =~= "ver:\""@);
    assert(run_end(t, 6, Class::Digit) == 6);
    assert(run_end(t, 5, Class::Digit) == 6);
    assert(run_end(t, 8, Class::Digit) == 8);
    assert(run_end(t, 7, Class::Digit) == 8);
}

/// Metadata with entries at `9`, before a line feed at `r`, reads back as
/// those entries.
#[verifier::rlimit(50)]
#[verifier::spinoff_prover]
proof fn lemma_some_meta_reads<T>(t: Seq<char>, m: HDict<T>, r: int)
    requires
        m.wf(),
        m@.len() > 0,
        forall|j: int| 0 <= j < m@.len() ==> zinc_meta_entry(#[trigger] m@[j]),
        at(t, 9, grid_meta_zinc(m@)),
        r == 9 + grid_meta_zinc(m@).len(),
        char_at(t, r, '\n'),
    ensures
        run1(t, 9, Class::Space) == Some(10int),
        tags(t, 10) matches Some((es, f)) && f == r && models(HVal::Dict(m), ZVal::Dict(es)),
{
    let s = m@;
    let body = grid_meta_zinc(s);
    lemma_meta_zinc_front(s);
    lemma_meta_step(t, 9, s);
    let e: int = 10 + meta_entry_zinc(s[0]).len() as int;
    let it = tag_item(t, 10).unwrap().0;
    let d = s.drop_first();
    lemma_meta_rest_reads(t, e, d, seq![it]);
    let es = tags_rest(t, e, seq![it]).0;
    assert(zinc_name(s[0].0@));
    lemma_at_index(t, 9, body, 1);
    assert(body[1] == meta_entry_zinc(s[0])[0]);
    assert(!in_class(Class::Space, t[10]));
    assert(run_end(t, 10, Class::Space) == 10);
    assert(run_end(t, 9, Class::Space) == 10);
    assert(tags(t, 10) == Some((es, r)));
    assert forall|j: int| 0 <= j < s.len() implies s[j].0@ == es[j].0 && models(*s[j].1, es[j].1) by {
        if j == 0 {
            assert(es[0] == seq![it][0]);
        } else {
            assert(s[j] == d[j - 1]);
            assert(es[1 + (j - 1)] == es[j]);
        }
    }
    lemma_set_all_distinct(s);
    assert(set_all(Seq::empty(), s) == m@);
}

/// Reading the Zinc text of a grid without columns gives back its metadata,
/// entry by entry, where each entry is one that `zinc_meta_entry` admits, and
/// stops before the `empty` line. (Metadata without entries is written as
/// none at all, and so reads back as none.)
#[verifier::rlimit(50)]
#[verifier::spinoff_prover]
pub proof fn law_zinc_empty_grid_roundtrip<T>(meta: Option<HDict<T>>)
    requires
        meta matches Some(m) ==> m.wf() && m@.len() > 0 && forall|j: int|
            0 <= j < m@.len() ==> zinc_meta_entry(#[trigger] m@[j]),
    ensures
        grid(grid_zinc(HGrid::<T>::Empty { meta }), 0) matches Some((m, e)) && meta_models(meta, m) && e
            == grid_zinc(HGrid::<T>::Empty { meta }).len() - 7,
{
    reveal_strlit("\nempty");
    reveal_strlit("\nempty\n");
    let body: Seq<char> = match meta {
        Some(m) => grid_meta_zinc(m.entries@),
        None => seq![],
    };
    let t = grid_zinc(HGrid::<T>::Empty { meta });
    assert(t == ver_header() + body + "\nempty\n"@);
    let r: int = 9 + body.len() as int;
    assert(t.len() == r + 7);
    assert(t.subrange(0, 9) =~= ver_header());
    lemma_header_reads(t);
    assert(at(t, r, "\nempty"@)) by {
        assert(t.subrange(r, r + 6) =~= "\nempty"@);
    }
    assert(t[r + 6] == '\n');
    assert(run_end(t, r + 7, Class::Newline) == r + 7);
    assert(run_end(t, r + 6, Class::Newline) == r + 7);
    assert(run1(t, r + 6, Class::Newline) == Some(t.len() as int));
    assert(char_at(t, r, '\n'));
    match meta {
        None => {
            assert(run_end(t, 9, Class::Space) == 9);
        },
        Some(m) => {
            assert(at(t, 9, body)) by {
                assert(t.subrange(9, r) =~= body);
            }
            lemma_some_meta_reads(t, m, r);
        },
    }
}

} // verus!
