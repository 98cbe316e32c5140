//! What the Trio, JSON and Zinc texts of a grid hold, stated of every grid:
//! the Trio text separates consecutive rows by a `---` line, the JSON text of
//! a row holds every present non-null cell, and the Zinc text of a column
//! holds each of its metadata entries.
use vstd::prelude::*;
use crate::h_val::{HBox, HVal, rows_trio, grid_trio, cells_json, rows_json, grid_json, json_of, col_names,
    col_zinc, col_meta_zinc, zinc_of};
use crate::h_grid::HGrid;
use crate::h_grid::h_col::HCol;

verus! {

/// Whether `piece` occurs in `t`.
pub open spec fn holds_text(t: Seq<char>, piece: Seq<char>) -> bool {
    exists|i: int| 0 <= i && i + piece.len() <= t.len() && #[trigger] t.subrange(i, i + piece.len()) == piece
}

/// A text holds itself.
proof fn lemma_holds_self(t: Seq<char>)
    ensures
        holds_text(t, t),
{
    assert(t.subrange(0int, 0int + t.len()) =~= t);
}

/// A text `a` that holds `piece` is held, with the piece, by `x + a + y`.
proof fn lemma_holds_inside(x: Seq<char>, a: Seq<char>, y: Seq<char>, piece: Seq<char>)
    requires
        holds_text(a, piece),
    ensures
        holds_text(x + a + y, piece),
{
    let i = choose|i: int| 0 <= i && i + piece.len() <= a.len() && #[trigger] a.subrange(i, i + piece.len()) == piece;
    let t = x + a + y;
    let k = x.len() + i;
    assert(t.subrange(k, k + piece.len()) =~= a.subrange(i, i + piece.len()));
}

/// What a text holds, a text that holds it holds too.
proof fn lemma_holds_trans(t: Seq<char>, a: Seq<char>, piece: Seq<char>)
    requires
        holds_text(t, a),
        holds_text(a, piece),
    ensures
        holds_text(t, piece),
{
    let i = choose|i: int| 0 <= i && i + a.len() <= t.len() && #[trigger] t.subrange(i, i + a.len()) == a;
    let j = choose|j: int| 0 <= j && j + piece.len() <= a.len() && #[trigger] a.subrange(j, j + piece.len()) == piece;
    assert(t.subrange(i + j, i + j + piece.len()) =~= a.subrange(j, j + piece.len()));
}

// ---------------------------------------------------------------------------
// Trio
// ---------------------------------------------------------------------------

/// The rows of a grid split at `i` give the Trio text of the first `i` rows,
/// a `---` line, and the Trio text of the others.
proof fn lemma_rows_trio_split<T>(rows: Seq<Vec<Option<HBox<T>>>>, n: nat, i: int)
    requires
        0 < i < rows.len(),
    ensures
        rows_trio(rows, n) == rows_trio(rows.take(i), n) + "---\n"@ + rows_trio(rows.skip(i), n),
    decreases rows.len(),
{
    let k = rows.len() - 1;
    let dl = rows.drop_last();
    let tail = rows.skip(i);
    assert(tail.last() == rows.last());
    if i == k {
        assert(rows.take(i) =~= dl);
        assert(tail.len() == 1);
        assert(tail[0] == rows.last());
    } else {
        lemma_rows_trio_split(dl, n, i);
        assert(dl.take(i) =~= rows.take(i));
        assert(tail.drop_last() =~= dl.skip(i));
        assert(tail.len() >= 2);
        let last = if rows.last()@.len() > n {
            crate::h_val::cells_trio(rows.last()@.take(n as int))
        } else {
            crate::h_val::cells_trio(rows.last()@)
        };
        assert(rows_trio(tail, n) == rows_trio(dl.skip(i), n) + "---\n"@ + last);
        assert(rows_trio(rows, n) == rows_trio(dl, n) + "---\n"@ + last);
        assert(rows_trio(rows, n) =~= rows_trio(rows.take(i), n) + "---\n"@ + rows_trio(rows.skip(i), n));
    }
}

/// The Trio text of a grid separates consecutive rows by a `---` line: where
/// the rows are split after any `i` of them (but not before the first or
/// after the last), the text is the Trio text of the first `i` rows, `---`
/// and a line feed, and the Trio text of the other rows. So a grid of `k`
/// rows has `k - 1` separator lines, one between each two consecutive rows.
pub proof fn law_trio_rows_separated<T>(g: HGrid<T>, i: int)
    requires
        g is Grid,
        0 < i < g->rows@.len(),
    ensures
        grid_trio(g) == rows_trio(g->rows@.take(i), g->cols@.len()) + "---\n"@ + rows_trio(
            g->rows@.skip(i),
            g->cols@.len(),
        ),
{
    lemma_rows_trio_split(g->rows@, g->cols@.len(), i);
}

// ---------------------------------------------------------------------------
// JSON
// ---------------------------------------------------------------------------

/// The JSON text of a cell named `name` that holds `v`: `"name":"value"`.
pub open spec fn json_cell<T>(name: Seq<char>, v: HBox<T>) -> Seq<char> {
    seq!['"'] + name + seq!['"', ':', '"'] + json_of(*v) + seq!['"']
}

/// The JSON text of the cells of a row holds each present non-null cell.
proof fn lemma_cells_json_holds<T>(names: Seq<Seq<char>>, cells: Seq<Option<HBox<T>>>, j: int)
    requires
        0 <= j < names.len(),
        j < cells.len(),
        cells[j] matches Some(v) && !((*v) is Null),
    ensures
        holds_text(cells_json(names, cells), json_cell(names[j], cells[j].unwrap())),
    decreases cells.len(),
{
    let t = cells_json(names, cells);
    let rest = cells_json(names.drop_first(), cells.drop_first());
    let v = cells[0];
    let piece0 = t.subrange(0, t.len() - rest.len());
    assert(t =~= piece0 + rest);
    if j == 0 {
        let c = json_cell(names[0], cells[0].unwrap());
        let more = crate::h_val::cells_have_non_null(names.drop_first(), cells.drop_first());
        let sep = if more { seq![','] } else { Seq::<char>::empty() };
        assert(t =~= c + sep + rest);
        assert(t.subrange(0int, 0int + c.len()) =~= c);
    } else {
        lemma_cells_json_holds(names.drop_first(), cells.drop_first(), j - 1);
        assert(names.drop_first()[j - 1] == names[j]);
        assert(cells.drop_first()[j - 1] == cells[j]);
        lemma_holds_inside(piece0, rest, seq![], json_cell(names[j], cells[j].unwrap()));
        assert(piece0 + rest + Seq::<char>::empty() =~= t);
    }
}

/// The JSON text of the rows of a grid holds the JSON text of each row's cells.
proof fn lemma_rows_json_holds<T>(cols: Seq<HCol<T>>, rows: Seq<Vec<Option<HBox<T>>>>, r: int)
    requires
        0 <= r < rows.len(),
    ensures
        holds_text(rows_json(cols, rows), cells_json(col_names(cols), rows[r]@)),
    decreases rows.len(),
{
    let c = cells_json(col_names(cols), rows[r]@);
    lemma_holds_self(c);
    if rows.len() == 1 {
        lemma_holds_inside(seq!['{'], c, seq!['}'], c);
    } else if r == rows.len() - 1 {
        lemma_holds_inside(rows_json(cols, rows.drop_last()) + seq![','] + seq!['{'], c, seq!['}'], c);
        assert(rows_json(cols, rows) =~= rows_json(cols, rows.drop_last()) + seq![','] + seq!['{'] + c + seq!['}']);
    } else {
        lemma_rows_json_holds(cols, rows.drop_last(), r);
        assert(rows.drop_last()[r] == rows[r]);
        let a = rows_json(cols, rows.drop_last());
        let y = seq![','] + seq!['{'] + cells_json(col_names(cols), rows.last()@) + seq!['}'];
        lemma_holds_inside(seq![], a, y, c);
        assert(Seq::<char>::empty() + a + y =~= rows_json(cols, rows));
    }
}

/// The JSON text of a grid holds, for every row and every column whose cell
/// in that row is present and not null, `"column":"value"` with the JSON text
/// of the value (markers, strings, numbers and the rest alike); only null and
/// absent cells are left out.
pub proof fn law_json_rows_hold_cells<T>(g: HGrid<T>, r: int, j: int)
    requires
        g is Grid,
        0 <= r < g->rows@.len(),
        0 <= j < g->cols@.len(),
        j < g->rows@[r]@.len(),
        g->rows@[r]@[j] matches Some(v) && !((*v) is Null),
    ensures
        holds_text(grid_json(g), json_cell(g->cols@[j].name@, g->rows@[r]@[j].unwrap())),
{
    let cols = g->cols@;
    let rows = g->rows@;
    let names = col_names(cols);
    assert(names[j] == cols[j].name@);
    lemma_cells_json_holds(names, rows[r]@, j);
    lemma_rows_json_holds(cols, rows, r);
    let c = cells_json(names, rows[r]@);
    lemma_holds_trans(rows_json(cols, rows), c, json_cell(names[j], rows[r]@[j].unwrap()));
    match g {
        HGrid::Grid { meta, cols: gc, rows: gr } => {
            let x = "{\n  \"meta\": {\"ver\":\"3.0\""@ + crate::h_val::meta_json(meta.entries@) + "},\n  \"cols\": [\n"@
                + crate::h_val::cols_json(gc@) + "],\n  \"rows\": [\n"@;
            let y = "],\n},\n"@;
            lemma_holds_inside(x, rows_json(cols, rows), y, json_cell(names[j], rows[r]@[j].unwrap()));
            assert(grid_json(g) =~= x + rows_json(cols, rows) + y);
        },
        _ => {},
    }
}

// ---------------------------------------------------------------------------
// Zinc columns
// ---------------------------------------------------------------------------

/// The Zinc text of a metadata entry of a column: the name for a marker, else
/// `name:value`.
pub open spec fn col_meta_entry<T>(e: (String, HBox<T>)) -> Seq<char> {
    match *e.1 {
        HVal::Marker(_) => e.0@,
        _ => e.0@ + seq![':'] + zinc_of(*e.1),
    }
}

/// Behind a space, the Zinc text of column metadata holds each entry behind a
/// space.
proof fn lemma_col_meta_holds<T>(s: Seq<(String, HBox<T>)>, i: int)
    requires
        0 <= i < s.len(),
    ensures
        holds_text(seq![' '] + col_meta_zinc(s), seq![' '] + col_meta_entry(s[i])),
    decreases s.len(),
{
    let piece = seq![' '] + col_meta_entry(s[i]);
    if s.len() == 1 {
        assert(seq![' '] + col_meta_zinc(s) =~= piece);
        lemma_holds_self(piece);
    } else {
        let a = seq![' '] + col_meta_zinc(s.drop_last());
        assert(seq![' '] + col_meta_zinc(s) =~= a + (seq![' '] + col_meta_entry(s.last())));
        if i == s.len() - 1 {
            lemma_holds_self(piece);
            lemma_holds_inside(a, piece, seq![], piece);
            assert(a + piece + Seq::<char>::empty() =~= a + piece);
        } else {
            lemma_col_meta_holds(s.drop_last(), i);
            assert(s.drop_last()[i] == s[i]);
            let y = seq![' '] + col_meta_entry(s.last());
            lemma_holds_inside(seq![], a, y, piece);
            assert(Seq::<char>::empty() + a + y =~= a + y);
        }
    }
}

/// The Zinc text of a column with metadata is its name, then a space, and it
/// holds every metadata entry (its name for a marker, else `name:value`) each
/// behind a space.
pub proof fn law_col_zinc_holds_meta<T>(c: HCol<T>, i: int)
    requires
        0 <= i < c.meta.entries@.len(),
    ensures
        col_zinc(c).take(c.name@.len() as int) == c.name@,
        col_zinc(c)[c.name@.len() as int] == ' ',
        holds_text(col_zinc(c), seq![' '] + col_meta_entry(c.meta.entries@[i])),
{
    let s = c.meta.entries@;
    let m = seq![' '] + col_meta_zinc(s);
    assert(col_zinc(c) =~= c.name@ + m);
    assert(col_zinc(c).take(c.name@.len() as int) =~= c.name@);
    lemma_col_meta_holds(s, i);
    lemma_holds_inside(c.name@, m, seq![], seq![' '] + col_meta_entry(s[i]));
    assert(c.name@ + m + Seq::<char>::empty() =~= c.name@ + m);
}

} // verus!
