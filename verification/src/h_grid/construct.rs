//! Building grids from columns and rows.
use vstd::prelude::*;
use std::collections::HashMap;
use crate::text::str_eq;
use crate::h_val::{HBox, col_names, share};
use crate::h_dict::{HDict, lookup, enumerates, has_key};
use crate::h_grid::{HGrid, HCol};

verus! {

/// The column names after adding, in order, each name of `keys` that is not
/// among them yet.
pub open spec fn add_names<T>(names: Seq<Seq<char>>, keys: Seq<(String, HBox<T>)>) -> Seq<Seq<char>>
    decreases keys.len(),
{
    if keys.len() == 0 {
        names
    } else {
        let n = add_names(names, keys.drop_last());
        if n.contains(keys.last().0@) {
            n
        } else {
            n.push(keys.last().0@)
        }
    }
}

/// The column names after adding, row by row, the names of the rows' entries.
pub open spec fn names_after<T>(names: Seq<Seq<char>>, rows: Seq<HDict<T>>) -> Seq<Seq<char>>
    decreases rows.len(),
{
    if rows.len() == 0 {
        names
    } else {
        add_names(names_after(names, rows.drop_last()), rows.last()@)
    }
}

/// Whether column `j` is the first column with its name.
pub open spec fn is_first_col<T>(cols: Seq<HCol<T>>, j: int) -> bool {
    forall|m: int| 0 <= m < j ==> cols[m].name@ != cols[j].name@
}

/// The cell in column `j` of a row with entries `row`: the entry named like
/// the column, which the first column of that name takes; later columns of
/// the same name stay empty.
pub open spec fn entry_cell<T>(cols: Seq<HCol<T>>, row: Seq<(String, HBox<T>)>, j: int) -> Option<HBox<T>> {
    if is_first_col(cols, j) {
        lookup(row, cols[j].name@)
    } else {
        None
    }
}

/// `g` is the grid of the columns `columns` and the rows `rows`: the given
/// columns come first, then a column for each new name the rows' entries
/// bring, in the order they come; each row has a cell for every column known
/// when it was added (`entry_cell`); the metadata is empty.
pub open spec fn built_from<T>(columns: Seq<HCol<T>>, rows: Seq<HDict<T>>, g: HGrid<T>) -> bool {
    match g {
        HGrid::Grid { meta, cols, rows: cells } => {
            &&& meta@.len() == 0
            &&& col_names(cols@) == names_after(col_names(columns), rows)
            &&& cols@.len() >= columns.len()
            &&& forall|j: int| 0 <= j < columns.len() ==> cols@[j] == columns[j]
            &&& forall|j: int| columns.len() <= j < cols@.len() ==> (#[trigger] cols@[j]).meta@.len() == 0
            &&& cells@.len() == rows.len()
            &&& forall|i: int|
                0 <= i < rows.len() ==> (#[trigger] cells@[i])@.len() == names_after(
                    col_names(columns),
                    rows.take(i + 1),
                ).len()
            &&& forall|i: int, j: int|
                0 <= i < rows.len() && 0 <= j < cells@[i]@.len() ==> cells@[i]@[j] == entry_cell(
                    cols@,
                    rows[i]@,
                    j,
                )
        },
        _ => false,
    }
}

/// Whether a column is named `key`.
pub(crate) fn col_exists<T>(cols: &Vec<HCol<T>>, key: &str) -> (r: bool)
    ensures
        r == col_names(cols@).contains(key@),
{
    let mut j: usize = 0;
    while j < cols.len()
        invariant
            j <= cols@.len(),
            forall|m: int| 0 <= m < j ==> cols@[m].name@ != key@,
        decreases cols@.len() - j,
    {
        if str_eq(cols[j].name.as_str(), key) {
            assert(col_names(cols@)[j as int] == key@);
            return true;
        }
        j = j + 1;
    }
    assert forall|m: int| 0 <= m < col_names(cols@).len() implies col_names(cols@)[m] != key@ by {
        assert(col_names(cols@)[m] == cols@[m].name@);
    }
    false
}

/// Whether column `j` is the first column with its name.
fn is_first<T>(cols: &Vec<HCol<T>>, j: usize) -> (r: bool)
    requires
        j < cols@.len(),
    ensures
        r == is_first_col(cols@, j as int),
{
    let mut m: usize = 0;
    while m < j
        invariant
            j < cols@.len(),
            m <= j,
            forall|k: int| 0 <= k < m ==> cols@[k].name@ != cols@[j as int].name@,
        decreases j - m,
    {
        if str_eq(cols[m].name.as_str(), cols[j].name.as_str()) {
            return false;
        }
        m = m + 1;
    }
    true
}

/// Adds a column without metadata for each name of the row's entries that no
/// column has yet, in the order of the entries.
fn add_row_cols<T>(cols: &mut Vec<HCol<T>>, row: &HDict<T>)
    ensures
        final(cols)@.len() >= old(cols)@.len(),
        forall|j: int| 0 <= j < old(cols)@.len() ==> final(cols)@[j] == old(cols)@[j],
        forall|j: int|
            old(cols)@.len() <= j < final(cols)@.len() ==> (#[trigger] final(cols)@[j]).meta@.len() == 0
                && final(cols)@[j].wf(),
        col_names(final(cols)@) == add_names(col_names(old(cols)@), row@),
{
    let ghost start = cols@;
    let mut k: usize = 0;
    while k < row.entries.len()
        invariant
            k <= row@.len(),
            cols@.len() >= start.len(),
            forall|j: int| 0 <= j < start.len() ==> cols@[j] == start[j],
            forall|j: int| start.len() <= j < cols@.len() ==> (#[trigger] cols@[j]).meta@.len() == 0 && cols@[j].wf(),
            col_names(cols@) == add_names(col_names(start), row@.take(k as int)),
        decreases row@.len() - k,
    {
        proof {
            assert(row@.take(k + 1).drop_last() == row@.take(k as int));
            assert(row@.take(k + 1).last() == row@[k as int]);
        }
        let key = &row.entries[k].0;
        if !col_exists(cols, key.as_str()) {
            let ghost before = cols@;
            let c = HCol { name: key.clone(), meta: HDict::new() };
            cols.push(c);
            proof {
                assert(col_names(cols@) == col_names(before).push(key@));
            }
        }
        k = k + 1;
    }
    assert(row@.take(row@.len() as int) == row@);
}

/// The cells of a row with the entries of `row`, one per column (see `entry_cell`).
fn row_cells<T>(cols: &Vec<HCol<T>>, row: &HDict<T>) -> (r: Vec<Option<HBox<T>>>)
    requires
        row.wf(),
    ensures
        r@.len() == cols@.len(),
        forall|j: int| 0 <= j < cols@.len() ==> r@[j] == entry_cell(cols@, row@, j),
{
    let mut out: Vec<Option<HBox<T>>> = Vec::new();
    let mut j: usize = 0;
    while j < cols.len()
        invariant
            row.wf(),
            j <= cols@.len(),
            out@.len() == j,
            forall|m: int| 0 <= m < j ==> out@[m] == entry_cell(cols@, row@, m),
        decreases cols@.len() - j,
    {
        let cell = if is_first(cols, j) {
            match row.get(cols[j].name.as_str()) {
                Some(v) => Some(share(v)),
                None => None,
            }
        } else {
            None
        };
        out.push(cell);
        j = j + 1;
    }
    out
}

/// A column's cell does not change when columns are added after it.
proof fn lemma_entry_cell_prefix<T>(a: Seq<HCol<T>>, b: Seq<HCol<T>>, row: Seq<(String, HBox<T>)>, j: int)
    requires
        a.len() <= b.len(),
        forall|m: int| 0 <= m < a.len() ==> b[m] == a[m],
        0 <= j < a.len(),
    ensures
        entry_cell(a, row, j) == entry_cell(b, row, j),
{
    assert(is_first_col(a, j) == is_first_col(b, j)) by {
        if is_first_col(a, j) {
            assert forall|m: int| 0 <= m < j implies b[m].name@ != b[j].name@ by {
                assert(a[m].name@ != a[j].name@);
            }
        } else {
            let m = choose|m: int| 0 <= m < j && a[m].name@ == a[j].name@;
            assert(b[m].name@ == b[j].name@);
        }
    }
}

/// The given columns, if any.
pub open spec fn given_cols<T>(g_columns: Option<Vec<HCol<T>>>) -> Seq<HCol<T>> {
    match g_columns {
        Some(c) => c@,
        None => Seq::empty(),
    }
}

impl<T> HGrid<T> {
    /// The grid of the columns `columns` and the rows `rows` (see
    /// `built_from`); the entries of each row are taken in their order.
    pub fn from_dicts(columns: Vec<HCol<T>>, rows: &Vec<HDict<T>>) -> (r: HGrid<T>)
        requires
            forall|i: int| 0 <= i < rows@.len() ==> (#[trigger] rows@[i]).wf(),
        ensures
            built_from(columns@, rows@, r),
            (forall|j: int| 0 <= j < columns@.len() ==> (#[trigger] columns@[j]).wf()) ==> r.wf(),
    {
        let ghost given = columns@;
        let ghost base = col_names(columns@);
        let mut cols = columns;
        let mut cells: Vec<Vec<Option<HBox<T>>>> = Vec::new();
        let mut i: usize = 0;
        while i < rows.len()
            invariant
                i <= rows@.len(),
                forall|a: int| 0 <= a < rows@.len() ==> (#[trigger] rows@[a]).wf(),
                cols@.len() >= given.len(),
                forall|j: int| 0 <= j < given.len() ==> cols@[j] == given[j],
                forall|j: int| given.len() <= j < cols@.len() ==> (#[trigger] cols@[j]).meta@.len() == 0 && cols@[j].wf(),
                col_names(cols@) == names_after(base, rows@.take(i as int)),
                cells@.len() == i,
                forall|a: int| 0 <= a < i ==> (#[trigger] cells@[a])@.len() == names_after(base, rows@.take(a + 1)).len(),
                forall|a: int| 0 <= a < i ==> (#[trigger] cells@[a])@.len() <= cols@.len(),
                forall|a: int, j: int|
                    0 <= a < i && 0 <= j < cells@[a]@.len() ==> cells@[a]@[j] == entry_cell(cols@, rows@[a]@, j),
            decreases rows@.len() - i,
        {
            let row = &rows[i];
            let ghost before = cols@;
            add_row_cols(&mut cols, row);
            let new_cells = row_cells(&cols, row);
            proof {
                assert(rows@.take(i + 1).drop_last() == rows@.take(i as int));
                assert(rows@.take(i + 1).last() == rows@[i as int]);
                assert forall|a: int, j: int|
                    0 <= a < i && 0 <= j < cells@[a]@.len() implies cells@[a]@[j] == entry_cell(cols@, rows@[a]@, j) by {
                    lemma_entry_cell_prefix(before, cols@, rows@[a]@, j);
                }
                assert(col_names(cols@).len() == cols@.len());
            }
            cells.push(new_cells);
            i = i + 1;
        }
        assert(rows@.take(rows@.len() as int) == rows@);
        proof {
            if forall|j: int| 0 <= j < given.len() ==> (#[trigger] given[j]).wf() {
                assert forall|j: int| 0 <= j < cols@.len() implies (#[trigger] cols@[j]).wf() by {
                    if j < given.len() {
                        assert(cols@[j] == given[j]);
                    }
                }
            }
        }
        HGrid::Grid { meta: HDict::new(), cols, rows: cells }
    }

    /// The grid of the given columns, if any, and the rows `grid_rows`: the
    /// given columns come first, then a column for each new name the rows
    /// bring, in the order each map hands out its entries (see `built_from`).
    pub fn new(g_columns: Option<Vec<HCol<T>>>, grid_rows: Vec<HashMap<String, HBox<T>>>) -> (r: HGrid<T>)
        ensures
            exists|d: Seq<HDict<T>>|
                d.len() == grid_rows@.len() && (forall|i: int|
                    0 <= i < d.len() ==> (#[trigger] d[i]).wf() && enumerates(d[i]@, grid_rows@[i]@))
                    && #[trigger] built_from(given_cols(g_columns), d, r),
            (g_columns matches Some(c) ==> forall|j: int| 0 <= j < c@.len() ==> (#[trigger] c@[j]).wf()) ==> r.wf(),
    {
        let ghost all = grid_rows@;
        let mut maps = grid_rows;
        let n = maps.len();
        let mut dicts: Vec<HDict<T>> = Vec::new();
        let mut i: usize = 0;
        while maps.len() > 0
            invariant
                n == all.len(),
                i <= all.len(),
                maps@ == all.skip(i as int),
                dicts@.len() == i,
                forall|k: int| 0 <= k < i ==> (#[trigger] dicts@[k]).wf() && enumerates(dicts@[k]@, all[k]@),
            decreases maps@.len(),
        {
            let m = maps.remove(0);
            proof {
                assert(m == all[i as int]);
                assert(all.skip(i + 1) == all.skip(i as int).remove(0));
            }
            let d = HDict::from_map(m);
            dicts.push(d);
            i = i + 1;
        }
        let columns = match g_columns {
            Some(c) => c,
            None => Vec::new(),
        };
        assert(columns@ == given_cols(g_columns));
        let r = HGrid::from_dicts(columns, &dicts);
        assert(dicts@.len() == grid_rows@.len());
        assert(built_from(given_cols(g_columns), dicts@, r));
        r
    }
}

/// Adding names keeps the names already there in place and brings in every
/// name of `keys`.
proof fn lemma_add_names<T>(names: Seq<Seq<char>>, keys: Seq<(String, HBox<T>)>)
    ensures
        add_names(names, keys).len() >= names.len(),
        forall|m: int| 0 <= m < names.len() ==> add_names(names, keys)[m] == names[m],
        forall|m: int| 0 <= m < keys.len() ==> add_names(names, keys).contains(#[trigger] keys[m].0@),
    decreases keys.len(),
{
    if keys.len() > 0 {
        let d = keys.drop_last();
        lemma_add_names(names, d);
        let n = add_names(names, d);
        let r = add_names(names, keys);
        assert forall|m: int| 0 <= m < keys.len() implies r.contains(#[trigger] keys[m].0@) by {
            if m < keys.len() - 1 {
                assert(d[m] == keys[m]);
                assert(n.contains(d[m].0@));
                let w = choose|w: int| 0 <= w < n.len() && n[w] == d[m].0@;
                assert(r[w] == n[w]);
            } else {
                if !n.contains(keys.last().0@) {
                    assert(r[n.len() as int] == keys.last().0@);
                }
            }
        }
    }
}

/// The names after the first `i` rows are the first names after all rows.
proof fn lemma_names_after_prefix<T>(names: Seq<Seq<char>>, rows: Seq<HDict<T>>, i: int)
    requires
        0 <= i <= rows.len(),
    ensures
        names_after(names, rows.take(i)).len() <= names_after(names, rows).len(),
        forall|m: int| 0 <= m < names_after(names, rows.take(i)).len() ==> names_after(names, rows)[m]
            == names_after(names, rows.take(i))[m],
    decreases rows.len(),
{
    if i == rows.len() {
        assert(rows.take(i) == rows);
    } else {
        let d = rows.drop_last();
        assert(d.take(i) == rows.take(i));
        lemma_names_after_prefix(names, d, i);
        lemma_add_names(names_after(names, d), rows.last()@);
        let a = names_after(names, rows.take(i));
        let b = names_after(names, d);
        let c = names_after(names, rows);
        assert(c == add_names(b, rows.last()@));
        assert forall|m: int| 0 <= m < a.len() implies c[m] == a[m] by {
            assert(b[m] == a[m]);
            assert(c[m] == b[m]);
        }
    }
}

/// A grid built from rows keeps every entry of every row: for each name of
/// row `i` there is a column of that name whose cell in row `i` holds the
/// entry's value.
pub proof fn law_grid_keeps_entries<T>(columns: Seq<HCol<T>>, rows: Seq<HDict<T>>, g: HGrid<T>, i: int, k: Seq<char>)
    requires
        built_from(columns, rows, g),
        0 <= i < rows.len(),
        has_key(rows[i]@, k),
    ensures
        g matches HGrid::Grid { cols, rows: cells, .. } && exists|j: int|
            0 <= j < cells@[i]@.len() && cols@[j].name@ == k && cells@[i]@[j] == lookup(rows[i]@, k),
{
    let base = col_names(columns);
    let n = names_after(base, rows.take(i + 1));
    assert(rows.take(i + 1).drop_last() == rows.take(i));
    assert(rows.take(i + 1).last() == rows[i]);
    assert(n == add_names(names_after(base, rows.take(i)), rows[i]@));
    lemma_add_names(names_after(base, rows.take(i)), rows[i]@);
    let w = choose|w: int| 0 <= w < rows[i]@.len() && rows[i]@[w].0@ == k;
    assert(n.contains(rows[i]@[w].0@));
    n.index_of_first_ensures(k);
    let j = n.index_of_first(k).unwrap();
    lemma_names_after_prefix(base, rows, i + 1);
    match g {
        HGrid::Grid { cols, rows: cells, .. } => {
            let all = col_names(cols@);
            assert(all == names_after(base, rows));
            assert(cells@[i]@.len() == n.len());
            assert(all[j] == n[j]);
            assert(cols@[j].name@ == k);
            assert(is_first_col(cols@, j)) by {
                assert forall|m: int| 0 <= m < j implies cols@[m].name@ != cols@[j].name@ by {
                    assert(all[m] == n[m]);
                    assert(cols@[m].name@ == all[m]);
                }
            }
            assert(cells@[i]@[j] == entry_cell(cols@, rows[i]@, j));
        },
        _ => {},
    }
}

} // verus!
