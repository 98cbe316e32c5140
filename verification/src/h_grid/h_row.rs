//! A row of a grid.
use vstd::prelude::*;
use crate::text::{push_char, push_str, str_eq};
use crate::h_dict::{HDict, set_all};
use crate::h_val::{HBox, HVal, share, row_zinc, row_trio, cells_zinc, cell_zinc, cells_trio, commas, trio_of,
    cells_json, cells_have_non_null, col_names};
use crate::h_grid::HCol;

verus! {

/// A row of a grid: the grid's columns and the row's cells; a cell is empty
/// where the row holds no value for the column.
#[derive(Clone, Debug)]
pub struct HRow<T> {
    pub cols: Vec<HCol<T>>,
    pub inner: Vec<Option<HBox<T>>>,
}

/// The row type under its short name.
pub type Row<T> = HRow<T>;

/// The position of the first column named `key`, if any.
pub open spec fn first_col<T>(cols: Seq<HCol<T>>, key: Seq<char>) -> Option<int> {
    if exists|j: int| 0 <= j < cols.len() && cols[j].name@ == key {
        Some(choose|j: int| 0 <= j < cols.len() && cols[j].name@ == key && forall|m: int| 0 <= m < j ==> cols[m].name@ != key)
    } else {
        None
    }
}

/// The cell of the first column named `key`, if the row holds one.
pub open spec fn row_cell<T>(cols: Seq<HCol<T>>, cells: Seq<Option<HBox<T>>>, key: Seq<char>) -> Option<HBox<T>> {
    match first_col(cols, key) {
        Some(j) => if j < cells.len() { cells[j] } else { None },
        None => None,
    }
}

/// The position of the first column named `key`, if any.
pub(crate) fn find_col<T>(cols: &Vec<HCol<T>>, key: &str) -> (r: Option<usize>)
    ensures
        r matches Some(j) ==> first_col(cols@, key@) == Some(j as int) && j < cols@.len() && cols@[j as int].name@ == key@,
        r is None ==> first_col(cols@, key@) is None,
{
    let mut j: usize = 0;
    while j < cols.len()
        invariant
            j <= cols@.len(),
            forall|m: int| 0 <= m < j ==> cols@[m].name@ != key@,
        decreases cols@.len() - j,
    {
        if str_eq(cols[j].name.as_str(), key) {
            proof {
                let c = choose|x: int| 0 <= x < cols@.len() && cols@[x].name@ == key@ && forall|m: int| 0 <= m < x ==> cols@[m].name@ != key@;
                assert(c == j) by {
                    if c < j {
                    } else if c > j {
                        assert(cols@[j as int].name@ == key@);
                    }
                }
            }
            return Some(j);
        }
        j = j + 1;
    }
    None
}

/// Adding a column to the text of a row: the text for `k + 1` columns is the
/// text for `k` columns, a comma unless `k` is zero, and the Zinc text of
/// cell `k` (nothing where the row holds no cell `k`).
pub proof fn lemma_row_zinc_step<T>(cells: Seq<Option<HBox<T>>>, k: nat)
    ensures
        row_zinc(cells, k + 1) == row_zinc(cells, k) + (if k > 0 { seq![','] } else { seq![] }) + (
        if k < cells.len() { cell_zinc(cells[k as int]) } else { seq![] }),
{
    let len = cells.len();
    if len > k + 1 {
        let t = cells.take((k + 1) as int);
        assert(t.drop_last() == cells.take(k as int));
        assert(t.last() == cells[k as int]);
        if k == 0 {
            assert(t[0] == cells[0]);
            assert(cells.take(0) == Seq::<Option<HBox<T>>>::empty());
        }
    } else if len == k + 1 {
        assert(cells.drop_last() == cells.take(k as int));
        assert(commas(0) == Seq::<char>::empty());
        if k == 0 {
            assert(cells.take(0) == Seq::<Option<HBox<T>>>::empty());
        }
    } else if len == 0 {
        if k > 0 {
            assert(commas(k) == commas((k - 1) as nat) + seq![',']);
        }
    } else {
        assert(commas((k + 1 - len) as nat) == commas((k - len) as nat) + seq![',']);
    }
}

/// Adding a column to the Trio text of a row appends the Trio text of cell `k`, if any.
pub proof fn lemma_row_trio_step<T>(cells: Seq<Option<HBox<T>>>, k: nat)
    ensures
        row_trio(cells, k + 1) == row_trio(cells, k) + (if k < cells.len() {
            match cells[k as int] {
                Some(v) => trio_of(*v),
                None => seq![],
            }
        } else {
            seq![]
        }),
{
    let len = cells.len();
    if len > k + 1 {
        let t = cells.take((k + 1) as int);
        assert(t.drop_last() == cells.take(k as int));
        assert(t.last() == cells[k as int]);
    } else if len == k + 1 {
        assert(cells.drop_last() == cells.take(k as int));
    }
}

/// Writes the Zinc text of a row of a grid with `n` columns.
pub(crate) fn write_row_zinc<T>(cells: &Vec<Option<HBox<T>>>, n: usize, buf: &mut String)
    ensures
        final(buf)@ == old(buf)@ + row_zinc(cells@, n as nat),
    decreases cells,
{
    let ghost start = buf@;
    let mut k: usize = 0;
    while k < n
        invariant
            k <= n,
            buf@ == start + row_zinc(cells@, k as nat),
        decreases n - k,
    {
        proof { lemma_row_zinc_step(cells@, k as nat); }
        if k > 0 {
            push_char(buf, ',');
        }
        if k < cells.len() {
            match &cells[k] {
                Some(v) => {
                    let x: &HVal<T> = &**v;
                    proof {
                        assert(decreases_to!(*cells => *cells@[k as int].unwrap()));
                    }
                    let _ = x.to_zinc(buf);
                },
                None => {},
            }
        }
        k = k + 1;
    }
}

/// Writes the Trio text of a row of a grid with `n` columns.
pub(crate) fn write_row_trio<T>(cells: &Vec<Option<HBox<T>>>, n: usize, buf: &mut String)
    ensures
        final(buf)@ == old(buf)@ + row_trio(cells@, n as nat),
    decreases cells,
{
    let ghost start = buf@;
    let mut k: usize = 0;
    assert(row_trio(cells@, 0) == Seq::<char>::empty()) by {
        if cells@.len() > 0 {
            assert(cells@.take(0) == Seq::<Option<HBox<T>>>::empty());
        } else {
            assert(cells@ == Seq::<Option<HBox<T>>>::empty());
        }
    }
    while k < n
        invariant
            k <= n,
            buf@ == start + row_trio(cells@, k as nat),
        decreases n - k,
    {
        proof { lemma_row_trio_step(cells@, k as nat); }
        if k < cells.len() {
            match &cells[k] {
                Some(v) => {
                    let x: &HVal<T> = &**v;
                    proof {
                        assert(decreases_to!(*cells => *cells@[k as int].unwrap()));
                    }
                    let _ = x.to_trio(buf);
                },
                None => {},
            }
        }
        k = k + 1;
    }
}

/// Whether a cell after position `i` (among those paired with a column) is
/// present and holds a value other than null.
fn cells_have_non_null_after<T>(cols: &Vec<HCol<T>>, cells: &Vec<Option<HBox<T>>>, i: usize) -> (r: bool)
    requires
        i < cols@.len(),
        i < cells@.len(),
    ensures
        r == cells_have_non_null(col_names(cols@).skip(i + 1), cells@.skip(i + 1)),
{
    let ghost names = col_names(cols@).skip(i + 1);
    let ghost rest = cells@.skip(i + 1);
    let n = cols.len();
    let mut j: usize = i + 1;
    while j < cols.len() && j < cells.len()
        invariant
            i + 1 <= j,
            j <= cols@.len() || j <= cells@.len(),
            names == col_names(cols@).skip(i + 1),
            rest == cells@.skip(i + 1),
            forall|m: int| i + 1 <= m < j && m < cells@.len() ==> !(#[trigger] cells@[m] matches Some(v) && !((*v) is Null)),
        decreases cells@.len() - j,
    {
        match &cells[j] {
            Some(v) => match &**v {
                HVal::Null(_) => {},
                _ => {
                    proof {
                        assert(rest[j - i - 1] == cells@[j as int]);
                        assert(names.len() == cols@.len() - (i + 1));
                    }
                    return true;
                },
            },
            None => {},
        }
        j = j + 1;
    }
    proof {
        assert forall|m: int| 0 <= m < names.len() && m < rest.len() implies !(#[trigger] rest[m] matches Some(v) && !((*v) is Null)) by {
            assert(rest[m] == cells@[m + i + 1]);
        }
    }
    false
}

/// Writes the JSON text of the cells of a row paired with the columns.
pub(crate) fn write_cells_json<T>(cols: &Vec<HCol<T>>, cells: &Vec<Option<HBox<T>>>, buf: &mut String)
    ensures
        final(buf)@ == old(buf)@ + cells_json(col_names(cols@), cells@),
    decreases cells,
{
    let ghost start = buf@;
    let ghost names = col_names(cols@);
    let mut i: usize = 0;
    assert(names.skip(0) == names);
    assert(cells@.skip(0) == cells@);
    while i < cols.len() && i < cells.len()
        invariant
            names == col_names(cols@),
            i <= cols@.len(),
            i <= cells@.len(),
            buf@ + cells_json(names.skip(i as int), cells@.skip(i as int)) == start + cells_json(names, cells@),
        decreases cells@.len() - i,
    {
        proof {
            assert(names.skip(i as int).drop_first() == names.skip(i + 1));
            assert(cells@.skip(i as int).drop_first() == cells@.skip(i + 1));
            assert(names.skip(i as int)[0] == cols@[i as int].name@);
            assert(cells@.skip(i as int)[0] == cells@[i as int]);
        }
        let more = cells_have_non_null_after(cols, cells, i);
        match &cells[i] {
            Some(v) => {
                let x: &HVal<T> = &**v;
                match x {
                    HVal::Null(_) => {},
                    _ => {
                        push_char(buf, '"');
                        push_str(buf, cols[i].name.as_str());
                        push_char(buf, '"');
                        push_char(buf, ':');
                        push_char(buf, '"');
                        proof {
                            assert(decreases_to!(*cells => *cells@[i as int].unwrap()));
                        }
                        let _ = x.to_json(buf);
                        push_char(buf, '"');
                        if more {
                            push_char(buf, ',');
                        }
                    },
                }
            },
            None => {},
        }
        i = i + 1;
    }
    proof {
        let a = names.skip(i as int);
        let b = cells@.skip(i as int);
        assert(a.len() == 0 || b.len() == 0);
    }
}

impl<T> HRow<T> {
    /// The Zinc text: the cells separated by commas, one per column.
    pub open spec fn zinc(&self) -> Seq<char> {
        row_zinc(self.inner@, self.cols@.len())
    }

    /// The Trio text: the Trio texts of the present cells, one per column.
    pub open spec fn trio(&self) -> Seq<char> {
        row_trio(self.inner@, self.cols@.len())
    }

    /// The JSON text: an object of the present non-null cells by column name.
    pub open spec fn json(&self) -> Seq<char> {
        seq!['{'] + cells_json(col_names(self.cols@), self.inner@) + seq!['}']
    }

    /// The row with columns `cols` and cells `inner`.
    pub fn new(cols: Vec<HCol<T>>, inner: Vec<Option<HBox<T>>>) -> (r: Self)
        ensures
            r.cols == cols,
            r.inner == inner,
    {
        HRow { cols, inner }
    }

    /// The value of the row in the first column named `key`, if the row holds one.
    pub fn get(&self, key: &str) -> (r: Option<HBox<T>>)
        ensures
            r == row_cell(self.cols@, self.inner@, key@),
    {
        match find_col(&self.cols, key) {
            Some(j) => {
                if j < self.inner.len() {
                    match &self.inner[j] {
                        Some(v) => Some(share(v)),
                        None => None,
                    }
                } else {
                    None
                }
            },
            None => None,
        }
    }

    /// Whether the row holds a value other than null in the first column named `key`.
    pub fn has(&self, key: &str) -> (r: bool)
        ensures
            r == (row_cell(self.cols@, self.inner@, key@) matches Some(v) && !((*v) is Null)),
    {
        match self.get(key) {
            Some(v) => match &*v {
                HVal::Null(_) => false,
                _ => true,
            },
            None => false,
        }
    }

    /// Writes the cells separated by commas, one per column.
    pub fn to_zinc(&self, buf: &mut String) -> (r: core::fmt::Result)
        ensures
            r is Ok,
            final(buf)@ == old(buf)@ + self.zinc(),
    {
        write_row_zinc(&self.inner, self.cols.len(), buf);
        Ok(())
    }

    /// Writes the Trio texts of the present cells, one per column.
    pub fn to_trio(&self, buf: &mut String) -> (r: core::fmt::Result)
        ensures
            r is Ok,
            final(buf)@ == old(buf)@ + self.trio(),
    {
        write_row_trio(&self.inner, self.cols.len(), buf);
        Ok(())
    }

    /// Writes an object of the present non-null cells by column name.
    pub fn to_json(&self, buf: &mut String) -> (r: core::fmt::Result)
        ensures
            r is Ok,
            final(buf)@ == old(buf)@ + self.json(),
    {
        push_char(buf, '{');
        write_cells_json(&self.cols, &self.inner, buf);
        push_char(buf, '}');
        Ok(())
    }
}

/// The entries of a row's present cells among its first `k` columns: each
/// column's name with the cell's value, in column order.
pub open spec fn row_entries<T>(cols: Seq<HCol<T>>, cells: Seq<Option<HBox<T>>>, k: int) -> Seq<(String, HBox<T>)>
    decreases k,
{
    if k <= 0 {
        seq![]
    } else {
        let before = row_entries(cols, cells, k - 1);
        if k - 1 < cells.len() && cells[k - 1] is Some {
            before.push((cols[k - 1].name, cells[k - 1].unwrap()))
        } else {
            before
        }
    }
}

/// The row as a dict: each column in turn sets its name to the row's value
/// there, where the row holds one (a later column of the same name wins).
pub fn to_dict<T>(row: HRow<T>) -> (r: HDict<T>)
    ensures
        r.wf(),
        r@ == set_all(Seq::empty(), row_entries(row.cols@, row.inner@, row.cols@.len() as int)),
{
    let mut dict: HDict<T> = HDict::new();
    let n = row.cols.len();
    let mut idx: usize = 0;
    while idx < n
        invariant
            n == row.cols@.len(),
            idx <= n,
            dict.wf(),
            dict@ == set_all(Seq::empty(), row_entries(row.cols@, row.inner@, idx as int)),
        decreases n - idx,
    {
        if idx < row.inner.len() {
            match &row.inner[idx] {
                Some(v) => {
                    let name = row.cols[idx].name.clone();
                    let ghost before = row_entries(row.cols@, row.inner@, idx as int);
                    let ghost entry = (row.cols@[idx as int].name, row.inner@[idx as int].unwrap());
                    assert(before.push(entry).drop_last() == before);
                    let _ = dict.set(name, share(v));
                },
                None => {},
            }
        }
        idx = idx + 1;
    }
    dict
}

} // verus!
