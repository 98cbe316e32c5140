//! Reading and changing grids: rows, columns and metadata.
use vstd::prelude::*;
use std::collections::HashMap;
use crate::text::str_eq;
use crate::h_val::{HBox, HVal, HType, share, col_names};
use crate::h_dict::{HDict, enumerates, extended_by};
use crate::h_grid::{HGrid, HGridErr, HCol, HRow};
use crate::h_grid::h_row::{find_col, first_col};
use crate::h_grid::construct::col_exists;

verus! {

/// Whether the columns `a` have the names and metadata of the columns `b`.
pub open spec fn same_cols<T>(a: Seq<HCol<T>>, b: Seq<HCol<T>>) -> bool {
    a.len() == b.len() && forall|j: int| 0 <= j < a.len() ==> (#[trigger] a[j]).name == b[j].name && a[j].meta@ == b[j].meta@
}

/// Whether `r` is a row of the columns `cols` holding the cells `cells`.
pub open spec fn is_row_of<T>(r: HRow<T>, cols: Seq<HCol<T>>, cells: Seq<Option<HBox<T>>>) -> bool {
    same_cols(r.cols@, cols) && r.inner@ == cells
}

/// Copies of the columns.
fn copy_cols<T>(cols: &Vec<HCol<T>>) -> (r: Vec<HCol<T>>)
    ensures
        same_cols(r@, cols@),
{
    let mut out: Vec<HCol<T>> = Vec::new();
    let mut j: usize = 0;
    while j < cols.len()
        invariant
            j <= cols@.len(),
            out@.len() == j,
            forall|m: int| 0 <= m < j ==> (#[trigger] out@[m]).name == cols@[m].name && out@[m].meta@ == cols@[m].meta@,
        decreases cols@.len() - j,
    {
        out.push(cols[j].copy());
        j = j + 1;
    }
    out
}

/// Another handle on each cell.
fn copy_cells<T>(cells: &Vec<Option<HBox<T>>>) -> (r: Vec<Option<HBox<T>>>)
    ensures
        r@ == cells@,
{
    let mut out: Vec<Option<HBox<T>>> = Vec::new();
    let mut j: usize = 0;
    while j < cells.len()
        invariant
            j <= cells@.len(),
            out@ == cells@.take(j as int),
        decreases cells@.len() - j,
    {
        let c = match &cells[j] {
            Some(v) => Some(share(v)),
            None => None,
        };
        out.push(c);
        proof {
            assert(cells@.take(j + 1) == cells@.take(j as int).push(cells@[j as int]));
        }
        j = j + 1;
    }
    assert(cells@.take(cells@.len() as int) == cells@);
    out
}

/// Whether the row `r` answers a request for row `key` of grid `g`: the row
/// if the grid is a table with such a row, else `IndexErr`.
pub open spec fn row_answer<T>(g: HGrid<T>, key: int, r: Result<HRow<T>, HGridErr>) -> bool {
    match g {
        HGrid::Grid { cols, rows, .. } => if 0 <= key < rows@.len() {
            r matches Ok(row) && is_row_of(row, cols@, rows@[key]@)
        } else {
            r == Err::<HRow<T>, HGridErr>(HGridErr::IndexErr)
        },
        _ => r == Err::<HRow<T>, HGridErr>(HGridErr::IndexErr),
    }
}

impl<T> HGrid<T> {
    /// The grid of the columns, each with the given metadata if any, and the
    /// rows exactly as given; no metadata.
    pub fn from_row_vec(
        columns: Vec<(String, Option<HashMap<String, HBox<T>>>)>,
        grid_rows: Vec<Vec<Option<HBox<T>>>>,
    ) -> (r: HGrid<T>)
        requires
            forall|i: int, j: int| 0 <= i < j < columns@.len() ==> columns@[i].0@ != columns@[j].0@,
        ensures
            r.wf(),
            r matches HGrid::Grid { meta, cols, rows } && {
                &&& meta@.len() == 0
                &&& rows@ == grid_rows@
                &&& cols@.len() == columns@.len()
                &&& forall|j: int|
                    0 <= j < cols@.len() ==> (#[trigger] cols@[j]).name == columns@[j].0 && (match columns@[j].1 {
                        Some(m) => enumerates(cols@[j].meta@, m@),
                        None => cols@[j].meta@.len() == 0,
                    })
            },
    {
        let ghost all = columns@;
        let mut rest = columns;
        let n = rest.len();
        let mut cols: Vec<HCol<T>> = Vec::new();
        let mut i: usize = 0;
        while rest.len() > 0
            invariant
                n == all.len(),
                i <= all.len(),
                rest@ == all.skip(i as int),
                cols@.len() == i,
                forall|j: int| 0 <= j < i ==> (#[trigger] cols@[j]).wf() && cols@[j].name == all[j].0 && (match all[j].1 {
                    Some(m) => enumerates(cols@[j].meta@, m@),
                    None => cols@[j].meta@.len() == 0,
                }),
            decreases rest@.len(),
        {
            let (name, meta) = rest.remove(0);
            proof {
                assert(all.skip(i + 1) == all.skip(i as int).remove(0));
            }
            cols.push(HCol::new(name, meta));
            i = i + 1;
        }
        HGrid::Grid { meta: HDict::new(), cols, rows: grid_rows }
    }

    /// Sets the entries of `meta` in the grid's metadata; an error grid has
    /// none to set (`NotImplemented`), and a grid without columns that has no
    /// metadata takes the entries as its metadata.
    pub fn add_meta(self, meta: HashMap<String, HBox<T>>) -> (r: Result<HGrid<T>, HGridErr>)
        requires
            self.wf(),
        ensures
            r matches Ok(g) ==> g.wf(),
            match self {
                HGrid::Grid { meta: m, cols, rows } => r matches Ok(HGrid::Grid { meta: m2, cols: c2, rows: r2 })
                    && c2 == cols && r2 == rows && extended_by(m@, m2@, meta@),
                HGrid::Error { .. } => r == Err::<HGrid<T>, HGridErr>(HGridErr::NotImplemented),
                HGrid::Empty { meta: None } => r matches Ok(HGrid::Empty { meta: Some(d) }) && enumerates(d@, meta@),
                HGrid::Empty { meta: Some(m) } => r matches Ok(HGrid::Empty { meta: Some(d) }) && extended_by(
                    m@,
                    d@,
                    meta@,
                ),
            },
    {
        match self {
            HGrid::Grid { meta: mut m, cols, rows } => {
                m.extend(meta);
                Ok(HGrid::Grid { meta: m, cols, rows })
            },
            HGrid::Error { .. } => Err(HGridErr::NotImplemented),
            HGrid::Empty { meta: inner } => match inner {
                Some(mut m) => {
                    m.extend(meta);
                    Ok(HGrid::Empty { meta: Some(m) })
                },
                None => Ok(HGrid::Empty { meta: Some(HDict::from_map(meta)) }),
            },
        }
    }

    /// Sets the entries of `meta` in the metadata of the first column named
    /// `col`; `NotFound` where there is none, `NotImplemented` for an error grid.
    pub fn add_col_meta(self, col: &str, meta: HashMap<String, HBox<T>>) -> (r: Result<HGrid<T>, HGridErr>)
        requires
            self.wf(),
        ensures
            r matches Ok(g) ==> g.wf(),
            match self {
                HGrid::Grid { meta: m, cols, rows } => match first_col(cols@, col@) {
                    Some(j) => r matches Ok(HGrid::Grid { meta: m2, cols: c2, rows: r2 }) && m2 == m && r2 == rows
                        && c2@.len() == cols@.len() && (forall|k: int|
                        0 <= k < cols@.len() && k != j ==> #[trigger] c2@[k] == cols@[k]) && c2@[j].name
                        == cols@[j].name && extended_by(cols@[j].meta@, c2@[j].meta@, meta@),
                    None => r == Err::<HGrid<T>, HGridErr>(HGridErr::NotFound),
                },
                HGrid::Error { .. } => r == Err::<HGrid<T>, HGridErr>(HGridErr::NotImplemented),
                HGrid::Empty { .. } => r == Err::<HGrid<T>, HGridErr>(HGridErr::NotFound),
            },
    {
        match self {
            HGrid::Grid { meta: m, mut cols, rows } => match find_col(&cols, col) {
                Some(j) => {
                    assert(cols@[j as int].wf());
                    let mut c = cols[j].copy();
                    c.add_meta(meta);
                    cols.set(j, c);
                    Ok(HGrid::Grid { meta: m, cols, rows })
                },
                None => Err(HGridErr::NotFound),
            },
            HGrid::Error { .. } => Err(HGridErr::NotImplemented),
            HGrid::Empty { .. } => Err(HGridErr::NotFound),
        }
    }

    /// Row `key` of a table, with copies of the columns; `IndexErr` where
    /// there is no such row or the grid is not a table.
    pub fn get(&self, key: usize) -> (r: Result<HRow<T>, HGridErr>)
        ensures
            row_answer(*self, key as int, r),
    {
        match self {
            HGrid::Grid { cols, rows, .. } => {
                if key < rows.len() {
                    Ok(HRow::new(copy_cols(cols), copy_cells(&rows[key])))
                } else {
                    Err(HGridErr::IndexErr)
                }
            },
            _ => Err(HGridErr::IndexErr),
        }
    }

    /// The number of rows; zero for a grid that is not a table.
    pub fn len(&self) -> (r: usize)
        ensures
            r == match *self {
                HGrid::Grid { rows, .. } => rows@.len(),
                _ => 0,
            },
    {
        match self {
            HGrid::Grid { rows, .. } => rows.len(),
            _ => 0,
        }
    }

    /// The first row of a table; `NotImplemented` for an error grid.
    pub fn first(&self) -> (r: Result<HRow<T>, HGridErr>)
        ensures
            *self is Error ==> r == Err::<HRow<T>, HGridErr>(HGridErr::NotImplemented),
            !(*self is Error) ==> row_answer(*self, 0, r),
    {
        match self {
            HGrid::Grid { .. } => self.get(0),
            HGrid::Error { .. } => Err(HGridErr::NotImplemented),
            _ => Err(HGridErr::IndexErr),
        }
    }

    /// The last row of a table that has rows; `IndexErr` for any other grid.
    pub fn last(&self) -> (r: Result<HRow<T>, HGridErr>)
        requires
            self matches HGrid::Grid { rows, .. } ==> rows@.len() > 0,
        ensures
            match *self {
                HGrid::Grid { rows, .. } => row_answer(*self, rows@.len() - 1, r),
                _ => r == Err::<HRow<T>, HGridErr>(HGridErr::IndexErr),
            },
    {
        match self {
            HGrid::Grid { .. } => {
                let length = self.len();
                self.get(length - 1)
            },
            _ => Err(HGridErr::IndexErr),
        }
    }

    /// Whether a column of a table is named `key`; for an error grid, whether
    /// `key` is `err`, `errTrace` or `dis`.
    pub fn has(&self, key: &str) -> (r: bool)
        ensures
            r == match *self {
                HGrid::Grid { cols, .. } => col_names(cols@).contains(key@),
                HGrid::Error { .. } => key@ == "err"@ || key@ == "errTrace"@ || key@ == "dis"@,
                HGrid::Empty { .. } => false,
            },
    {
        match self {
            HGrid::Grid { cols, .. } => col_exists(cols, key),
            HGrid::Error { .. } => {
                let a = "err";
                let b = "errTrace";
                let c = "dis";
                str_eq(key, a) || str_eq(key, b) || str_eq(key, c)
            },
            HGrid::Empty { .. } => false,
        }
    }

    /// A copy of the metadata of a table.
    pub fn meta(&self) -> (r: HDict<T>)
        requires
            *self is Grid,
        ensures
            self matches HGrid::Grid { meta, .. } && r@ == meta@,
    {
        match self {
            HGrid::Grid { meta, .. } => meta.copy(),
            _ => vstd::pervasive::unreached(),
        }
    }

    /// Whether the grid has no row: a table without rows, or any other grid.
    pub fn is_empty(&self) -> (r: bool)
        ensures
            r == match *self {
                HGrid::Grid { rows, .. } => rows@.len() == 0,
                _ => true,
            },
    {
        match self {
            HGrid::Grid { rows, .. } => rows.len() == 0,
            _ => true,
        }
    }

    /// Copies of the columns of a table, in order; none for any other grid.
    pub fn iter_cols(&self) -> (r: Vec<HCol<T>>)
        ensures
            match *self {
                HGrid::Grid { cols, .. } => same_cols(r@, cols@),
                _ => r@.len() == 0,
            },
    {
        match self {
            HGrid::Grid { cols, .. } => copy_cols(cols),
            _ => Vec::new(),
        }
    }

    /// The rows of a table, in order; none for any other grid.
    pub fn iter(&self) -> (r: Vec<HRow<T>>)
        ensures
            match *self {
                HGrid::Grid { cols, rows, .. } => r@.len() == rows@.len() && forall|i: int|
                    0 <= i < r@.len() ==> is_row_of(#[trigger] r@[i], cols@, rows@[i]@),
                _ => r@.len() == 0,
            },
    {
        let mut out: Vec<HRow<T>> = Vec::new();
        let n = self.len();
        let mut i: usize = 0;
        while i < n
            invariant
                n == match *self {
                    HGrid::Grid { rows, .. } => rows@.len(),
                    _ => 0,
                },
                i <= n,
                out@.len() == i,
                *self matches HGrid::Grid { cols, rows, .. } ==> forall|k: int|
                    0 <= k < i ==> is_row_of(#[trigger] out@[k], cols@, rows@[k]@),
            decreases n - i,
        {
            match self.get(i) {
                Ok(row) => out.push(row),
                Err(_) => {
                    assert(false);
                },
            }
            i = i + 1;
        }
        out
    }

    /// The grid itself.
    pub fn as_ref(&self) -> (r: &Self)
        ensures
            r == self,
    {
        self
    }

    /// The kind of value: `HType::Grid`.
    pub fn haystack_type(&self) -> (r: HType)
        ensures
            r == HType::Grid,
    {
        HType::Grid
    }

    /// Grids never compare equal as Haystack values.
    pub fn _eq(&self, _other: &HVal<T>) -> (r: bool)
        ensures
            !r,
    {
        false
    }

    /// This value as a Haystack value.
    pub fn to_hval(self) -> (r: HVal<T>)
        ensures
            r == HVal::Grid(self),
    {
        HVal::Grid(self)
    }

    /// This value as a shared Haystack value.
    pub fn to_hbox(self) -> (r: HBox<T>)
        ensures
            *r == HVal::Grid(self),
    {
        std::rc::Rc::new(HVal::Grid(self))
    }
}

} // verus!
