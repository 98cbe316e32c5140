//! The Zinc, Trio and JSON texts of grids.
use vstd::prelude::*;
use crate::text::{push_char, push_str};
use crate::common::zinc_escape_all;
use crate::h_val::{HBox, HVal, grid_zinc, grid_trio, grid_json, grid_meta_zinc, ver_header, cols_zinc, rows_zinc,
    row_zinc, rows_trio, row_trio, meta_json, col_json, cols_json, rows_json, cells_json, col_names};
use crate::h_grid::{HGrid, HCol};
use crate::h_grid::h_row::{write_row_zinc, write_row_trio, write_cells_json};

verus! {

/// Writes the version header `ver:"3.0"`.
fn push_ver_header(buf: &mut String)
    ensures
        final(buf)@ == old(buf)@ + ver_header(),
{
    let s = "ver:\"3.0\"";
    proof { reveal_strlit("ver:\"3.0\""); }
    push_str(buf, s);
    assert(s@ == ver_header());
}

/// Writes the quoted, escaped Zinc literal of `s`.
fn push_zinc_literal(buf: &mut String, s: &str)
    ensures
        final(buf)@ == old(buf)@ + crate::h_str::zinc_str_literal(s@),
{
    push_char(buf, '"');
    zinc_escape_all(s, buf);
    push_char(buf, '"');
}

/// Writes grid metadata entries, each as ` name` for a marker and ` name:value` otherwise.
fn write_grid_meta_zinc<T>(entries: &Vec<(String, HBox<T>)>, buf: &mut String)
    ensures
        final(buf)@ == old(buf)@ + grid_meta_zinc(entries@),
    decreases entries,
{
    let ghost start = buf@;
    let mut i: usize = 0;
    while i < entries.len()
        invariant
            i <= entries@.len(),
            buf@ == start + grid_meta_zinc(entries@.take(i as int)),
        decreases entries@.len() - i,
    {
        push_char(buf, ' ');
        push_str(buf, entries[i].0.as_str());
        let v: &HVal<T> = &*entries[i].1;
        match v {
            HVal::Marker(_) => {},
            _ => {
                push_char(buf, ':');
                proof {
                    assert(decreases_to!(*entries => *entries@[i as int].1));
                }
                let _ = v.to_zinc(buf);
            },
        }
        proof {
            let t = entries@.take(i + 1);
            assert(t.drop_last() == entries@.take(i as int));
            assert(t.last() == entries@[i as int]);
        }
        i = i + 1;
    }
    assert(entries@.take(entries@.len() as int) == entries@);
}

/// Writes metadata entries, each as `, "name":"value"`.
fn write_meta_json<T>(entries: &Vec<(String, HBox<T>)>, buf: &mut String)
    ensures
        final(buf)@ == old(buf)@ + meta_json(entries@),
    decreases entries,
{
    let ghost start = buf@;
    let mut i: usize = 0;
    while i < entries.len()
        invariant
            i <= entries@.len(),
            buf@ == start + meta_json(entries@.take(i as int)),
        decreases entries@.len() - i,
    {
        push_char(buf, ',');
        push_char(buf, ' ');
        push_char(buf, '"');
        push_str(buf, entries[i].0.as_str());
        push_char(buf, '"');
        push_char(buf, ':');
        push_char(buf, '"');
        let v: &HVal<T> = &*entries[i].1;
        proof {
            assert(decreases_to!(*entries => *entries@[i as int].1));
        }
        let _ = v.to_json(buf);
        push_char(buf, '"');
        proof {
            let t = entries@.take(i + 1);
            assert(t.drop_last() == entries@.take(i as int));
            assert(t.last() == entries@[i as int]);
        }
        i = i + 1;
    }
    assert(entries@.take(entries@.len() as int) == entries@);
}

/// Writes the JSON text of a column: `{"name":"…"`, its metadata, `}`.
fn write_col_json<T>(c: &HCol<T>, buf: &mut String)
    ensures
        final(buf)@ == old(buf)@ + col_json(*c),
    decreases c,
{
    let s = "{\"name\":\"";
    proof { reveal_strlit("{\"name\":\""); }
    push_str(buf, s);
    push_str(buf, c.name.as_str());
    push_char(buf, '"');
    write_meta_json(&c.meta.entries, buf);
    push_char(buf, '}');
}

impl<T> HGrid<T> {
    /// The Zinc text (see `grid_zinc`).
    pub open spec fn zinc(&self) -> Seq<char> {
        grid_zinc(*self)
    }

    /// The Trio text (see `grid_trio`).
    pub open spec fn trio(&self) -> Seq<char> {
        grid_trio(*self)
    }

    /// The JSON text (see `grid_json`).
    pub open spec fn json(&self) -> Seq<char> {
        grid_json(*self)
    }

    /// Writes the Zinc text: the version header and the metadata, a line of
    /// columns and a line per row for a table; the header, the error message
    /// and trace and `empty` for an error grid; the header, the metadata and
    /// `empty` for a grid without columns.
    pub fn to_zinc(&self, buf: &mut String) -> (r: core::fmt::Result)
        ensures
            r is Ok,
            final(buf)@ == old(buf)@ + grid_zinc(*self),
        decreases self,
    {
        let ghost start = buf@;
        match self {
            HGrid::Grid { meta, cols, rows } => {
                assert(decreases_to!(*self => *cols));
                assert(decreases_to!(*self => *rows));
                push_ver_header(buf);
                push_char(buf, ' ');
                proof {
                    assert(decreases_to!(*self => meta.entries));
                }
                write_grid_meta_zinc(&meta.entries, buf);
                push_char(buf, '\n');
                let ghost mid = buf@;
                let mut j: usize = 0;
                while j < cols.len()
                    invariant
                        j <= cols@.len(),
                        buf@ == mid + cols_zinc(cols@.take(j as int)),
                        decreases_to!(*self => *cols),
                        *self == (HGrid::Grid { meta: *meta, cols: *cols, rows: *rows }),
                    decreases cols@.len() - j,
                {
                    if j > 0 {
                        push_char(buf, ',');
                        push_char(buf, ' ');
                    }
                    proof {
                        assert(decreases_to!(*cols => cols@[j as int]));
                        let t = cols@.take(j + 1);
                        assert(t.drop_last() == cols@.take(j as int));
                        assert(t.last() == cols@[j as int]);
                        if j == 0 {
                            assert(t[0] == cols@[0]);
                        }
                    }
                    let _ = cols[j].to_zinc(buf);
                    j = j + 1;
                }
                assert(cols@.take(cols@.len() as int) == cols@);
                push_char(buf, '\n');
                let ghost mid2 = buf@;
                let n = cols.len();
                let mut i: usize = 0;
                while i < rows.len()
                    invariant
                        i <= rows@.len(),
                        n == cols@.len(),
                        buf@ == mid2 + rows_zinc(rows@.take(i as int), n as nat),
                        decreases_to!(*self => *rows),
                        *self == (HGrid::Grid { meta: *meta, cols: *cols, rows: *rows }),
                    decreases rows@.len() - i,
                {
                    proof {
                        assert(decreases_to!(*rows => rows@[i as int]));
                        let t = rows@.take(i + 1);
                        assert(t.drop_last() == rows@.take(i as int));
                        assert(t.last() == rows@[i as int]);
                    }
                    write_row_zinc(&rows[i], n, buf);
                    push_char(buf, '\n');
                    i = i + 1;
                }
                assert(rows@.take(rows@.len() as int) == rows@);
            },
            HGrid::Error { dis, errTrace } => {
                push_ver_header(buf);
                let s = " err dis:";
                proof { reveal_strlit(" err dis:"); }
                push_str(buf, s);
                push_zinc_literal(buf, dis.as_str());
                match errTrace {
                    Some(t) => {
                        let s2 = " errTrace:";
                        proof { reveal_strlit(" errTrace:"); }
                        push_str(buf, s2);
                        push_zinc_literal(buf, t.as_str());
                    },
                    None => {},
                }
                let e = "\nempty\n";
                proof { reveal_strlit("\nempty\n"); }
                push_str(buf, e);
            },
            HGrid::Empty { meta } => {
                push_ver_header(buf);
                match meta {
                    Some(m) => {
                        proof {
                            assert(decreases_to!(*self => m.entries));
                        }
                        write_grid_meta_zinc(&m.entries, buf);
                    },
                    None => {},
                }
                let e = "\nempty\n";
                proof { reveal_strlit("\nempty\n"); }
                push_str(buf, e);
            },
        }
        Ok(())
    }

    /// Writes the Trio text: the rows of a table separated by `---` lines;
    /// nothing for any other grid.
    pub fn to_trio(&self, buf: &mut String) -> (r: core::fmt::Result)
        ensures
            r is Ok,
            final(buf)@ == old(buf)@ + grid_trio(*self),
        decreases self,
    {
        match self {
            HGrid::Grid { meta, cols, rows } => {
                assert(decreases_to!(*self => *rows));
                let ghost start = buf@;
                let n = cols.len();
                let mut i: usize = 0;
                while i < rows.len()
                    invariant
                        i <= rows@.len(),
                        n == cols@.len(),
                        buf@ == start + rows_trio(rows@.take(i as int), n as nat),
                        decreases_to!(*self => *rows),
                        *self == (HGrid::Grid { meta: *meta, cols: *cols, rows: *rows }),
                    decreases rows@.len() - i,
                {
                    if i > 0 {
                        let s = "---\n";
                        proof { reveal_strlit("---\n"); }
                        push_str(buf, s);
                    }
                    proof {
                        assert(decreases_to!(*rows => rows@[i as int]));
                        let t = rows@.take(i + 1);
                        assert(t.drop_last() == rows@.take(i as int));
                        assert(t.last() == rows@[i as int]);
                        if i == 0 {
                            assert(t[0] == rows@[0]);
                        }
                    }
                    write_row_trio(&rows[i], n, buf);
                    i = i + 1;
                }
                assert(rows@.take(rows@.len() as int) == rows@);
            },
            _ => {},
        }
        Ok(())
    }

    /// Writes the JSON text of a table: its metadata, columns and rows;
    /// nothing for any other grid.
    pub fn to_json(&self, buf: &mut String) -> (r: core::fmt::Result)
        ensures
            r is Ok,
            final(buf)@ == old(buf)@ + grid_json(*self),
        decreases self,
    {
        match self {
            HGrid::Grid { meta, cols, rows } => {
                assert(decreases_to!(*self => *cols));
                assert(decreases_to!(*self => *rows));
                let ghost start = buf@;
                let s1 = "{\n  \"meta\": {\"ver\":\"3.0\"";
                proof { reveal_strlit("{\n  \"meta\": {\"ver\":\"3.0\""); }
                push_str(buf, s1);
                proof {
                    assert(decreases_to!(*self => meta.entries));
                }
                write_meta_json(&meta.entries, buf);
                let s2 = "},\n  \"cols\": [\n";
                proof { reveal_strlit("},\n  \"cols\": [\n"); }
                push_str(buf, s2);
                let ghost mid = buf@;
                let mut j: usize = 0;
                while j < cols.len()
                    invariant
                        j <= cols@.len(),
                        buf@ == mid + cols_json(cols@.take(j as int)),
                        decreases_to!(*self => *cols),
                        *self == (HGrid::Grid { meta: *meta, cols: *cols, rows: *rows }),
                    decreases cols@.len() - j,
                {
                    if j > 0 {
                        push_char(buf, ',');
                    }
                    proof {
                        assert(decreases_to!(*cols => cols@[j as int]));
                        let t = cols@.take(j + 1);
                        assert(t.drop_last() == cols@.take(j as int));
                        assert(t.last() == cols@[j as int]);
                        if j == 0 {
                            assert(t[0] == cols@[0]);
                        }
                    }
                    write_col_json(&cols[j], buf);
                    j = j + 1;
                }
                assert(cols@.take(cols@.len() as int) == cols@);
                let s3 = "],\n  \"rows\": [\n";
                proof { reveal_strlit("],\n  \"rows\": [\n"); }
                push_str(buf, s3);
                let ghost mid2 = buf@;
                let mut i: usize = 0;
                while i < rows.len()
                    invariant
                        i <= rows@.len(),
                        buf@ == mid2 + rows_json(cols@, rows@.take(i as int)),
                        decreases_to!(*self => *rows),
                        *self == (HGrid::Grid { meta: *meta, cols: *cols, rows: *rows }),
                    decreases rows@.len() - i,
                {
                    if i > 0 {
                        push_char(buf, ',');
                    }
                    proof {
                        assert(decreases_to!(*rows => rows@[i as int]));
                        let t = rows@.take(i + 1);
                        assert(t.drop_last() == rows@.take(i as int));
                        assert(t.last() == rows@[i as int]);
                        if i == 0 {
                            assert(t[0] == rows@[0]);
                        }
                    }
                    push_char(buf, '{');
                    write_cells_json(cols, &rows[i], buf);
                    push_char(buf, '}');
                    i = i + 1;
                }
                assert(rows@.take(rows@.len() as int) == rows@);
                let s4 = "],\n},\n";
                proof { reveal_strlit("],\n},\n"); }
                push_str(buf, s4);
            },
            _ => {},
        }
        Ok(())
    }
}

} // verus!
