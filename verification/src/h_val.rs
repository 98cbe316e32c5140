//! The Haystack value: one enum over all kinds of values, with the texts that
//! the Zinc, Trio and JSON writers give each of them.
use vstd::prelude::*;
use crate::h_null::HNull;
use crate::h_marker::HMarker;
use crate::h_remove::HRemove;
use crate::h_na::HNA;
use crate::h_bool::HBool;
use crate::h_number::HNumber;
use crate::h_str::{HStr, zinc_str_literal};
use crate::h_uri::HUri;
use crate::h_ref::HRef;
use crate::h_symbol::HSymbol;
use crate::h_date::HDate;
use crate::h_time::HTime;
use crate::h_datetime::HDateTime;
use crate::h_coord::HCoord;
use crate::h_xstr::HXStr;
use crate::h_list::HList;
use crate::h_dict::HDict;
use crate::h_grid::{HGrid, HCol};

verus! {

/// The kinds of Haystack values.
#[derive(Debug, PartialEq, Eq, Structural, Clone, Copy)]
pub enum HType {
    Null,
    Marker,
    Remove,
    NA,
    Bool,
    Number,
    Str,
    Uri,
    Ref,
    Symbol,
    Date,
    Time,
    DateTime,
    Coord,
    XStr,
    List,
    Dict,
    Grid,
}

impl HType {
    /// The name of the kind, as its `Debug` gives it.
    pub open spec fn name(&self) -> Seq<char> {
        match self {
            HType::Null => "Null"@,
            HType::Marker => "Marker"@,
            HType::Remove => "Remove"@,
            HType::NA => "NA"@,
            HType::Bool => "Bool"@,
            HType::Number => "Number"@,
            HType::Str => "Str"@,
            HType::Uri => "Uri"@,
            HType::Ref => "Ref"@,
            HType::Symbol => "Symbol"@,
            HType::Date => "Date"@,
            HType::Time => "Time"@,
            HType::DateTime => "DateTime"@,
            HType::Coord => "Coord"@,
            HType::XStr => "XStr"@,
            HType::List => "List"@,
            HType::Dict => "Dict"@,
            HType::Grid => "Grid"@,
        }
    }

    /// The name of the kind (its display text).
    pub fn to_string(&self) -> (r: String)
        ensures
            r@ == self.name(),
    {
        let s = match self {
            HType::Null => "Null",
            HType::Marker => "Marker",
            HType::Remove => "Remove",
            HType::NA => "NA",
            HType::Bool => "Bool",
            HType::Number => "Number",
            HType::Str => "Str",
            HType::Uri => "Uri",
            HType::Ref => "Ref",
            HType::Symbol => "Symbol",
            HType::Date => "Date",
            HType::Time => "Time",
            HType::DateTime => "DateTime",
            HType::Coord => "Coord",
            HType::XStr => "XStr",
            HType::List => "List",
            HType::Dict => "Dict",
            HType::Grid => "Grid",
        };
        crate::text::to_owned_string(s)
    }
}

/// A Haystack value of any kind; numbers and coordinates are of type `T`.
#[derive(Clone, Debug, PartialEq)]
pub enum HVal<T> {
    Null(HNull),
    Marker(HMarker),
    Remove(HRemove),
    NA(HNA),
    Bool(HBool),
    Number(HNumber<T>),
    Str(HStr),
    Uri(HUri),
    Ref(HRef),
    Symbol(HSymbol),
    Date(HDate),
    Time(HTime),
    DateTime(HDateTime),
    Coord(HCoord<T>),
    XStr(HXStr),
    List(HList<T>),
    Dict(HDict<T>),
    Grid(HGrid<T>),
}


impl<T> HVal<T> {
    /// The kind of the value.
    pub fn haystack_type(&self) -> (r: HType)
        ensures
            r == type_of(*self),
    {
        match self {
            HVal::Null(_) => HType::Null,
            HVal::Marker(_) => HType::Marker,
            HVal::Remove(_) => HType::Remove,
            HVal::NA(_) => HType::NA,
            HVal::Bool(_) => HType::Bool,
            HVal::Number(_) => HType::Number,
            HVal::Str(_) => HType::Str,
            HVal::Uri(_) => HType::Uri,
            HVal::Ref(_) => HType::Ref,
            HVal::Symbol(_) => HType::Symbol,
            HVal::Date(_) => HType::Date,
            HVal::Time(_) => HType::Time,
            HVal::DateTime(_) => HType::DateTime,
            HVal::Coord(_) => HType::Coord,
            HVal::XStr(_) => HType::XStr,
            HVal::List(_) => HType::List,
            HVal::Dict(_) => HType::Dict,
            HVal::Grid(_) => HType::Grid,
        }
    }

    /// Writes the Zinc text of the value.
    pub fn to_zinc(&self, buf: &mut String) -> (r: core::fmt::Result)
        ensures
            r is Ok,
            final(buf)@ == old(buf)@ + zinc_of(*self),
        decreases self,
    {
        match self {
            HVal::Null(x) => x.to_zinc(buf),
            HVal::Marker(x) => x.to_zinc(buf),
            HVal::Remove(x) => x.to_zinc(buf),
            HVal::NA(x) => x.to_zinc(buf),
            HVal::Bool(x) => x.to_zinc(buf),
            HVal::Number(x) => x.to_zinc(buf),
            HVal::Str(x) => x.to_zinc(buf),
            HVal::Uri(x) => x.to_zinc(buf),
            HVal::Ref(x) => x.to_zinc(buf),
            HVal::Symbol(x) => x.to_zinc(buf),
            HVal::Date(x) => x.to_zinc(buf),
            HVal::Time(x) => x.to_zinc(buf),
            HVal::DateTime(x) => x.to_zinc(buf),
            HVal::Coord(x) => x.to_zinc(buf),
            HVal::XStr(x) => x.to_zinc(buf),
            HVal::List(x) => x.to_zinc(buf),
            HVal::Dict(x) => x.to_zinc(buf),
            HVal::Grid(x) => x.to_zinc(buf),
        }
    }

    /// The display text of the value: the name of its kind and, in
    /// parentheses, its Zinc text.
    pub fn to_string(&self) -> (r: String)
        ensures
            r@ == type_of(*self).name() + seq!['('] + zinc_of(*self) + seq![')'],
    {
        let mut buf = self.haystack_type().to_string();
        crate::text::push_char(&mut buf, '(');
        let _ = self.to_zinc(&mut buf);
        crate::text::push_char(&mut buf, ')');
        buf
    }

    /// Writes the Trio text of the value.
    pub fn to_trio(&self, buf: &mut String) -> (r: core::fmt::Result)
        ensures
            r is Ok,
            final(buf)@ == old(buf)@ + trio_of(*self),
        decreases self,
    {
        match self {
            HVal::Grid(g) => g.to_trio(buf),
            _ => self.to_zinc(buf),
        }
    }

    /// Writes the JSON text of the value.
    pub fn to_json(&self, buf: &mut String) -> (r: core::fmt::Result)
        ensures
            r is Ok,
            final(buf)@ == old(buf)@ + json_of(*self),
        decreases self,
    {
        match self {
            HVal::Null(x) => x.to_json(buf),
            HVal::Marker(x) => x.to_json(buf),
            HVal::Remove(x) => x.to_json(buf),
            HVal::NA(x) => x.to_json(buf),
            HVal::Bool(x) => x.to_json(buf),
            HVal::Number(x) => x.to_json(buf),
            HVal::Str(x) => x.to_json(buf),
            HVal::Uri(x) => x.to_json(buf),
            HVal::Ref(x) => x.to_json(buf),
            HVal::Symbol(x) => x.to_json(buf),
            HVal::Date(x) => x.to_json(buf),
            HVal::Time(x) => x.to_json(buf),
            HVal::DateTime(x) => x.to_json(buf),
            HVal::Coord(x) => x.to_json(buf),
            HVal::XStr(x) => x.to_json(buf),
            HVal::List(x) => x.to_json(buf),
            HVal::Dict(x) => x.to_json(buf),
            HVal::Grid(x) => x.to_json(buf),
        }
    }

    /// The value as a null if it is one.
    pub fn get_null(&self) -> (r: Option<&HNull>)
        ensures
            r matches Some(x) ==> *self == HVal::<T>::Null(*x),
            (r is Some) == (*self is Null),
    {
        match self {
            HVal::Null(x) => Some(x),
            _ => None,
        }
    }

    /// The value as a marker if it is one.
    pub fn get_marker(&self) -> (r: Option<&HMarker>)
        ensures
            r matches Some(x) ==> *self == HVal::<T>::Marker(*x),
            (r is Some) == (*self is Marker),
    {
        match self {
            HVal::Marker(x) => Some(x),
            _ => None,
        }
    }

    /// The value as a remove if it is one.
    pub fn get_remove(&self) -> (r: Option<&HRemove>)
        ensures
            r matches Some(x) ==> *self == HVal::<T>::Remove(*x),
            (r is Some) == (*self is Remove),
    {
        match self {
            HVal::Remove(x) => Some(x),
            _ => None,
        }
    }

    /// The value as a NA if it is one.
    pub fn get_na(&self) -> (r: Option<&HNA>)
        ensures
            r matches Some(x) ==> *self == HVal::<T>::NA(*x),
            (r is Some) == (*self is NA),
    {
        match self {
            HVal::NA(x) => Some(x),
            _ => None,
        }
    }

    /// The value as a bool if it is one.
    pub fn get_bool(&self) -> (r: Option<&HBool>)
        ensures
            r matches Some(x) ==> *self == HVal::<T>::Bool(*x),
            (r is Some) == (*self is Bool),
    {
        match self {
            HVal::Bool(x) => Some(x),
            _ => None,
        }
    }

    /// The value as a number if it is one.
    pub fn get_number(&self) -> (r: Option<&HNumber<T>>)
        ensures
            r matches Some(x) ==> *self == HVal::<T>::Number(*x),
            (r is Some) == (*self is Number),
    {
        match self {
            HVal::Number(x) => Some(x),
            _ => None,
        }
    }

    /// The value as a str if it is one.
    pub fn get_string(&self) -> (r: Option<&HStr>)
        ensures
            r matches Some(x) ==> *self == HVal::<T>::Str(*x),
            (r is Some) == (*self is Str),
    {
        match self {
            HVal::Str(x) => Some(x),
            _ => None,
        }
    }

    /// The value as a uri if it is one.
    pub fn get_uri(&self) -> (r: Option<&HUri>)
        ensures
            r matches Some(x) ==> *self == HVal::<T>::Uri(*x),
            (r is Some) == (*self is Uri),
    {
        match self {
            HVal::Uri(x) => Some(x),
            _ => None,
        }
    }

    /// The value as a ref if it is one.
    pub fn get_ref(&self) -> (r: Option<&HRef>)
        ensures
            r matches Some(x) ==> *self == HVal::<T>::Ref(*x),
            (r is Some) == (*self is Ref),
    {
        match self {
            HVal::Ref(x) => Some(x),
            _ => None,
        }
    }

    /// The value as a symbol if it is one.
    pub fn get_symbol(&self) -> (r: Option<&HSymbol>)
        ensures
            r matches Some(x) ==> *self == HVal::<T>::Symbol(*x),
            (r is Some) == (*self is Symbol),
    {
        match self {
            HVal::Symbol(x) => Some(x),
            _ => None,
        }
    }

    /// The value as a date if it is one.
    pub fn get_date(&self) -> (r: Option<&HDate>)
        ensures
            r matches Some(x) ==> *self == HVal::<T>::Date(*x),
            (r is Some) == (*self is Date),
    {
        match self {
            HVal::Date(x) => Some(x),
            _ => None,
        }
    }

    /// The value as a time if it is one.
    pub fn get_time(&self) -> (r: Option<&HTime>)
        ensures
            r matches Some(x) ==> *self == HVal::<T>::Time(*x),
            (r is Some) == (*self is Time),
    {
        match self {
            HVal::Time(x) => Some(x),
            _ => None,
        }
    }

    /// The value as a datetime if it is one.
    pub fn get_datetime(&self) -> (r: Option<&HDateTime>)
        ensures
            r matches Some(x) ==> *self == HVal::<T>::DateTime(*x),
            (r is Some) == (*self is DateTime),
    {
        match self {
            HVal::DateTime(x) => Some(x),
            _ => None,
        }
    }

    /// The value as a coord if it is one.
    pub fn get_coord(&self) -> (r: Option<&HCoord<T>>)
        ensures
            r matches Some(x) ==> *self == HVal::<T>::Coord(*x),
            (r is Some) == (*self is Coord),
    {
        match self {
            HVal::Coord(x) => Some(x),
            _ => None,
        }
    }

    /// The value as a xstr if it is one.
    pub fn get_xstr(&self) -> (r: Option<&HXStr>)
        ensures
            r matches Some(x) ==> *self == HVal::<T>::XStr(*x),
            (r is Some) == (*self is XStr),
    {
        match self {
            HVal::XStr(x) => Some(x),
            _ => None,
        }
    }

    /// The value as a list if it is one.
    pub fn get_list(&self) -> (r: Option<&HList<T>>)
        ensures
            r matches Some(x) ==> *self == HVal::<T>::List(*x),
            (r is Some) == (*self is List),
    {
        match self {
            HVal::List(x) => Some(x),
            _ => None,
        }
    }

    /// The value as a dict if it is one.
    pub fn get_dict(&self) -> (r: Option<&HDict<T>>)
        ensures
            r matches Some(x) ==> *self == HVal::<T>::Dict(*x),
            (r is Some) == (*self is Dict),
    {
        match self {
            HVal::Dict(x) => Some(x),
            _ => None,
        }
    }

    /// The value as a grid if it is one.
    pub fn get_grid(&self) -> (r: Option<&HGrid<T>>)
        ensures
            r matches Some(x) ==> *self == HVal::<T>::Grid(*x),
            (r is Some) == (*self is Grid),
    {
        match self {
            HVal::Grid(x) => Some(x),
            _ => None,
        }
    }
}

/// A shared Haystack value.
pub type HBox<T> = std::rc::Rc<HVal<T>>;

/// `Rc::clone`: another handle on the same value.
#[verifier::external_body]
pub(crate) fn share<T>(b: &HBox<T>) -> (r: HBox<T>)
    ensures
        r == *b,
{
    std::rc::Rc::clone(b)
}

/// The kind of a value.
pub open spec fn type_of<T>(v: HVal<T>) -> HType {
    match v {
        HVal::Null(_) => HType::Null,
        HVal::Marker(_) => HType::Marker,
        HVal::Remove(_) => HType::Remove,
        HVal::NA(_) => HType::NA,
        HVal::Bool(_) => HType::Bool,
        HVal::Number(_) => HType::Number,
        HVal::Str(_) => HType::Str,
        HVal::Uri(_) => HType::Uri,
        HVal::Ref(_) => HType::Ref,
        HVal::Symbol(_) => HType::Symbol,
        HVal::Date(_) => HType::Date,
        HVal::Time(_) => HType::Time,
        HVal::DateTime(_) => HType::DateTime,
        HVal::Coord(_) => HType::Coord,
        HVal::XStr(_) => HType::XStr,
        HVal::List(_) => HType::List,
        HVal::Dict(_) => HType::Dict,
        HVal::Grid(_) => HType::Grid,
    }
}

// ---------------------------------------------------------------------------
// Zinc
// ---------------------------------------------------------------------------

/// The Zinc text of a value.
pub open spec fn zinc_of<T>(v: HVal<T>) -> Seq<char>
    decreases v,
{
    match v {
        HVal::Null(x) => x.zinc(),
        HVal::Marker(x) => x.zinc(),
        HVal::Remove(x) => x.zinc(),
        HVal::NA(x) => x.zinc(),
        HVal::Bool(x) => x.zinc(),
        HVal::Number(x) => x.zinc(),
        HVal::Str(x) => x.zinc(),
        HVal::Uri(x) => x.zinc(),
        HVal::Ref(x) => x.zinc(),
        HVal::Symbol(x) => x.zinc(),
        HVal::Date(x) => x.zinc(),
        HVal::Time(x) => x.zinc(),
        HVal::DateTime(x) => x.zinc(),
        HVal::Coord(x) => x.zinc(),
        HVal::XStr(x) => x.zinc(),
        HVal::List(l) => seq!['['] + list_zinc(l.inner@) + seq![']'],
        HVal::Dict(d) => seq!['{'] + dict_zinc(d.entries@) + seq!['}'],
        HVal::Grid(g) => grid_zinc(g),
    }
}

/// The Zinc texts of the elements of a list, separated by `, `.
pub open spec fn list_zinc<T>(s: Seq<HBox<T>>) -> Seq<char>
    decreases s,
{
    if s.len() == 0 {
        seq![]
    } else if s.len() == 1 {
        zinc_of(*s[0])
    } else {
        list_zinc(s.drop_last()) + seq![',', ' '] + zinc_of(*s.last())
    }
}

/// Whether some entry of `s` holds a value other than null.
pub open spec fn has_non_null<T>(s: Seq<(String, HBox<T>)>) -> bool {
    exists|i: int| 0 <= i < s.len() && !((*s[i].1) is Null)
}

/// The Zinc text of the entries of a dict between the braces: null entries are
/// left out, a remove entry is `-name`, a marker entry is `name`, and any other
/// entry is `name:value`, followed by a space when a non-null entry follows.
pub open spec fn dict_zinc<T>(s: Seq<(String, HBox<T>)>) -> Seq<char>
    decreases s,
{
    if s.len() == 0 {
        seq![]
    } else {
        let k = s[0].0@;
        let more = has_non_null(s.drop_first());
        let piece = match *s[0].1 {
            HVal::Null(_) => seq![],
            HVal::Remove(_) => seq!['-'] + k,
            HVal::Marker(_) => k,
            _ => k + seq![':'] + zinc_of(*s[0].1) + if more { seq![' '] } else { seq![] },
        };
        piece + dict_zinc(s.drop_first())
    }
}

/// The Zinc text of grid metadata: each entry as ` name` for a marker and
/// ` name:value` otherwise.
pub open spec fn grid_meta_zinc<T>(s: Seq<(String, HBox<T>)>) -> Seq<char>
    decreases s,
{
    if s.len() == 0 {
        seq![]
    } else {
        grid_meta_zinc(s.drop_last()) + match *s.last().1 {
            HVal::Marker(_) => seq![' '] + s.last().0@,
            _ => seq![' '] + s.last().0@ + seq![':'] + zinc_of(*s.last().1),
        }
    }
}

/// The Zinc text of column metadata: the entries separated by spaces, each as
/// `name` for a marker and `name:value` otherwise.
pub open spec fn col_meta_zinc<T>(s: Seq<(String, HBox<T>)>) -> Seq<char>
    decreases s,
{
    if s.len() == 0 {
        seq![]
    } else if s.len() == 1 {
        match *s[0].1 {
            HVal::Marker(_) => s[0].0@,
            _ => s[0].0@ + seq![':'] + zinc_of(*s[0].1),
        }
    } else {
        col_meta_zinc(s.drop_last()) + seq![' '] + match *s.last().1 {
            HVal::Marker(_) => s.last().0@,
            _ => s.last().0@ + seq![':'] + zinc_of(*s.last().1),
        }
    }
}

/// The Zinc text of a column: its name, and a space and its metadata if it has any.
pub open spec fn col_zinc<T>(c: HCol<T>) -> Seq<char>
    decreases c,
{
    c.name@ + if c.meta.entries@.len() == 0 {
        seq![]
    } else {
        seq![' '] + col_meta_zinc(c.meta.entries@)
    }
}

/// The Zinc texts of the columns of a grid, separated by `, `.
pub open spec fn cols_zinc<T>(s: Seq<HCol<T>>) -> Seq<char>
    decreases s,
{
    if s.len() == 0 {
        seq![]
    } else if s.len() == 1 {
        col_zinc(s[0])
    } else {
        cols_zinc(s.drop_last()) + seq![',', ' '] + col_zinc(s.last())
    }
}

/// The Zinc text of a cell: the value, or nothing for an empty cell.
pub open spec fn cell_zinc<T>(c: Option<HBox<T>>) -> Seq<char>
    decreases c,
{
    match c {
        Some(v) => zinc_of(*v),
        None => seq![],
    }
}

/// The Zinc texts of cells separated by commas.
pub open spec fn cells_zinc<T>(s: Seq<Option<HBox<T>>>) -> Seq<char>
    decreases s,
{
    if s.len() == 0 {
        seq![]
    } else if s.len() == 1 {
        cell_zinc(s[0])
    } else {
        cells_zinc(s.drop_last()) + seq![','] + cell_zinc(s.last())
    }
}

/// `k` commas.
pub open spec fn commas(k: nat) -> Seq<char> {
    Seq::new(k, |_i: int| ',')
}

/// The Zinc text of a row of a grid with `n` columns: one cell per column,
/// separated by commas; a cell the row does not hold is written as nothing.
pub open spec fn row_zinc<T>(cells: Seq<Option<HBox<T>>>, n: nat) -> Seq<char> {
    if cells.len() > n {
        cells_zinc(cells.take(n as int))
    } else if cells.len() == 0 {
        if n == 0 { seq![] } else { commas((n - 1) as nat) }
    } else {
        cells_zinc(cells) + commas((n - cells.len()) as nat)
    }
}

/// The Zinc text of the rows of a grid with `n` columns, each followed by a newline.
pub open spec fn rows_zinc<T>(rows: Seq<Vec<Option<HBox<T>>>>, n: nat) -> Seq<char>
    decreases rows,
{
    if rows.len() == 0 {
        seq![]
    } else {
        let cells = rows.last()@;
        rows_zinc(rows.drop_last(), n) + if cells.len() > n {
            cells_zinc(cells.take(n as int))
        } else if cells.len() == 0 {
            if n == 0 { seq![] } else { commas((n - 1) as nat) }
        } else {
            cells_zinc(cells) + commas((n - cells.len()) as nat)
        } + seq!['\n']
    }
}

/// The version header of the Zinc text of a grid.
pub open spec fn ver_header() -> Seq<char> {
    seq!['v', 'e', 'r', ':', '"', '3', '.', '0', '"']
}

/// The Zinc text of a grid.
pub open spec fn grid_zinc<T>(g: HGrid<T>) -> Seq<char>
    decreases g,
{
    match g {
        HGrid::Grid { meta, cols, rows } => ver_header() + seq![' '] + grid_meta_zinc(meta.entries@)
            + seq!['\n'] + cols_zinc(cols@) + seq!['\n'] + rows_zinc(rows@, cols@.len()),
        HGrid::Error { dis, errTrace } => ver_header() + " err dis:"@ + zinc_str_literal(dis@)
            + match errTrace {
            Some(t) => " errTrace:"@ + zinc_str_literal(t@),
            None => seq![],
        } + "\nempty\n"@,
        HGrid::Empty { meta } => ver_header() + match meta {
            Some(m) => grid_meta_zinc(m.entries@),
            None => seq![],
        } + "\nempty\n"@,
    }
}

// ---------------------------------------------------------------------------
// Trio
// ---------------------------------------------------------------------------

/// The Trio text of a value: a grid gives the Trio texts of its rows, any other
/// value its Zinc text.
pub open spec fn trio_of<T>(v: HVal<T>) -> Seq<char>
    decreases v,
{
    match v {
        HVal::Grid(g) => grid_trio(g),
        _ => zinc_of(v),
    }
}

/// The Trio texts of the present cells, one after the other.
pub open spec fn cells_trio<T>(s: Seq<Option<HBox<T>>>) -> Seq<char>
    decreases s,
{
    if s.len() == 0 {
        seq![]
    } else {
        cells_trio(s.drop_last()) + match s.last() {
            Some(v) => trio_of(*v),
            None => seq![],
        }
    }
}

/// The Trio text of a row of a grid with `n` columns: the Trio texts of its
/// present cells among the first `n`, one after the other.
pub open spec fn row_trio<T>(cells: Seq<Option<HBox<T>>>, n: nat) -> Seq<char> {
    if cells.len() > n { cells_trio(cells.take(n as int)) } else { cells_trio(cells) }
}

/// The Trio texts of the rows of a grid with `n` columns, separated by `---` lines.
pub open spec fn rows_trio<T>(rows: Seq<Vec<Option<HBox<T>>>>, n: nat) -> Seq<char>
    decreases rows,
{
    if rows.len() == 0 {
        seq![]
    } else if rows.len() == 1 {
        if rows[0]@.len() > n { cells_trio(rows[0]@.take(n as int)) } else { cells_trio(rows[0]@) }
    } else {
        rows_trio(rows.drop_last(), n) + "---\n"@ + if rows.last()@.len() > n {
            cells_trio(rows.last()@.take(n as int))
        } else {
            cells_trio(rows.last()@)
        }
    }
}

/// The Trio text of a grid: the Trio texts of its rows separated by `---`
/// lines; a grid that is not a table gives nothing.
pub open spec fn grid_trio<T>(g: HGrid<T>) -> Seq<char>
    decreases g,
{
    match g {
        HGrid::Grid { cols, rows, .. } => rows_trio(rows@, cols@.len()),
        _ => seq![],
    }
}

// ---------------------------------------------------------------------------
// JSON
// ---------------------------------------------------------------------------

/// The JSON text of a value.
pub open spec fn json_of<T>(v: HVal<T>) -> Seq<char>
    decreases v,
{
    match v {
        HVal::Null(x) => x.json(),
        HVal::Marker(x) => x.json(),
        HVal::Remove(x) => x.json(),
        HVal::NA(x) => x.json(),
        HVal::Bool(x) => x.json(),
        HVal::Number(x) => x.json(),
        HVal::Str(x) => x.json(),
        HVal::Uri(x) => x.json(),
        HVal::Ref(x) => x.json(),
        HVal::Symbol(x) => x.json(),
        HVal::Date(x) => x.json(),
        HVal::Time(x) => x.json(),
        HVal::DateTime(x) => x.json(),
        HVal::Coord(x) => x.json(),
        HVal::XStr(x) => x.json(),
        HVal::List(l) => seq!['['] + list_json(l.inner@) + seq![']'],
        HVal::Dict(d) => seq!['{'] + dict_json(d.entries@) + seq!['}'],
        HVal::Grid(g) => grid_json(g),
    }
}

/// The JSON texts of the elements of a list, each in double quotes, separated by commas.
pub open spec fn list_json<T>(s: Seq<HBox<T>>) -> Seq<char>
    decreases s,
{
    if s.len() == 0 {
        seq![]
    } else if s.len() == 1 {
        seq!['"'] + json_of(*s[0]) + seq!['"']
    } else {
        list_json(s.drop_last()) + seq![','] + seq!['"'] + json_of(*s.last()) + seq!['"']
    }
}

/// The JSON text of the non-null entries of a dict between the braces: each as
/// `"name":"value"`, separated by commas.
pub open spec fn dict_json<T>(s: Seq<(String, HBox<T>)>) -> Seq<char>
    decreases s,
{
    if s.len() == 0 {
        seq![]
    } else {
        let more = has_non_null(s.drop_first());
        let piece = match *s[0].1 {
            HVal::Null(_) => seq![],
            _ => seq!['"'] + s[0].0@ + seq!['"', ':', '"'] + json_of(*s[0].1) + seq!['"'] + if more {
                seq![',']
            } else {
                seq![]
            },
        };
        piece + dict_json(s.drop_first())
    }
}

/// The JSON text of metadata entries, each as `, "name":"value"`.
pub open spec fn meta_json<T>(s: Seq<(String, HBox<T>)>) -> Seq<char>
    decreases s,
{
    if s.len() == 0 {
        seq![]
    } else {
        meta_json(s.drop_last()) + seq![',', ' ', '"'] + s.last().0@ + seq!['"', ':', '"']
            + json_of(*s.last().1) + seq!['"']
    }
}

/// The JSON text of a column: `{"name":"…"` and its metadata, then `}`.
pub open spec fn col_json<T>(c: HCol<T>) -> Seq<char>
    decreases c,
{
    "{\"name\":\""@ + c.name@ + seq!['"'] + meta_json(c.meta.entries@) + seq!['}']
}

/// The JSON texts of the columns of a grid, separated by commas.
pub open spec fn cols_json<T>(s: Seq<HCol<T>>) -> Seq<char>
    decreases s,
{
    if s.len() == 0 {
        seq![]
    } else if s.len() == 1 {
        col_json(s[0])
    } else {
        cols_json(s.drop_last()) + seq![','] + col_json(s.last())
    }
}

/// Whether some of the cells `cells`, paired with columns `names`, is present
/// and holds a value other than null.
pub open spec fn cells_have_non_null<T>(names: Seq<Seq<char>>, cells: Seq<Option<HBox<T>>>) -> bool {
    exists|j: int| 0 <= j < names.len() && j < cells.len() && (#[trigger] cells[j] matches Some(v) && !((*v) is Null))
}

/// The JSON text of the cells of a row paired with the column names: each
/// present non-null cell as `"column":"value"`, separated by commas.
pub open spec fn cells_json<T>(names: Seq<Seq<char>>, cells: Seq<Option<HBox<T>>>) -> Seq<char>
    decreases cells,
{
    if names.len() == 0 || cells.len() == 0 {
        seq![]
    } else {
        let more = cells_have_non_null(names.drop_first(), cells.drop_first());
        let piece = match cells[0] {
            Some(v) => match *v {
                HVal::Null(_) => seq![],
                _ => seq!['"'] + names[0] + seq!['"', ':', '"'] + json_of(*v) + seq!['"'] + if more {
                    seq![',']
                } else {
                    seq![]
                },
            },
            None => seq![],
        };
        piece + cells_json(names.drop_first(), cells.drop_first())
    }
}

/// The names of columns.
pub open spec fn col_names<T>(cols: Seq<HCol<T>>) -> Seq<Seq<char>> {
    cols.map_values(|c: HCol<T>| c.name@)
}

/// The JSON texts of the rows of a grid, separated by commas.
pub open spec fn rows_json<T>(cols: Seq<HCol<T>>, rows: Seq<Vec<Option<HBox<T>>>>) -> Seq<char>
    decreases rows,
{
    if rows.len() == 0 {
        seq![]
    } else if rows.len() == 1 {
        seq!['{'] + cells_json(col_names(cols), rows[0]@) + seq!['}']
    } else {
        rows_json(cols, rows.drop_last()) + seq![','] + seq!['{'] + cells_json(col_names(cols), rows.last()@)
            + seq!['}']
    }
}

/// The JSON text of a grid with columns: its metadata, columns and rows; any
/// other grid gives nothing.
pub open spec fn grid_json<T>(g: HGrid<T>) -> Seq<char>
    decreases g,
{
    match g {
        HGrid::Grid { meta, cols, rows } => "{\n  \"meta\": {\"ver\":\"3.0\""@ + meta_json(meta.entries@)
            + "},\n  \"cols\": [\n"@ + cols_json(cols@) + "],\n  \"rows\": [\n"@ + rows_json(cols@, rows@)
            + "],\n},\n"@,
        _ => seq![],
    }
}

} // verus!
