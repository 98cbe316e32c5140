//! The Haystack grid value: metadata, columns and rows.
use vstd::prelude::*;
use crate::text::to_owned_string;
use crate::h_val::HBox;
use crate::h_dict::HDict;

pub mod h_col;
pub mod h_row;
pub mod construct;
pub mod access;
pub mod encode;
pub mod text_laws;

pub use h_col::{Col, HCol};
pub use h_row::{HRow, Row};

verus! {

/// A grid: a table of values with metadata and named columns; the error grid
/// that a server answers a failed request with; or a grid without columns.
#[derive(Clone, Debug, PartialEq)]
#[allow(non_snake_case)]
#[allow(inconsistent_fields)]
pub enum HGrid<T> {
    Grid { meta: HDict<T>, cols: Vec<HCol<T>>, rows: Vec<Vec<Option<HBox<T>>>> },
    Error { dis: String, errTrace: Option<String> },
    Empty { meta: Option<HDict<T>> },
}

/// The grid type under its short name.
pub type Grid<T> = HGrid<T>;

/// Why a grid operation was refused.
#[derive(Debug, PartialEq, Eq, Structural, Clone, Copy)]
pub enum HGridErr {
    NotFound,
    IndexErr,
    NotImplemented,
    AddMetaFailed,
}

impl HGridErr {
    /// The message of the error.
    pub open spec fn message(&self) -> Seq<char> {
        match self {
            HGridErr::NotFound => "Error: Not Found"@,
            HGridErr::IndexErr => "Error: Index Out of Bounds"@,
            HGridErr::NotImplemented => "Error: Not Implemented"@,
            HGridErr::AddMetaFailed => "Error: Failed to add grid metadata"@,
        }
    }

    /// The message of the error (its display text).
    pub fn to_string(&self) -> (r: String)
        ensures
            r@ == self.message(),
    {
        let s = match self {
            HGridErr::NotFound => "Error: Not Found",
            HGridErr::IndexErr => "Error: Index Out of Bounds",
            HGridErr::NotImplemented => "Error: Not Implemented",
            HGridErr::AddMetaFailed => "Error: Failed to add grid metadata",
        };
        to_owned_string(s)
    }
}

impl<T> HGrid<T> {
    /// The metadata of the grid, and of each column, has no two entries of
    /// the same name.
    pub open spec fn wf(&self) -> bool {
        match self {
            HGrid::Grid { meta, cols, .. } => meta.wf() && forall|j: int| 0 <= j < cols@.len() ==> (#[trigger] cols@[j]).wf(),
            HGrid::Error { .. } => true,
            HGrid::Empty { meta } => meta matches Some(m) ==> m.wf(),
        }
    }
}

} // verus!
