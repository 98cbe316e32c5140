//! Writing values in Trio.
use vstd::prelude::*;
use crate::h_null::HNull;
use crate::h_marker::HMarker;
use crate::h_remove::HRemove;
use crate::h_na::HNA;
use crate::h_bool::HBool;
use crate::h_str::HStr;
use crate::h_xstr::HXStr;
use crate::h_uri::HUri;
use crate::h_date::HDate;
use crate::h_datetime::HDateTime;
use crate::h_time::HTime;
use crate::h_ref::HRef;
use crate::h_symbol::HSymbol;
use crate::h_coord::HCoord;
use crate::h_number::HNumber;
use crate::h_dict::HDict;
use crate::h_list::HList;
use crate::h_grid::HGrid;
use crate::h_val::HVal;

verus! {

/// A value that can be written in Trio.
pub trait TrioWritable {
    /// The Trio text of the value.
    spec fn trio_text(&self) -> Seq<char>;

    /// Writes the Trio text of the value.
    fn to_trio(&self, buf: &mut String) -> (r: core::fmt::Result)
        ensures
            r is Ok,
            final(buf)@ == old(buf)@ + self.trio_text(),
    ;
}

/// Writes a value in Trio.
pub struct TrioWriter<'a, T: 'a> {
    value: &'a T,
}

impl<'a, T: 'a> TrioWriter<'a, T> {
    /// A writer of `value`.
    pub fn new(value: &'a T) -> (r: Self)
        ensures
            r.value() == value,
    {
        TrioWriter { value }
    }

    /// The value to write.
    pub closed spec fn value(&self) -> &'a T {
        self.value
    }
}

impl<'a, T: TrioWritable + 'a> TrioWriter<'a, T> {
    /// The Trio text of the value (what displaying the writer gives).
    pub fn to_string(&self) -> (r: String)
        ensures
            r@ == self.value().trio_text(),
    {
        let mut buf = String::new();
        let _ = self.value.to_trio(&mut buf);
        buf
    }
}

impl TrioWritable for HNull {
    open spec fn trio_text(&self) -> Seq<char> {
        self.zinc()
    }

    fn to_trio(&self, buf: &mut String) -> (r: core::fmt::Result) {
        HNull::to_trio(self, buf)
    }
}

impl TrioWritable for HMarker {
    open spec fn trio_text(&self) -> Seq<char> {
        self.zinc()
    }

    fn to_trio(&self, buf: &mut String) -> (r: core::fmt::Result) {
        HMarker::to_trio(self, buf)
    }
}

impl TrioWritable for HRemove {
    open spec fn trio_text(&self) -> Seq<char> {
        self.zinc()
    }

    fn to_trio(&self, buf: &mut String) -> (r: core::fmt::Result) {
        HRemove::to_trio(self, buf)
    }
}

impl TrioWritable for HNA {
    open spec fn trio_text(&self) -> Seq<char> {
        self.zinc()
    }

    fn to_trio(&self, buf: &mut String) -> (r: core::fmt::Result) {
        HNA::to_trio(self, buf)
    }
}

impl TrioWritable for HBool {
    open spec fn trio_text(&self) -> Seq<char> {
        self.zinc()
    }

    fn to_trio(&self, buf: &mut String) -> (r: core::fmt::Result) {
        HBool::to_trio(self, buf)
    }
}

impl TrioWritable for HStr {
    open spec fn trio_text(&self) -> Seq<char> {
        self.zinc()
    }

    fn to_trio(&self, buf: &mut String) -> (r: core::fmt::Result) {
        HStr::to_trio(self, buf)
    }
}

impl TrioWritable for HXStr {
    open spec fn trio_text(&self) -> Seq<char> {
        self.zinc()
    }

    fn to_trio(&self, buf: &mut String) -> (r: core::fmt::Result) {
        HXStr::to_trio(self, buf)
    }
}

impl TrioWritable for HUri {
    open spec fn trio_text(&self) -> Seq<char> {
        self.zinc()
    }

    fn to_trio(&self, buf: &mut String) -> (r: core::fmt::Result) {
        HUri::to_trio(self, buf)
    }
}

impl TrioWritable for HDate {
    open spec fn trio_text(&self) -> Seq<char> {
        self.zinc()
    }

    fn to_trio(&self, buf: &mut String) -> (r: core::fmt::Result) {
        HDate::to_trio(self, buf)
    }
}

impl TrioWritable for HDateTime {
    open spec fn trio_text(&self) -> Seq<char> {
        self.zinc()
    }

    fn to_trio(&self, buf: &mut String) -> (r: core::fmt::Result) {
        HDateTime::to_trio(self, buf)
    }
}

impl TrioWritable for HTime {
    open spec fn trio_text(&self) -> Seq<char> {
        self.zinc()
    }

    fn to_trio(&self, buf: &mut String) -> (r: core::fmt::Result) {
        HTime::to_trio(self, buf)
    }
}

impl TrioWritable for HRef {
    open spec fn trio_text(&self) -> Seq<char> {
        self.zinc()
    }

    fn to_trio(&self, buf: &mut String) -> (r: core::fmt::Result) {
        HRef::to_trio(self, buf)
    }
}

impl TrioWritable for HSymbol {
    open spec fn trio_text(&self) -> Seq<char> {
        self.zinc()
    }

    fn to_trio(&self, buf: &mut String) -> (r: core::fmt::Result) {
        HSymbol::to_trio(self, buf)
    }
}

impl<T> TrioWritable for HCoord<T> {
    open spec fn trio_text(&self) -> Seq<char> {
        self.zinc()
    }

    fn to_trio(&self, buf: &mut String) -> (r: core::fmt::Result) {
        HCoord::to_trio(self, buf)
    }
}

impl<T> TrioWritable for HNumber<T> {
    open spec fn trio_text(&self) -> Seq<char> {
        self.zinc()
    }

    fn to_trio(&self, buf: &mut String) -> (r: core::fmt::Result) {
        HNumber::to_trio(self, buf)
    }
}

impl<T> TrioWritable for HDict<T> {
    open spec fn trio_text(&self) -> Seq<char> {
        self.zinc()
    }

    fn to_trio(&self, buf: &mut String) -> (r: core::fmt::Result) {
        HDict::to_trio(self, buf)
    }
}

impl<T> TrioWritable for HList<T> {
    open spec fn trio_text(&self) -> Seq<char> {
        self.zinc()
    }

    fn to_trio(&self, buf: &mut String) -> (r: core::fmt::Result) {
        HList::to_trio(self, buf)
    }
}

impl<T> TrioWritable for HGrid<T> {
    open spec fn trio_text(&self) -> Seq<char> {
        self.trio()
    }

    fn to_trio(&self, buf: &mut String) -> (r: core::fmt::Result) {
        HGrid::to_trio(self, buf)
    }
}

impl<T> TrioWritable for HVal<T> {
    open spec fn trio_text(&self) -> Seq<char> {
        crate::h_val::trio_of(*self)
    }

    fn to_trio(&self, buf: &mut String) -> (r: core::fmt::Result) {
        HVal::to_trio(self, buf)
    }
}

} // verus!
