//! Writing values in Zinc.
use vstd::prelude::*;
use crate::h_null::HNull;
use crate::h_marker::HMarker;
use crate::h_remove::HRemove;
use crate::h_na::HNA;
use crate::h_bool::HBool;
use crate::h_str::HStr;
use crate::h_xstr::HXStr;
use crate::h_uri::HUri;
use crate::h_date::HDate;
use crate::h_datetime::HDateTime;
use crate::h_time::HTime;
use crate::h_ref::HRef;
use crate::h_symbol::HSymbol;
use crate::h_coord::HCoord;
use crate::h_number::HNumber;
use crate::h_dict::HDict;
use crate::h_list::HList;
use crate::h_grid::HGrid;
use crate::h_val::HVal;

verus! {

/// A value that can be written in Zinc.
pub trait ZincWritable {
    /// The Zinc text of the value.
    spec fn zinc_text(&self) -> Seq<char>;

    /// Writes the Zinc text of the value.
    fn to_zinc(&self, buf: &mut String) -> (r: core::fmt::Result)
        ensures
            r is Ok,
            final(buf)@ == old(buf)@ + self.zinc_text(),
    ;
}

/// Writes a value in Zinc.
pub struct ZincWriter<'a, T: 'a> {
    value: &'a T,
}

impl<'a, T: 'a> ZincWriter<'a, T> {
    /// A writer of `value`.
    pub fn new(value: &'a T) -> (r: Self)
        ensures
            r.value() == value,
    {
        ZincWriter { value }
    }

    /// The value to write.
    pub closed spec fn value(&self) -> &'a T {
        self.value
    }
}

impl<'a, T: ZincWritable + 'a> ZincWriter<'a, T> {
    /// The Zinc text of the value (what displaying the writer gives).
    pub fn to_string(&self) -> (r: String)
        ensures
            r@ == self.value().zinc_text(),
    {
        let mut buf = String::new();
        let _ = self.value.to_zinc(&mut buf);
        buf
    }
}

impl ZincWritable for HNull {
    open spec fn zinc_text(&self) -> Seq<char> {
        self.zinc()
    }

    fn to_zinc(&self, buf: &mut String) -> (r: core::fmt::Result) {
        HNull::to_zinc(self, buf)
    }
}

impl ZincWritable for HMarker {
    open spec fn zinc_text(&self) -> Seq<char> {
        self.zinc()
    }

    fn to_zinc(&self, buf: &mut String) -> (r: core::fmt::Result) {
        HMarker::to_zinc(self, buf)
    }
}

impl ZincWritable for HRemove {
    open spec fn zinc_text(&self) -> Seq<char> {
        self.zinc()
    }

    fn to_zinc(&self, buf: &mut String) -> (r: core::fmt::Result) {
        HRemove::to_zinc(self, buf)
    }
}

impl ZincWritable for HNA {
    open spec fn zinc_text(&self) -> Seq<char> {
        self.zinc()
    }

    fn to_zinc(&self, buf: &mut String) -> (r: core::fmt::Result) {
        HNA::to_zinc(self, buf)
    }
}

impl ZincWritable for HBool {
    open spec fn zinc_text(&self) -> Seq<char> {
        self.zinc()
    }

    fn to_zinc(&self, buf: &mut String) -> (r: core::fmt::Result) {
        HBool::to_zinc(self, buf)
    }
}

impl ZincWritable for HStr {
    open spec fn zinc_text(&self) -> Seq<char> {
        self.zinc()
    }

    fn to_zinc(&self, buf: &mut String) -> (r: core::fmt::Result) {
        HStr::to_zinc(self, buf)
    }
}

impl ZincWritable for HXStr {
    open spec fn zinc_text(&self) -> Seq<char> {
        self.zinc()
    }

    fn to_zinc(&self, buf: &mut String) -> (r: core::fmt::Result) {
        HXStr::to_zinc(self, buf)
    }
}

impl ZincWritable for HUri {
    open spec fn zinc_text(&self) -> Seq<char> {
        self.zinc()
    }

    fn to_zinc(&self, buf: &mut String) -> (r: core::fmt::Result) {
        HUri::to_zinc(self, buf)
    }
}

impl ZincWritable for HDate {
    open spec fn zinc_text(&self) -> Seq<char> {
        self.zinc()
    }

    fn to_zinc(&self, buf: &mut String) -> (r: core::fmt::Result) {
        HDate::to_zinc(self, buf)
    }
}

impl ZincWritable for HDateTime {
    open spec fn zinc_text(&self) -> Seq<char> {
        self.zinc()
    }

    fn to_zinc(&self, buf: &mut String) -> (r: core::fmt::Result) {
        HDateTime::to_zinc(self, buf)
    }
}

impl ZincWritable for HTime {
    open spec fn zinc_text(&self) -> Seq<char> {
        self.zinc()
    }

    fn to_zinc(&self, buf: &mut String) -> (r: core::fmt::Result) {
        HTime::to_zinc(self, buf)
    }
}

impl ZincWritable for HRef {
    open spec fn zinc_text(&self) -> Seq<char> {
        self.zinc()
    }

    fn to_zinc(&self, buf: &mut String) -> (r: core::fmt::Result) {
        HRef::to_zinc(self, buf)
    }
}

impl ZincWritable for HSymbol {
    open spec fn zinc_text(&self) -> Seq<char> {
        self.zinc()
    }

    fn to_zinc(&self, buf: &mut String) -> (r: core::fmt::Result) {
        HSymbol::to_zinc(self, buf)
    }
}

impl<T> ZincWritable for HCoord<T> {
    open spec fn zinc_text(&self) -> Seq<char> {
        self.zinc()
    }

    fn to_zinc(&self, buf: &mut String) -> (r: core::fmt::Result) {
        HCoord::to_zinc(self, buf)
    }
}

impl<T> ZincWritable for HNumber<T> {
    open spec fn zinc_text(&self) -> Seq<char> {
        self.zinc()
    }

    fn to_zinc(&self, buf: &mut String) -> (r: core::fmt::Result) {
        HNumber::to_zinc(self, buf)
    }
}

impl<T> ZincWritable for HDict<T> {
    open spec fn zinc_text(&self) -> Seq<char> {
        self.zinc()
    }

    fn to_zinc(&self, buf: &mut String) -> (r: core::fmt::Result) {
        HDict::to_zinc(self, buf)
    }
}

impl<T> ZincWritable for HList<T> {
    open spec fn zinc_text(&self) -> Seq<char> {
        self.zinc()
    }

    fn to_zinc(&self, buf: &mut String) -> (r: core::fmt::Result) {
        HList::to_zinc(self, buf)
    }
}

impl<T> ZincWritable for HGrid<T> {
    open spec fn zinc_text(&self) -> Seq<char> {
        self.zinc()
    }

    fn to_zinc(&self, buf: &mut String) -> (r: core::fmt::Result) {
        HGrid::to_zinc(self, buf)
    }
}

impl<T> ZincWritable for HVal<T> {
    open spec fn zinc_text(&self) -> Seq<char> {
        crate::h_val::zinc_of(*self)
    }

    fn to_zinc(&self, buf: &mut String) -> (r: core::fmt::Result) {
        HVal::to_zinc(self, buf)
    }
}

} // verus!
