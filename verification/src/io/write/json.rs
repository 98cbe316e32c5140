//! Writing values in JSON.
use vstd::prelude::*;
use crate::h_null::HNull;
use crate::h_marker::HMarker;
use crate::h_remove::HRemove;
use crate::h_na::HNA;
use crate::h_bool::HBool;
use crate::h_str::HStr;
use crate::h_xstr::HXStr;
use crate::h_uri::HUri;
use crate::h_date::HDate;
use crate::h_datetime::HDateTime;
use crate::h_time::HTime;
use crate::h_ref::HRef;
use crate::h_symbol::HSymbol;
use crate::h_coord::HCoord;
use crate::h_number::HNumber;
use crate::h_dict::HDict;
use crate::h_list::HList;
use crate::h_grid::HGrid;
use crate::h_val::HVal;

verus! {

/// A value that can be written in JSON.
pub trait JsonWritable {
    /// The JSON text of the value.
    spec fn json_text(&self) -> Seq<char>;

    /// Writes the JSON text of the value.
    fn to_json(&self, buf: &mut String) -> (r: core::fmt::Result)
        ensures
            r is Ok,
            final(buf)@ == old(buf)@ + self.json_text(),
    ;
}

/// Writes a value in JSON.
pub struct JsonWriter<'a, T: 'a> {
    value: &'a T,
}

impl<'a, T: 'a> JsonWriter<'a, T> {
    /// A writer of `value`.
    pub fn new(value: &'a T) -> (r: Self)
        ensures
            r.value() == value,
    {
        JsonWriter { value }
    }

    /// The value to write.
    pub closed spec fn value(&self) -> &'a T {
        self.value
    }
}

impl<'a, T: JsonWritable + 'a> JsonWriter<'a, T> {
    /// The JSON text of the value (what displaying the writer gives).
    pub fn to_string(&self) -> (r: String)
        ensures
            r@ == self.value().json_text(),
    {
        let mut buf = String::new();
        let _ = self.value.to_json(&mut buf);
        buf
    }
}

impl JsonWritable for HNull {
    open spec fn json_text(&self) -> Seq<char> {
        self.json()
    }

    fn to_json(&self, buf: &mut String) -> (r: core::fmt::Result) {
        HNull::to_json(self, buf)
    }
}

impl JsonWritable for HMarker {
    open spec fn json_text(&self) -> Seq<char> {
        self.json()
    }

    fn to_json(&self, buf: &mut String) -> (r: core::fmt::Result) {
        HMarker::to_json(self, buf)
    }
}

impl JsonWritable for HRemove {
    open spec fn json_text(&self) -> Seq<char> {
        self.json()
    }

    fn to_json(&self, buf: &mut String) -> (r: core::fmt::Result) {
        HRemove::to_json(self, buf)
    }
}

impl JsonWritable for HNA {
    open spec fn json_text(&self) -> Seq<char> {
        self.json()
    }

    fn to_json(&self, buf: &mut String) -> (r: core::fmt::Result) {
        HNA::to_json(self, buf)
    }
}

impl JsonWritable for HBool {
    open spec fn json_text(&self) -> Seq<char> {
        self.json()
    }

    fn to_json(&self, buf: &mut String) -> (r: core::fmt::Result) {
        HBool::to_json(self, buf)
    }
}

impl JsonWritable for HStr {
    open spec fn json_text(&self) -> Seq<char> {
        self.json()
    }

    fn to_json(&self, buf: &mut String) -> (r: core::fmt::Result) {
        HStr::to_json(self, buf)
    }
}

impl JsonWritable for HXStr {
    open spec fn json_text(&self) -> Seq<char> {
        self.json()
    }

    fn to_json(&self, buf: &mut String) -> (r: core::fmt::Result) {
        HXStr::to_json(self, buf)
    }
}

impl JsonWritable for HUri {
    open spec fn json_text(&self) -> Seq<char> {
        self.json()
    }

    fn to_json(&self, buf: &mut String) -> (r: core::fmt::Result) {
        HUri::to_json(self, buf)
    }
}

impl JsonWritable for HDate {
    open spec fn json_text(&self) -> Seq<char> {
        self.json()
    }

    fn to_json(&self, buf: &mut String) -> (r: core::fmt::Result) {
        HDate::to_json(self, buf)
    }
}

impl JsonWritable for HDateTime {
    open spec fn json_text(&self) -> Seq<char> {
        self.json()
    }

    fn to_json(&self, buf: &mut String) -> (r: core::fmt::Result) {
        HDateTime::to_json(self, buf)
    }
}

impl JsonWritable for HTime {
    open spec fn json_text(&self) -> Seq<char> {
        self.json()
    }

    fn to_json(&self, buf: &mut String) -> (r: core::fmt::Result) {
        HTime::to_json(self, buf)
    }
}

impl JsonWritable for HRef {
    open spec fn json_text(&self) -> Seq<char> {
        self.json()
    }

    fn to_json(&self, buf: &mut String) -> (r: core::fmt::Result) {
        HRef::to_json(self, buf)
    }
}

impl JsonWritable for HSymbol {
    open spec fn json_text(&self) -> Seq<char> {
        self.json()
    }

    fn to_json(&self, buf: &mut String) -> (r: core::fmt::Result) {
        HSymbol::to_json(self, buf)
    }
}

impl<T> JsonWritable for HCoord<T> {
    open spec fn json_text(&self) -> Seq<char> {
        self.json()
    }

    fn to_json(&self, buf: &mut String) -> (r: core::fmt::Result) {
        HCoord::to_json(self, buf)
    }
}

impl<T> JsonWritable for HNumber<T> {
    open spec fn json_text(&self) -> Seq<char> {
        self.json()
    }

    fn to_json(&self, buf: &mut String) -> (r: core::fmt::Result) {
        HNumber::to_json(self, buf)
    }
}

impl<T> JsonWritable for HDict<T> {
    open spec fn json_text(&self) -> Seq<char> {
        self.json()
    }

    fn to_json(&self, buf: &mut String) -> (r: core::fmt::Result) {
        HDict::to_json(self, buf)
    }
}

impl<T> JsonWritable for HList<T> {
    open spec fn json_text(&self) -> Seq<char> {
        self.json()
    }

    fn to_json(&self, buf: &mut String) -> (r: core::fmt::Result) {
        HList::to_json(self, buf)
    }
}

impl<T> JsonWritable for HGrid<T> {
    open spec fn json_text(&self) -> Seq<char> {
        self.json()
    }

    fn to_json(&self, buf: &mut String) -> (r: core::fmt::Result) {
        HGrid::to_json(self, buf)
    }
}

impl<T> JsonWritable for HVal<T> {
    open spec fn json_text(&self) -> Seq<char> {
        crate::h_val::json_of(*self)
    }

    fn to_json(&self, buf: &mut String) -> (r: core::fmt::Result) {
        HVal::to_json(self, buf)
    }
}

} // verus!
