//! The Haystack geographic coordinate value.
use vstd::prelude::*;
use crate::text::{push_str, push_char};
use crate::h_number::{NumTrait, displays};
use crate::h_val::{HType, HVal, HBox};

verus! {

/// A latitude and longitude. The texts of both numbers, as their `Display`
/// gives them, are kept beside them.
#[derive(Clone, PartialEq, Debug)]
pub struct HCoord<T> {
    lat: T,
    long: T,
    lat_text: String,
    long_text: String,
}

/// The coordinate type under its short name.
pub type Coord<T> = HCoord<T>;

impl<T> HCoord<T> {
    /// The latitude.
    pub closed spec fn lat(&self) -> T {
        self.lat
    }

    /// The longitude.
    pub closed spec fn long(&self) -> T {
        self.long
    }

    /// The text of the latitude.
    pub closed spec fn lat_text(&self) -> Seq<char> {
        self.lat_text@
    }

    /// The text of the longitude.
    pub closed spec fn long_text(&self) -> Seq<char> {
        self.long_text@
    }

    /// The Zinc text: `C(lat,long)`.
    pub open spec fn zinc(&self) -> Seq<char> {
        seq!['C', '('] + self.lat_text() + seq![','] + self.long_text() + seq![')']
    }

    /// The JSON text: `c:lat,long`.
    pub open spec fn json(&self) -> Seq<char> {
        seq!['c', ':'] + self.lat_text() + seq![','] + self.long_text()
    }
}

impl<T: NumTrait> HCoord<T> {
    /// The coordinate at latitude `lat` and longitude `long`.
    pub fn new(lat: T, long: T) -> (r: HCoord<T>)
        ensures
            r.lat() == lat,
            r.long() == long,
            displays(lat, r.lat_text()),
            displays(long, r.long_text()),
    {
        let lat_text = lat.to_string();
        let long_text = long.to_string();
        HCoord { lat, long, lat_text, long_text }
    }

    /// The latitude.
    pub fn latitude(&self) -> (r: T)
        ensures
            r == self.lat(),
    {
        self.lat
    }

    /// The longitude.
    pub fn longitude(&self) -> (r: T)
        ensures
            r == self.long(),
    {
        self.long
    }

}

impl<T> HCoord<T> {
    /// Writes `C(lat,long)`.
    pub fn to_zinc(&self, buf: &mut String) -> (r: core::fmt::Result)
        ensures
            r is Ok,
            final(buf)@ == old(buf)@ + self.zinc(),
    {
        let ghost start = buf@;
        push_char(buf, 'C');
        push_char(buf, '(');
        push_str(buf, self.lat_text.as_str());
        push_char(buf, ',');
        push_str(buf, self.long_text.as_str());
        push_char(buf, ')');
        assert(buf@ == start + self.zinc());
        Ok(())
    }

    /// Writes the Trio text, which is the Zinc text.
    pub fn to_trio(&self, buf: &mut String) -> (r: core::fmt::Result)
        ensures
            r is Ok,
            final(buf)@ == old(buf)@ + self.zinc(),
    {
        self.to_zinc(buf)
    }

    /// Writes `c:lat,long`.
    pub fn to_json(&self, buf: &mut String) -> (r: core::fmt::Result)
        ensures
            r is Ok,
            final(buf)@ == old(buf)@ + self.json(),
    {
        let ghost start = buf@;
        push_char(buf, 'c');
        push_char(buf, ':');
        push_str(buf, self.lat_text.as_str());
        push_char(buf, ',');
        push_str(buf, self.long_text.as_str());
        assert(buf@ == start + self.json());
        Ok(())
    }

    /// The kind of value: `HType::Coord`.
    pub fn haystack_type(&self) -> (r: HType)
        ensures
            r == HType::Coord,
    {
        HType::Coord
    }

    /// This value as a Haystack value.
    pub fn to_hval(self) -> (r: HVal<T>)
        ensures
            r == HVal::Coord(self),
    {
        HVal::Coord(self)
    }

    /// This value as a shared Haystack value.
    pub fn to_hbox(self) -> (r: HBox<T>)
        ensures
            *r == HVal::Coord(self),
    {
        std::rc::Rc::new(HVal::Coord(self))
    }
}

} // verus!
