//! The Haystack Marker value.
use vstd::prelude::*;
use crate::text::push_str;
use crate::h_val::{HType, HVal, HBox};

verus! {

/// The Marker value, written `M` in Zinc and `m:` in JSON.
#[derive(Clone, PartialEq, Debug)]
pub struct HMarker;

/// The Marker value.
pub const MARKER: HMarker = HMarker;

impl HMarker {
    /// The Zinc text of Marker.
    pub open spec fn zinc(&self) -> Seq<char> {
        seq!['M']
    }

    /// The JSON text of Marker.
    pub open spec fn json(&self) -> Seq<char> {
        seq!['m', ':']
    }

    /// Writes `M`.
    pub fn to_zinc(&self, buf: &mut String) -> (r: core::fmt::Result)
        ensures
            r is Ok,
            final(buf)@ == old(buf)@ + self.zinc(),
    {
        push_str(buf, "M");
        proof { reveal_strlit("M"); }
        Ok(())
    }

    /// Writes the Trio text, which is the Zinc text.
    pub fn to_trio(&self, buf: &mut String) -> (r: core::fmt::Result)
        ensures
            r is Ok,
            final(buf)@ == old(buf)@ + self.zinc(),
    {
        self.to_zinc(buf)
    }

    /// Writes `m:`.
    pub fn to_json(&self, buf: &mut String) -> (r: core::fmt::Result)
        ensures
            r is Ok,
            final(buf)@ == old(buf)@ + self.json(),
    {
        push_str(buf, "m:");
        proof { reveal_strlit("m:"); }
        Ok(())
    }

    /// The kind of value: `HType::Marker`.
    pub fn haystack_type(&self) -> (r: HType)
        ensures
            r == HType::Marker,
    {
        HType::Marker
    }

    /// This value as a Haystack value.
    pub fn to_hval<T>(self) -> (r: HVal<T>)
        ensures
            r == HVal::<T>::Marker(self),
    {
        HVal::Marker(self)
    }

    /// This value as a shared Haystack value.
    pub fn to_hbox<T>(self) -> (r: HBox<T>)
        ensures
            *r == HVal::<T>::Marker(self),
    {
        std::rc::Rc::new(HVal::Marker(self))
    }
}

} // verus!
