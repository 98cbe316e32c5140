//! The Haystack Remove value.
use vstd::prelude::*;
use crate::text::push_str;
use crate::h_val::{HType, HVal, HBox};

verus! {

/// The Remove value, written `R` in Zinc and `-:` in JSON.
#[derive(Clone, PartialEq, Debug)]
pub struct HRemove;

/// The Remove value.
pub const REMOVE: HRemove = HRemove;

impl HRemove {
    /// The Zinc text of Remove.
    pub open spec fn zinc(&self) -> Seq<char> {
        seq!['R']
    }

    /// The JSON text of Remove.
    pub open spec fn json(&self) -> Seq<char> {
        seq!['-', ':']
    }

    /// Writes `R`.
    pub fn to_zinc(&self, buf: &mut String) -> (r: core::fmt::Result)
        ensures
            r is Ok,
            final(buf)@ == old(buf)@ + self.zinc(),
    {
        push_str(buf, "R");
        proof { reveal_strlit("R"); }
        Ok(())
    }

    /// Writes the Trio text, which is the Zinc text.
    pub fn to_trio(&self, buf: &mut String) -> (r: core::fmt::Result)
        ensures
            r is Ok,
            final(buf)@ == old(buf)@ + self.zinc(),
    {
        self.to_zinc(buf)
    }

    /// Writes `-:`.
    pub fn to_json(&self, buf: &mut String) -> (r: core::fmt::Result)
        ensures
            r is Ok,
            final(buf)@ == old(buf)@ + self.json(),
    {
        push_str(buf, "-:");
        proof { reveal_strlit("-:"); }
        Ok(())
    }

    /// The kind of value: `HType::Remove`.
    pub fn haystack_type(&self) -> (r: HType)
        ensures
            r == HType::Remove,
    {
        HType::Remove
    }

    /// This value as a Haystack value.
    pub fn to_hval<T>(self) -> (r: HVal<T>)
        ensures
            r == HVal::<T>::Remove(self),
    {
        HVal::Remove(self)
    }

    /// This value as a shared Haystack value.
    pub fn to_hbox<T>(self) -> (r: HBox<T>)
        ensures
            *r == HVal::<T>::Remove(self),
    {
        std::rc::Rc::new(HVal::Remove(self))
    }
}

} // verus!
