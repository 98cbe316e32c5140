//! The Haystack NA value.
use vstd::prelude::*;
use crate::text::push_str;
use crate::h_val::{HType, HVal, HBox};

verus! {

/// The NA value, written `NA` in Zinc and `z:` in JSON.
#[derive(Clone, PartialEq, Debug)]
pub struct HNA;

/// The NA value.
pub const NA: HNA = HNA;

impl HNA {
    /// The Zinc text of NA.
    pub open spec fn zinc(&self) -> Seq<char> {
        seq!['N', 'A']
    }

    /// The JSON text of NA.
    pub open spec fn json(&self) -> Seq<char> {
        seq!['z', ':']
    }

    /// Writes `NA`.
    pub fn to_zinc(&self, buf: &mut String) -> (r: core::fmt::Result)
        ensures
            r is Ok,
            final(buf)@ == old(buf)@ + self.zinc(),
    {
        push_str(buf, "NA");
        proof { reveal_strlit("NA"); }
        Ok(())
    }

    /// Writes the Trio text, which is the Zinc text.
    pub fn to_trio(&self, buf: &mut String) -> (r: core::fmt::Result)
        ensures
            r is Ok,
            final(buf)@ == old(buf)@ + self.zinc(),
    {
        self.to_zinc(buf)
    }

    /// Writes `z:`.
    pub fn to_json(&self, buf: &mut String) -> (r: core::fmt::Result)
        ensures
            r is Ok,
            final(buf)@ == old(buf)@ + self.json(),
    {
        push_str(buf, "z:");
        proof { reveal_strlit("z:"); }
        Ok(())
    }

    /// The kind of value: `HType::NA`.
    pub fn haystack_type(&self) -> (r: HType)
        ensures
            r == HType::NA,
    {
        HType::NA
    }

    /// This value as a Haystack value.
    pub fn to_hval<T>(self) -> (r: HVal<T>)
        ensures
            r == HVal::<T>::NA(self),
    {
        HVal::NA(self)
    }

    /// This value as a shared Haystack value.
    pub fn to_hbox<T>(self) -> (r: HBox<T>)
        ensures
            *r == HVal::<T>::NA(self),
    {
        std::rc::Rc::new(HVal::NA(self))
    }
}

} // verus!
