//! The Haystack null value.
use vstd::prelude::*;
use crate::text::push_str;
use crate::h_val::{HType, HVal, HBox};

verus! {

/// The null value, written `N` in Zinc and `null` in JSON.
#[derive(Clone, PartialEq, Debug)]
pub struct HNull;

/// The null value.
pub const NULL: HNull = HNull;

impl HNull {
    /// The Zinc text of null.
    pub open spec fn zinc(&self) -> Seq<char> {
        seq!['N']
    }

    /// The JSON text of null.
    pub open spec fn json(&self) -> Seq<char> {
        seq!['n', 'u', 'l', 'l']
    }

    /// Writes `N`.
    pub fn to_zinc(&self, buf: &mut String) -> (r: core::fmt::Result)
        ensures
            r is Ok,
            final(buf)@ == old(buf)@ + self.zinc(),
    {
        push_str(buf, "N");
        proof { reveal_strlit("N"); }
        Ok(())
    }

    /// Writes the Trio text, which is the Zinc text.
    pub fn to_trio(&self, buf: &mut String) -> (r: core::fmt::Result)
        ensures
            r is Ok,
            final(buf)@ == old(buf)@ + self.zinc(),
    {
        self.to_zinc(buf)
    }

    /// Writes `null`.
    pub fn to_json(&self, buf: &mut String) -> (r: core::fmt::Result)
        ensures
            r is Ok,
            final(buf)@ == old(buf)@ + self.json(),
    {
        push_str(buf, "null");
        proof { reveal_strlit("null"); }
        Ok(())
    }

    /// The kind of value: `HType::Null`.
    pub fn haystack_type(&self) -> (r: HType)
        ensures
            r == HType::Null,
    {
        HType::Null
    }

    /// This value as a Haystack value.
    pub fn to_hval<T>(self) -> (r: HVal<T>)
        ensures
            r == HVal::<T>::Null(self),
    {
        HVal::Null(self)
    }

    /// This value as a shared Haystack value.
    pub fn to_hbox<T>(self) -> (r: HBox<T>)
        ensures
            *r == HVal::<T>::Null(self),
    {
        std::rc::Rc::new(HVal::Null(self))
    }
}

} // verus!
