//! The Haystack boolean value.
use vstd::prelude::*;
use crate::text::push_str;
use crate::h_val::{HType, HVal, HBox};

verus! {

/// A boolean, written `T`/`F` in Zinc and `true`/`false` in JSON.
#[derive(PartialEq, Eq, Structural, Debug, Clone, Copy)]
pub struct HBool(pub bool);

/// The boolean type under its short name.
pub type Bool = HBool;

impl HBool {
    /// The Zinc text: `T` or `F`.
    pub open spec fn zinc(&self) -> Seq<char> {
        if self.0 { seq!['T'] } else { seq!['F'] }
    }

    /// The JSON text: `true` or `false`.
    pub open spec fn json(&self) -> Seq<char> {
        if self.0 { seq!['t', 'r', 'u', 'e'] } else { seq!['f', 'a', 'l', 's', 'e'] }
    }

    /// Writes `T` or `F`.
    pub fn to_zinc(&self, buf: &mut String) -> (r: core::fmt::Result)
        ensures
            r is Ok,
            final(buf)@ == old(buf)@ + self.zinc(),
    {
        if self.0 {
            push_str(buf, "T");
            proof { reveal_strlit("T"); }
        } else {
            push_str(buf, "F");
            proof { reveal_strlit("F"); }
        }
        Ok(())
    }

    /// Writes the Trio text, which is the Zinc text.
    pub fn to_trio(&self, buf: &mut String) -> (r: core::fmt::Result)
        ensures
            r is Ok,
            final(buf)@ == old(buf)@ + self.zinc(),
    {
        self.to_zinc(buf)
    }

    /// Writes `true` or `false`.
    pub fn to_json(&self, buf: &mut String) -> (r: core::fmt::Result)
        ensures
            r is Ok,
            final(buf)@ == old(buf)@ + self.json(),
    {
        if self.0 {
            push_str(buf, "true");
            proof { reveal_strlit("true"); }
        } else {
            push_str(buf, "false");
            proof { reveal_strlit("false"); }
        }
        Ok(())
    }

    /// The kind of value: `HType::Bool`.
    pub fn haystack_type(&self) -> (r: HType)
        ensures
            r == HType::Bool,
    {
        HType::Bool
    }

    /// This value as a Haystack value.
    pub fn to_hval<T>(self) -> (r: HVal<T>)
        ensures
            r == HVal::<T>::Bool(self),
    {
        HVal::Bool(self)
    }

    /// This value as a shared Haystack value.
    pub fn to_hbox<T>(self) -> (r: HBox<T>)
        ensures
            *r == HVal::<T>::Bool(self),
    {
        std::rc::Rc::new(HVal::Bool(self))
    }
}

} // verus!
