//! The Haystack symbol value.
use vstd::prelude::*;
use crate::text::{push_str, push_char};
use crate::h_val::{HType, HVal, HBox};

verus! {

/// A symbol, written `^name` in Zinc and `y:name` in JSON.
#[derive(Clone, PartialEq, Debug)]
pub struct HSymbol {
    val: String,
}

/// The symbol type under its short name.
pub type Symbol = HSymbol;

impl HSymbol {
    /// The name of the symbol.
    pub closed spec fn view(&self) -> Seq<char> {
        self.val@
    }

    /// The Zinc text: `^` and the name.
    pub open spec fn zinc(&self) -> Seq<char> {
        seq!['^'] + self@
    }

    /// The JSON text: `y:` and the name.
    pub open spec fn json(&self) -> Seq<char> {
        seq!['y', ':'] + self@
    }

    /// A symbol named `val`.
    pub fn new(val: String) -> (r: HSymbol)
        ensures
            r@ == val@,
    {
        HSymbol { val }
    }

    /// The name of the symbol.
    pub fn val(&self) -> (r: &str)
        ensures
            r@ == self@,
    {
        self.val.as_str()
    }

    /// Writes `^` and the name.
    pub fn to_zinc(&self, buf: &mut String) -> (r: core::fmt::Result)
        ensures
            r is Ok,
            final(buf)@ == old(buf)@ + self.zinc(),
    {
        push_char(buf, '^');
        push_str(buf, self.val.as_str());
        Ok(())
    }

    /// Writes the Trio text, which is the Zinc text.
    pub fn to_trio(&self, buf: &mut String) -> (r: core::fmt::Result)
        ensures
            r is Ok,
            final(buf)@ == old(buf)@ + self.zinc(),
    {
        self.to_zinc(buf)
    }

    /// Writes `y:` and the name.
    pub fn to_json(&self, buf: &mut String) -> (r: core::fmt::Result)
        ensures
            r is Ok,
            final(buf)@ == old(buf)@ + self.json(),
    {
        push_char(buf, 'y');
        push_char(buf, ':');
        push_str(buf, self.val.as_str());
        assert(seq!['y', ':'] =~= seq!['y'] + seq![':']);
        Ok(())
    }

    /// The kind of value: `HType::Symbol`.
    pub fn haystack_type(&self) -> (r: HType)
        ensures
            r == HType::Symbol,
    {
        HType::Symbol
    }

    /// This value as a Haystack value.
    pub fn to_hval<T>(self) -> (r: HVal<T>)
        ensures
            r == HVal::<T>::Symbol(self),
    {
        HVal::Symbol(self)
    }

    /// This value as a shared Haystack value.
    pub fn to_hbox<T>(self) -> (r: HBox<T>)
        ensures
            *r == HVal::<T>::Symbol(self),
    {
        std::rc::Rc::new(HVal::Symbol(self))
    }
}

} // verus!
