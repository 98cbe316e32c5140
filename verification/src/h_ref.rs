//! The Haystack reference value.
use vstd::prelude::*;
use crate::text::{push_str, push_char};
use crate::common::{zinc_escaped, plain_escaped, zinc_escape_all, plain_escape_all};
use crate::h_val::{HType, HVal, HBox};

verus! {

/// A reference to an entity: an identifier and an optional display text.
#[derive(Debug, Clone, PartialEq)]
pub struct HRef {
    pub id: String,
    pub dis: Option<String>,
}

/// The reference type under its short name.
pub type Ref = HRef;

impl HRef {
    /// The Zinc text: `@`, the identifier, and a space and the escaped display text if any.
    pub open spec fn zinc(&self) -> Seq<char> {
        seq!['@'] + self.id@ + match self.dis {
            Some(d) => seq![' '] + zinc_escaped(d@),
            None => seq![],
        }
    }

    /// The JSON text: `r:`, the identifier, and a space and the escaped display text if any.
    pub open spec fn json(&self) -> Seq<char> {
        seq!['r', ':'] + self.id@ + match self.dis {
            Some(d) => seq![' '] + plain_escaped(d@),
            None => seq![],
        }
    }

    /// A reference to `id` with display text `dis`.
    pub fn new(id: String, dis: Option<String>) -> (r: HRef)
        ensures
            r.id == id,
            r.dis == dis,
    {
        HRef { id, dis }
    }

    /// Writes `@`, the identifier, and a space and the escaped display text if any.
    pub fn to_zinc(&self, buf: &mut String) -> (r: core::fmt::Result)
        ensures
            r is Ok,
            final(buf)@ == old(buf)@ + self.zinc(),
    {
        let ghost start = buf@;
        push_char(buf, '@');
        push_str(buf, self.id.as_str());
        match &self.dis {
            Some(dis) => {
                push_char(buf, ' ');
                zinc_escape_all(dis.as_str(), buf);
                assert(buf@ == start + (seq!['@'] + self.id@ + (seq![' '] + zinc_escaped(dis@))));
            },
            None => {
                assert(buf@ == start + (seq!['@'] + self.id@ + Seq::<char>::empty()));
            },
        }
        Ok(())
    }

    /// Writes the Trio text, which is the Zinc text.
    pub fn to_trio(&self, buf: &mut String) -> (r: core::fmt::Result)
        ensures
            r is Ok,
            final(buf)@ == old(buf)@ + self.zinc(),
    {
        self.to_zinc(buf)
    }

    /// Writes `r:`, the identifier, and a space and the escaped display text if any.
    pub fn to_json(&self, buf: &mut String) -> (r: core::fmt::Result)
        ensures
            r is Ok,
            final(buf)@ == old(buf)@ + self.json(),
    {
        let ghost start = buf@;
        push_char(buf, 'r');
        push_char(buf, ':');
        push_str(buf, self.id.as_str());
        match &self.dis {
            Some(dis) => {
                push_char(buf, ' ');
                plain_escape_all(dis.as_str(), buf);
                assert(buf@ == start + (seq!['r', ':'] + self.id@ + (seq![' '] + plain_escaped(dis@))));
            },
            None => {
                assert(buf@ == start + (seq!['r', ':'] + self.id@ + Seq::<char>::empty()));
            },
        }
        Ok(())
    }

    /// The kind of value: `HType::Ref`.
    pub fn haystack_type(&self) -> (r: HType)
        ensures
            r == HType::Ref,
    {
        HType::Ref
    }

    /// This value as a Haystack value.
    pub fn to_hval<T>(self) -> (r: HVal<T>)
        ensures
            r == HVal::<T>::Ref(self),
    {
        HVal::Ref(self)
    }

    /// This value as a shared Haystack value.
    pub fn to_hbox<T>(self) -> (r: HBox<T>)
        ensures
            *r == HVal::<T>::Ref(self),
    {
        std::rc::Rc::new(HVal::Ref(self))
    }
}

} // verus!
