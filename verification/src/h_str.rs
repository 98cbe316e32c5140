//! The Haystack string value.
use vstd::prelude::*;
use crate::text::{push_str, push_char, str_chars, to_owned_string};
use crate::common::{zinc_escaped, zinc_escape_all};
use crate::h_val::{HType, HVal, HBox};

verus! {

/// A string, written as a quoted, escaped literal in Zinc.
#[derive(Clone, Debug, PartialEq)]
pub struct HStr(pub String);

/// The string type under its short name.
pub type Str = HStr;

/// The Zinc literal of the characters `s`: quoted and escaped.
pub open spec fn zinc_str_literal(s: Seq<char>) -> Seq<char> {
    seq!['"'] + zinc_escaped(s) + seq!['"']
}

impl HStr {
    /// The characters of the string.
    pub open spec fn view(&self) -> Seq<char> {
        self.0@
    }

    /// The Zinc text: the quoted, escaped literal.
    pub open spec fn zinc(&self) -> Seq<char> {
        zinc_str_literal(self@)
    }

    /// The JSON text: the characters themselves, prefixed by `s:` when they hold a colon.
    pub open spec fn json(&self) -> Seq<char> {
        if self@.contains(':') { seq!['s', ':'] + self@ } else { self@ }
    }

    /// A string value holding `s`.
    pub fn new(s: String) -> (r: Self)
        ensures
            r@ == s@,
    {
        HStr(s)
    }

    /// The characters of the string, in order.
    pub fn chars(&self) -> (r: Vec<char>)
        ensures
            r@ == self@,
    {
        str_chars(self.0.as_str())
    }

    /// The string, consuming the value.
    pub fn into_string(self) -> (r: String)
        ensures
            r@ == self@,
    {
        let HStr(s) = self;
        s
    }

    /// A copy of the string.
    pub fn clone_into_string(&self) -> (r: String)
        ensures
            r@ == self@,
    {
        to_owned_string(self.0.as_str())
    }

    /// The string as a slice.
    pub fn as_str(&self) -> (r: &str)
        ensures
            r@ == self@,
    {
        self.0.as_str()
    }

    /// The length of the string in bytes.
    pub fn len(&self) -> (r: usize)
        ensures
            r == vstd::utf8::encode_utf8(self@).len() as usize,
    {
        self.0.as_str().len()
    }

    /// Whether the string is empty.
    pub fn is_empty(&self) -> (r: bool)
        ensures
            r == (self@.len() == 0),
    {
        self.0.as_str().is_empty()
    }

    /// Writes the quoted, escaped Zinc literal.
    pub fn to_zinc(&self, buf: &mut String) -> (r: core::fmt::Result)
        ensures
            r is Ok,
            final(buf)@ == old(buf)@ + self.zinc(),
    {
        push_char(buf, '"');
        zinc_escape_all(self.0.as_str(), buf);
        push_char(buf, '"');
        Ok(())
    }

    /// Writes the Trio text, which is the Zinc text.
    pub fn to_trio(&self, buf: &mut String) -> (r: core::fmt::Result)
        ensures
            r is Ok,
            final(buf)@ == old(buf)@ + self.zinc(),
    {
        self.to_zinc(buf)
    }

    /// Writes the JSON text: `s:` and the characters when they hold a colon, else the characters.
    pub fn to_json(&self, buf: &mut String) -> (r: core::fmt::Result)
        ensures
            r is Ok,
            final(buf)@ == old(buf)@ + self.json(),
    {
        let cs = str_chars(self.0.as_str());
        let mut i: usize = 0;
        let mut found = false;
        while i < cs.len()
            invariant
                i <= cs.len(),
                cs@ == self@,
                found == exists|j: int| 0 <= j < i && cs@[j] == ':',
            decreases cs.len() - i,
        {
            if cs[i] == ':' {
                found = true;
            }
            i = i + 1;
        }
        assert(found == self@.contains(':'));
        if found {
            push_char(buf, 's');
            push_char(buf, ':');
            assert(seq!['s', ':'] =~= seq!['s'] + seq![':']);
        }
        push_str(buf, self.0.as_str());
        Ok(())
    }

    /// The kind of value: `HType::Str`.
    pub fn haystack_type(&self) -> (r: HType)
        ensures
            r == HType::Str,
    {
        HType::Str
    }

    /// This value as a Haystack value.
    pub fn to_hval<T>(self) -> (r: HVal<T>)
        ensures
            r == HVal::<T>::Str(self),
    {
        HVal::Str(self)
    }

    /// This value as a shared Haystack value.
    pub fn to_hbox<T>(self) -> (r: HBox<T>)
        ensures
            *r == HVal::<T>::Str(self),
    {
        std::rc::Rc::new(HVal::Str(self))
    }
}

} // verus!
