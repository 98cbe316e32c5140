//! The Haystack extended string value.
use vstd::prelude::*;
use crate::text::{push_str, push_char};
use crate::common::{plain_escaped, plain_escape_all};
use crate::h_str::{HStr, zinc_str_literal};
use crate::h_val::{HType, HVal, HBox};

verus! {

/// A typed string, written `Type("value")` in Zinc and `x:Type:value` in JSON.
#[derive(Clone, Debug, PartialEq)]
pub struct HXStr {
    xtype: String,
    xval: HStr,
}

/// The extended string type under its short name.
pub type XStr = HXStr;

impl HXStr {
    /// The type name.
    pub closed spec fn xtype(&self) -> Seq<char> {
        self.xtype@
    }

    /// The value.
    pub closed spec fn xval(&self) -> Seq<char> {
        self.xval@
    }

    /// The Zinc text: the type name and the quoted value in brackets.
    pub open spec fn zinc(&self) -> Seq<char> {
        self.xtype() + seq!['('] + zinc_str_literal(self.xval()) + seq![')']
    }

    /// The JSON text: `x:`, the type name, `:` and the escaped value.
    pub open spec fn json(&self) -> Seq<char> {
        seq!['x', ':'] + self.xtype() + seq![':'] + plain_escaped(self.xval())
    }

    /// An extended string of type `xtype` holding `xval`.
    pub fn new(xtype: String, xval: String) -> (r: HXStr)
        ensures
            r.xtype() == xtype@,
            r.xval() == xval@,
    {
        HXStr { xtype, xval: HStr::new(xval) }
    }

    /// Writes the type name and the quoted value in brackets.
    pub fn to_zinc(&self, buf: &mut String) -> (r: core::fmt::Result)
        ensures
            r is Ok,
            final(buf)@ == old(buf)@ + self.zinc(),
    {
        push_str(buf, self.xtype.as_str());
        push_char(buf, '(');
        let _ = self.xval.to_zinc(buf);
        push_char(buf, ')');
        Ok(())
    }

    /// Writes the Trio text, which is the Zinc text.
    pub fn to_trio(&self, buf: &mut String) -> (r: core::fmt::Result)
        ensures
            r is Ok,
            final(buf)@ == old(buf)@ + self.zinc(),
    {
        self.to_zinc(buf)
    }

    /// Writes `x:`, the type name, `:` and the escaped value.
    pub fn to_json(&self, buf: &mut String) -> (r: core::fmt::Result)
        ensures
            r is Ok,
            final(buf)@ == old(buf)@ + self.json(),
    {
        push_char(buf, 'x');
        push_char(buf, ':');
        push_str(buf, self.xtype.as_str());
        push_char(buf, ':');
        plain_escape_all(self.xval.as_str(), buf);
        assert(seq!['x', ':'] =~= seq!['x'] + seq![':']);
        Ok(())
    }

    /// The kind of value: `HType::XStr`.
    pub fn haystack_type(&self) -> (r: HType)
        ensures
            r == HType::XStr,
    {
        HType::XStr
    }

    /// This value as a Haystack value.
    pub fn to_hval<T>(self) -> (r: HVal<T>)
        ensures
            r == HVal::<T>::XStr(self),
    {
        HVal::XStr(self)
    }

    /// This value as a shared Haystack value.
    pub fn to_hbox<T>(self) -> (r: HBox<T>)
        ensures
            *r == HVal::<T>::XStr(self),
    {
        std::rc::Rc::new(HVal::XStr(self))
    }
}

} // verus!
