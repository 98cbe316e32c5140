//! The Haystack URI value.
use vstd::prelude::*;
use crate::text::{push_str, push_char, to_owned_string};
use crate::h_val::{HType, HVal, HBox};

verus! {

/// The error of `url::Url::parse`.
#[verifier::external_type_specification]
#[verifier::external_body]
pub struct ExUrlParseError(url::ParseError);

/// The serialization that `url::Url::parse` gives the text `input`, or `None`
/// where it refuses it.
pub uninterp spec fn url_serialization(input: Seq<char>) -> Option<Seq<char>>;

/// `url::Url::parse`: parses `input` as an absolute URL and hands back its
/// serialization (`Url::as_str`). The claim is that the outcome is a function
/// of the text alone, named `url_serialization`; what that function is (the
/// WHATWG URL parser) is not stated here.
#[verifier::external_body]
pub(crate) fn url_parse(input: &str) -> (r: Result<String, url::ParseError>)
    ensures
        (r is Ok) == (url_serialization(input@) is Some),
        r matches Ok(s) ==> url_serialization(input@) == Some(s@),
{
    match url::Url::parse(input) {
        Ok(u) => Ok(u.as_str().to_string()),
        Err(e) => Err(e),
    }
}

/// A URI, written between backquotes in Zinc and after `u:` in JSON.
#[derive(Clone, Debug, PartialEq)]
pub struct HUri {
    url: String,
}

/// The URI type under its short name.
pub type Uri = HUri;

impl HUri {
    /// The serialized URL.
    pub closed spec fn view(&self) -> Seq<char> {
        self.url@
    }

    /// The Zinc text: the URL between backquotes.
    pub open spec fn zinc(&self) -> Seq<char> {
        seq!['`'] + self@ + seq!['`']
    }

    /// The JSON text: `u:` and the URL.
    pub open spec fn json(&self) -> Seq<char> {
        seq!['u', ':'] + self@
    }

    /// Parses `input` as an absolute URL; fails exactly where the URL parser does.
    pub fn new(input: &str) -> (r: Result<HUri, url::ParseError>)
        ensures
            (r is Ok) == (url_serialization(input@) is Some),
            r matches Ok(u) ==> url_serialization(input@) == Some(u@),
    {
        match url_parse(input) {
            Ok(url) => Ok(HUri { url }),
            Err(e) => Err(e),
        }
    }

    /// Writes the URL between backquotes.
    pub fn to_zinc(&self, buf: &mut String) -> (r: core::fmt::Result)
        ensures
            r is Ok,
            final(buf)@ == old(buf)@ + self.zinc(),
    {
        push_char(buf, '`');
        push_str(buf, self.url.as_str());
        push_char(buf, '`');
        Ok(())
    }

    /// Writes the Trio text, which is the Zinc text.
    pub fn to_trio(&self, buf: &mut String) -> (r: core::fmt::Result)
        ensures
            r is Ok,
            final(buf)@ == old(buf)@ + self.zinc(),
    {
        self.to_zinc(buf)
    }

    /// Writes `u:` and the URL.
    pub fn to_json(&self, buf: &mut String) -> (r: core::fmt::Result)
        ensures
            r is Ok,
            final(buf)@ == old(buf)@ + self.json(),
    {
        push_char(buf, 'u');
        push_char(buf, ':');
        push_str(buf, self.url.as_str());
        assert(seq!['u', ':'] =~= seq!['u'] + seq![':']);
        Ok(())
    }

    /// The serialized URL.
    pub fn as_str(&self) -> (r: &str)
        ensures
            r@ == self@,
    {
        self.url.as_str()
    }

    /// A copy of the serialized URL.
    pub fn to_owned_string(&self) -> (r: String)
        ensures
            r@ == self@,
    {
        to_owned_string(self.url.as_str())
    }

    /// The kind of value: `HType::Uri`.
    pub fn haystack_type(&self) -> (r: HType)
        ensures
            r == HType::Uri,
    {
        HType::Uri
    }

    /// This value as a Haystack value.
    pub fn to_hval<T>(self) -> (r: HVal<T>)
        ensures
            r == HVal::<T>::Uri(self),
    {
        HVal::Uri(self)
    }

    /// This value as a shared Haystack value.
    pub fn to_hbox<T>(self) -> (r: HBox<T>)
        ensures
            *r == HVal::<T>::Uri(self),
    {
        std::rc::Rc::new(HVal::Uri(self))
    }
}

} // verus!
