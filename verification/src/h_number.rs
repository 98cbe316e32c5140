//! The Haystack number value: a number and an optional unit.
use vstd::prelude::*;
use crate::text::{push_str, push_char, to_owned_string};
use crate::h_val::{HType, HVal, HBox};

verus! {

/// Whether `t` is a text that `Display` gives for `v` (`ToString::to_string`).
pub open spec fn displays<T: core::fmt::Display>(v: T, t: Seq<char>) -> bool {
    exists|s: String| s@ == t && #[trigger] vstd::string::to_string_from_display_ensures::<T>(&v, s)
}

/// The numeric type of Haystack numbers and coordinates: a copyable value with
/// a text rendering.
pub trait NumTrait: Copy + core::fmt::Display + core::fmt::Debug {}

impl<T: Copy + core::fmt::Display + core::fmt::Debug> NumTrait for T {}

/// The unit of a number, such as `kWh` or `°F`.
#[derive(Clone, PartialEq, Debug)]
pub struct HUnit(String);

impl HUnit {
    /// The characters of the unit.
    pub closed spec fn view(&self) -> Seq<char> {
        self.0@
    }

    /// The unit named `unit`.
    pub fn new(unit: String) -> (r: HUnit)
        ensures
            r@ == unit@,
    {
        HUnit(unit)
    }

    /// The unit as a slice.
    pub fn as_str(&self) -> (r: &str)
        ensures
            r@ == self@,
    {
        self.0.as_str()
    }

    /// The unit as a new `String` (its display text).
    pub fn to_string(&self) -> (r: String)
        ensures
            r@ == self@,
    {
        to_owned_string(self.0.as_str())
    }
}

impl From<String> for HUnit {
    fn from(value: String) -> (r: Self) {
        HUnit(value)
    }
}

impl vstd::std_specs::convert::FromSpecImpl<String> for HUnit {
    open spec fn obeys_from_spec() -> bool {
        true
    }

    open spec fn from_spec(v: String) -> Self {
        HUnit::spec_from_string(v)
    }
}

impl HUnit {
    /// The unit that `From<String>` makes of `v`.
    pub closed spec fn spec_from_string(v: String) -> HUnit {
        HUnit(v)
    }

    /// The unit made of a string has the string's characters.
    pub proof fn lemma_from_string(v: String)
        ensures
            Self::spec_from_string(v)@ == v@,
    {
    }
}

/// The text of an optional unit (empty when there is none).
pub open spec fn unit_text(u: Option<HUnit>) -> Seq<char> {
    match u {
        Some(u) => u@,
        None => seq![],
    }
}

/// A number with an optional unit. The number's text, as its `Display` gives
/// it, is kept beside the number.
#[derive(PartialEq, Debug, Clone)]
pub struct HNumber<T> {
    val: T,
    text: String,
    unit: Option<HUnit>,
}

/// The number type under its short name.
pub type Number<T> = HNumber<T>;

impl<T> HNumber<T> {
    /// The number.
    pub closed spec fn value(&self) -> T {
        self.val
    }

    /// The text of the number.
    pub closed spec fn text(&self) -> Seq<char> {
        self.text@
    }

    /// The unit.
    pub closed spec fn unit_spec(&self) -> Option<HUnit> {
        self.unit
    }

    /// The Zinc text: the number followed by the unit.
    pub open spec fn zinc(&self) -> Seq<char> {
        self.text() + unit_text(self.unit_spec())
    }

    /// The JSON text: `n:`, the number, and a space and the unit if any.
    pub open spec fn json(&self) -> Seq<char> {
        seq!['n', ':'] + self.text() + match self.unit_spec() {
            Some(u) => seq![' '] + u@,
            None => seq![],
        }
    }
}

impl<T: NumTrait> HNumber<T> {
    /// The number `num` with unit `unit`; its text is what `Display` gives for `num`.
    pub fn new(num: T, unit: Option<HUnit>) -> (r: Self)
        ensures
            r.value() == num,
            r.unit_spec() == unit,
            displays(num, r.text()),
    {
        let text = num.to_string();
        HNumber { val: num, text, unit }
    }

    /// The number.
    pub fn val(&self) -> (r: T)
        ensures
            r == self.value(),
    {
        self.val
    }

    /// The unit.
    pub fn unit(&self) -> (r: &Option<HUnit>)
        ensures
            *r == self.unit_spec(),
    {
        &self.unit
    }

}

impl<T> HNumber<T> {
    /// Writes the number followed by the unit.
    pub fn to_zinc(&self, buf: &mut String) -> (r: core::fmt::Result)
        ensures
            r is Ok,
            final(buf)@ == old(buf)@ + self.zinc(),
    {
        push_str(buf, self.text.as_str());
        match &self.unit {
            Some(u) => push_str(buf, u.as_str()),
            None => {},
        }
        Ok(())
    }

    /// Writes the Trio text, which is the Zinc text.
    pub fn to_trio(&self, buf: &mut String) -> (r: core::fmt::Result)
        ensures
            r is Ok,
            final(buf)@ == old(buf)@ + self.zinc(),
    {
        self.to_zinc(buf)
    }

    /// Writes `n:`, the number, and a space and the unit if any.
    pub fn to_json(&self, buf: &mut String) -> (r: core::fmt::Result)
        ensures
            r is Ok,
            final(buf)@ == old(buf)@ + self.json(),
    {
        let ghost start = buf@;
        push_char(buf, 'n');
        push_char(buf, ':');
        push_str(buf, self.text.as_str());
        match &self.unit {
            Some(u) => {
                push_char(buf, ' ');
                push_str(buf, u.as_str());
                assert(buf@ == start + (seq!['n', ':'] + self.text() + (seq![' '] + u@)));
            },
            None => {
                assert(buf@ == start + (seq!['n', ':'] + self.text() + Seq::<char>::empty()));
            },
        }
        Ok(())
    }

    /// The kind of value: `HType::Number`.
    pub fn haystack_type(&self) -> (r: HType)
        ensures
            r == HType::Number,
    {
        HType::Number
    }

    /// This value as a Haystack value.
    pub fn to_hval(self) -> (r: HVal<T>)
        ensures
            r == HVal::Number(self),
    {
        HVal::Number(self)
    }

    /// This value as a shared Haystack value.
    pub fn to_hbox(self) -> (r: HBox<T>)
        ensures
            *r == HVal::Number(self),
    {
        std::rc::Rc::new(HVal::Number(self))
    }
}

} // verus!
