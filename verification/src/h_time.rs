//! The Haystack time-of-day value.
use vstd::prelude::*;
use chrono::Timelike;
use crate::text::{push_char, push_decimal_padded, pad_left, decimal, to_owned_string};
use crate::h_val::{HType, HVal, HBox};

verus! {

/// Whether hour, minute, second and nanosecond name a time of day; the
/// nanosecond may reach into a second second only on second 59 (a leap second).
pub open spec fn valid_hmsn(h: int, m: int, s: int, n: int) -> bool {
    &&& 0 <= h < 24
    &&& 0 <= m < 60
    &&& 0 <= s < 60
    &&& 0 <= n < 2_000_000_000
    &&& (n < 1_000_000_000 || s == 59)
}

/// `chrono::NaiveTime::from_hms_nano_opt`, handing back the parts of the time it
/// makes. By chrono's source it makes a time exactly when `valid_hmsn` holds,
/// with the parts it was given.
#[verifier::external_body]
pub(crate) fn chrono_time(hour: u32, min: u32, sec: u32, nano: u32) -> (r: Option<(u32, u32, u32, u32)>)
    ensures
        (r is Some) == valid_hmsn(hour as int, min as int, sec as int, nano as int),
        r matches Some(t) ==> t == (hour, min, sec, nano),
{
    match chrono::NaiveTime::from_hms_nano_opt(hour, min, sec, nano) {
        Some(t) => Some((t.hour(), t.minute(), t.second(), t.nanosecond())),
        None => None,
    }
}

/// Why a time could not be made.
#[derive(Debug, PartialEq, Eq, Structural, Clone, Copy)]
pub enum HTimeErr {
    InvalidDate,
    ShouldNeverHappen,
}

impl HTimeErr {
    /// The message of the error.
    pub fn to_string(&self) -> (r: String)
        ensures
            r@ == match self {
                HTimeErr::InvalidDate => "Invalid time"@,
                HTimeErr::ShouldNeverHappen => "This should never happen"@,
            },
    {
        match self {
            HTimeErr::InvalidDate => to_owned_string("Invalid time"),
            HTimeErr::ShouldNeverHappen => to_owned_string("This should never happen"),
        }
    }
}

/// The Zinc text of a time: `hh:mm:ss`, and `.` and nine nanosecond digits when
/// the nanosecond is not zero.
pub open spec fn time_zinc(h: int, m: int, s: int, n: int) -> Seq<char> {
    hms_zinc(h, m, s) + if n != 0 {
        seq!['.'] + pad_left(decimal(n as nat), 9, '0')
    } else {
        seq![]
    }
}

/// `hh:mm:ss`, each part zero-padded to two digits.
pub open spec fn hms_zinc(h: int, m: int, s: int) -> Seq<char> {
    pad_left(decimal(h as nat), 2, '0') + seq![':'] + pad_left(decimal(m as nat), 2, '0') + seq![':']
        + pad_left(decimal(s as nat), 2, '0')
}

/// Writes `hh:mm:ss`.
pub(crate) fn push_hms(buf: &mut String, h: u32, m: u32, s: u32)
    ensures
        final(buf)@ == old(buf)@ + hms_zinc(h as int, m as int, s as int),
{
    let ghost start = buf@;
    push_decimal_padded(buf, h as u64, 2, '0');
    push_char(buf, ':');
    push_decimal_padded(buf, m as u64, 2, '0');
    push_char(buf, ':');
    push_decimal_padded(buf, s as u64, 2, '0');
    assert(buf@ == start + hms_zinc(h as int, m as int, s as int));
}

/// A time of day with nanosecond precision.
#[derive(Clone, Copy, Debug, PartialEq)]
pub struct HTime {
    hour: u32,
    minute: u32,
    second: u32,
    nano: u32,
}

/// The time type under its short name.
pub type Time = HTime;

impl HTime {
    #[verifier::type_invariant]
    spec fn inv(&self) -> bool {
        valid_hmsn(self.hour as int, self.minute as int, self.second as int, self.nano as int)
    }


    /// The hour.
    pub closed spec fn hour_spec(&self) -> int {
        self.hour as int
    }

    /// The minute.
    pub closed spec fn minute_spec(&self) -> int {
        self.minute as int
    }

    /// The second.
    pub closed spec fn second_spec(&self) -> int {
        self.second as int
    }

    /// The nanosecond.
    pub closed spec fn nano_spec(&self) -> int {
        self.nano as int
    }

    /// The Zinc text.
    pub open spec fn zinc(&self) -> Seq<char> {
        time_zinc(self.hour_spec(), self.minute_spec(), self.second_spec(), self.nano_spec())
    }

    /// The JSON text: `h:` and the Zinc text.
    pub open spec fn json(&self) -> Seq<char> {
        seq!['h', ':'] + self.zinc()
    }

    /// The time `hour:minute:second.nano`; fails exactly where no such time exists.
    pub fn new(hour: u32, minute: u32, second: u32, nano: u32) -> (r: Result<Self, HTimeErr>)
        ensures
            (r is Ok) == valid_hmsn(hour as int, minute as int, second as int, nano as int),
            r matches Ok(t) ==> t.hour_spec() == hour && t.minute_spec() == minute
                && t.second_spec() == second && t.nano_spec() == nano,
            r matches Err(e) ==> e == HTimeErr::InvalidDate,
    {
        match chrono_time(hour, minute, second, nano) {
            Some((h, m, s, n)) => Ok(HTime { hour: h, minute: m, second: s, nano: n }),
            None => Err(HTimeErr::InvalidDate),
        }
    }

    /// The hour.
    pub fn hour(&self) -> (r: u32)
        ensures
            r == self.hour_spec(),
            valid_hmsn(self.hour_spec(), self.minute_spec(), self.second_spec(), self.nano_spec()),
    {
        proof { use_type_invariant(self); }
        self.hour
    }

    /// The minute.
    pub fn minute(&self) -> (r: u32)
        ensures
            r == self.minute_spec(),
    {
        self.minute
    }

    /// The second.
    pub fn second(&self) -> (r: u32)
        ensures
            r == self.second_spec(),
    {
        self.second
    }

    /// The nanosecond.
    pub fn nanosecond(&self) -> (r: u32)
        ensures
            r == self.nano_spec(),
    {
        self.nano
    }

    /// Writes `hh:mm:ss`, and the nanoseconds when not zero.
    pub fn to_zinc(&self, buf: &mut String) -> (r: core::fmt::Result)
        ensures
            r is Ok,
            final(buf)@ == old(buf)@ + self.zinc(),
    {
        let ghost start = buf@;
        push_hms(buf, self.hour, self.minute, self.second);
        if self.nano != 0 {
            push_char(buf, '.');
            push_decimal_padded(buf, self.nano as u64, 9, '0');
        }
        assert(buf@ == start + self.zinc());
        Ok(())
    }

    /// Writes the Trio text, which is the Zinc text.
    pub fn to_trio(&self, buf: &mut String) -> (r: core::fmt::Result)
        ensures
            r is Ok,
            final(buf)@ == old(buf)@ + self.zinc(),
    {
        self.to_zinc(buf)
    }

    /// Writes `h:` and the Zinc text.
    pub fn to_json(&self, buf: &mut String) -> (r: core::fmt::Result)
        ensures
            r is Ok,
            final(buf)@ == old(buf)@ + self.json(),
    {
        let ghost start = buf@;
        push_char(buf, 'h');
        push_char(buf, ':');
        let _ = self.to_zinc(buf);
        assert(buf@ == start + self.json());
        Ok(())
    }

    /// The kind of value: `HType::Time`.
    pub fn haystack_type(&self) -> (r: HType)
        ensures
            r == HType::Time,
    {
        HType::Time
    }

    /// This value as a Haystack value.
    pub fn to_hval<T>(self) -> (r: HVal<T>)
        ensures
            r == HVal::<T>::Time(self),
    {
        HVal::Time(self)
    }

    /// This value as a shared Haystack value.
    pub fn to_hbox<T>(self) -> (r: HBox<T>)
        ensures
            *r == HVal::<T>::Time(self),
    {
        std::rc::Rc::new(HVal::Time(self))
    }
}

} // verus!
