//! The Haystack date value.
use vstd::prelude::*;
use chrono::Datelike;
use crate::text::{push_char, push_decimal_padded, push_int_padded, pad_left, decimal, decimal_int, to_owned_string};
use crate::h_val::{HType, HVal, HBox};

verus! {

/// The smallest year that a date can hold.
pub const MIN_YEAR: i32 = -262143i32;

/// The largest year that a date can hold.
pub const MAX_YEAR: i32 = 262142i32;

/// Whether `y` is a leap year of the proleptic Gregorian calendar.
pub open spec fn is_leap_year(y: int) -> bool {
    y % 4 == 0 && (y % 100 != 0 || y % 400 == 0)
}

/// The number of days of month `m` (1 to 12) of year `y`.
pub open spec fn days_in_month(y: int, m: int) -> int {
    if m == 2 {
        if is_leap_year(y) { 29 } else { 28 }
    } else if m == 4 || m == 6 || m == 9 || m == 11 {
        30
    } else {
        31
    }
}

/// Whether year, month and day name a date of the proleptic Gregorian calendar
/// within the supported years.
pub open spec fn valid_ymd(y: int, m: int, d: int) -> bool {
    &&& MIN_YEAR <= y <= MAX_YEAR
    &&& 1 <= m <= 12
    &&& 1 <= d <= days_in_month(y, m)
}

/// `chrono::NaiveDate::from_ymd_opt`, handing back the year, month and day of
/// the date it makes. By chrono's documentation it makes a date exactly for a
/// valid calendar date whose year lies within `MIN_YEAR..=MAX_YEAR`, and the
/// date has the year, month and day it was made from.
#[verifier::external_body]
pub(crate) fn chrono_date(year: i32, month: u32, day: u32) -> (r: Option<(i32, u32, u32)>)
    ensures
        (r is Some) == valid_ymd(year as int, month as int, day as int),
        r matches Some(t) ==> t == (year, month, day),
{
    match chrono::NaiveDate::from_ymd_opt(year, month, day) {
        Some(d) => Some((d.year(), d.month(), d.day())),
        None => None,
    }
}

/// Why a date could not be made.
#[derive(Debug, PartialEq, Eq, Structural, Clone, Copy)]
pub enum HDateErr {
    InvalidDate,
    ShouldNeverHappen,
}

impl HDateErr {
    /// The message of the error.
    pub fn to_string(&self) -> (r: String)
        ensures
            r@ == match self {
                HDateErr::InvalidDate => "Invalid date"@,
                HDateErr::ShouldNeverHappen => "This should never happen"@,
            },
    {
        match self {
            HDateErr::InvalidDate => to_owned_string("Invalid date"),
            HDateErr::ShouldNeverHappen => to_owned_string("This should never happen"),
        }
    }
}

/// The Zinc text of a date: `YYYY-MM-DD`, each part zero-padded on the left.
pub open spec fn date_zinc(y: int, m: int, d: int) -> Seq<char> {
    pad_left(decimal_int(y), 4, '0') + seq!['-'] + pad_left(decimal(m as nat), 2, '0') + seq!['-']
        + pad_left(decimal(d as nat), 2, '0')
}

/// A calendar date.
#[derive(Clone, Copy, Debug, PartialEq)]
pub struct HDate {
    year: i32,
    month: u32,
    day: u32,
}

/// The date type under its short name.
pub type Date = HDate;

impl HDate {
    #[verifier::type_invariant]
    spec fn inv(&self) -> bool {
        valid_ymd(self.year as int, self.month as int, self.day as int)
    }


    /// The year.
    pub closed spec fn year_spec(&self) -> int {
        self.year as int
    }

    /// The month.
    pub closed spec fn month_spec(&self) -> int {
        self.month as int
    }

    /// The day of the month.
    pub closed spec fn day_spec(&self) -> int {
        self.day as int
    }

    /// The Zinc text: `YYYY-MM-DD`.
    pub open spec fn zinc(&self) -> Seq<char> {
        date_zinc(self.year_spec(), self.month_spec(), self.day_spec())
    }

    /// The JSON text: `d:` and the Zinc text.
    pub open spec fn json(&self) -> Seq<char> {
        seq!['d', ':'] + self.zinc()
    }

    /// The date `year-month-day`; fails with `InvalidDate` exactly where no such date exists.
    pub fn new(year: i32, month: u32, day: u32) -> (r: Result<Self, HDateErr>)
        ensures
            (r is Ok) == valid_ymd(year as int, month as int, day as int),
            r matches Ok(d) ==> d.year_spec() == year && d.month_spec() == month && d.day_spec() == day,
            r matches Err(e) ==> e == HDateErr::InvalidDate,
    {
        match chrono_date(year, month, day) {
            Some((y, m, d)) => Ok(HDate { year: y, month: m, day: d }),
            None => Err(HDateErr::InvalidDate),
        }
    }

    /// The year.
    pub fn year(&self) -> (r: i32)
        ensures
            r == self.year_spec(),
            valid_ymd(self.year_spec(), self.month_spec(), self.day_spec()),
    {
        proof { use_type_invariant(self); }
        self.year
    }

    /// The month.
    pub fn month(&self) -> (r: u32)
        ensures
            r == self.month_spec(),
    {
        self.month
    }

    /// The day of the month.
    pub fn day(&self) -> (r: u32)
        ensures
            r == self.day_spec(),
    {
        self.day
    }

    /// Writes `YYYY-MM-DD`.
    pub fn to_zinc(&self, buf: &mut String) -> (r: core::fmt::Result)
        ensures
            r is Ok,
            final(buf)@ == old(buf)@ + self.zinc(),
    {
        let ghost start = buf@;
        push_int_padded(buf, self.year as i64, 4, '0');
        push_char(buf, '-');
        push_decimal_padded(buf, self.month as u64, 2, '0');
        push_char(buf, '-');
        push_decimal_padded(buf, self.day as u64, 2, '0');
        assert(buf@ == start + self.zinc());
        Ok(())
    }

    /// Writes the Trio text, which is the Zinc text.
    pub fn to_trio(&self, buf: &mut String) -> (r: core::fmt::Result)
        ensures
            r is Ok,
            final(buf)@ == old(buf)@ + self.zinc(),
    {
        self.to_zinc(buf)
    }

    /// Writes `d:` and the Zinc text.
    pub fn to_json(&self, buf: &mut String) -> (r: core::fmt::Result)
        ensures
            r is Ok,
            final(buf)@ == old(buf)@ + self.json(),
    {
        let ghost start = buf@;
        push_char(buf, 'd');
        push_char(buf, ':');
        let _ = self.to_zinc(buf);
        assert(buf@ == start + self.json());
        Ok(())
    }

    /// The kind of value: `HType::Date`.
    pub fn haystack_type(&self) -> (r: HType)
        ensures
            r == HType::Date,
    {
        HType::Date
    }

    /// This value as a Haystack value.
    pub fn to_hval<T>(self) -> (r: HVal<T>)
        ensures
            r == HVal::<T>::Date(self),
    {
        HVal::Date(self)
    }

    /// This value as a shared Haystack value.
    pub fn to_hbox<T>(self) -> (r: HBox<T>)
        ensures
            *r == HVal::<T>::Date(self),
    {
        std::rc::Rc::new(HVal::Date(self))
    }
}

} // verus!
