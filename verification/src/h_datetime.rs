//! The Haystack date-time value: a date, a time of day and a time zone.
use vstd::prelude::*;
use chrono::TimeZone;
use chrono_tz::OffsetComponents;
use crate::text::{push_char, push_decimal, decimal, to_owned_string};
use crate::h_date::{HDate, valid_ymd};
use crate::h_time::{HTime, valid_hmsn, hms_zinc, push_hms};
use crate::h_val::{HType, HVal, HBox};

verus! {

/// A time zone of the IANA database (`chrono_tz::Tz`).
#[verifier::external_type_specification]
#[verifier::external_body]
pub struct ExTz(chrono_tz::Tz);

/// A fixed offset from UTC (`chrono::FixedOffset`).
#[verifier::external_type_specification]
#[verifier::external_body]
pub struct ExFixedOffset(chrono::FixedOffset);

/// A date and time without a zone (`chrono::NaiveDateTime`).
#[verifier::external_type_specification]
#[verifier::external_body]
pub struct ExNaiveDateTime(chrono::NaiveDateTime);

/// The error of parsing a time zone name (`chrono_tz::ParseError`).
#[verifier::external_type_specification]
#[verifier::external_body]
pub struct ExTzParseError(chrono_tz::ParseError);

/// `chrono_tz::Tz::UTC`, whose name is `UTC`.
#[verifier::external_body]
fn tz_utc() -> (r: chrono_tz::Tz)
    ensures
        tz_name_of(r) == "UTC"@,
{
    chrono_tz::Tz::UTC
}

/// The IANA name of a zone, as the zone database compiled into chrono-tz has it.
pub uninterp spec fn tz_name_of(tz: chrono_tz::Tz) -> Seq<char>;

/// `chrono_tz::Tz::name`: the IANA name of the zone. The claim is that the
/// text is a function of the zone alone, named `tz_name_of`.
#[verifier::external_body]
fn tz_name(tz: chrono_tz::Tz) -> (r: &'static str)
    ensures
        r@ == tz_name_of(tz),
{
    tz.name()
}

/// The number of seconds east of UTC that a fixed offset stands for.
pub uninterp spec fn offset_secs_of(o: chrono::FixedOffset) -> int;

/// `chrono::FixedOffset::east_opt`, which by its source makes an offset of
/// exactly `secs` seconds east of UTC for `-86400 < secs < 86400`.
#[verifier::external_body]
fn fixed_offset(secs: i32) -> (r: chrono::FixedOffset)
    requires
        -86_400 < secs < 86_400,
    ensures
        offset_secs_of(r) == secs,
{
    chrono::FixedOffset::east_opt(secs).unwrap()
}

/// `chrono::FixedOffset::local_minus_utc`, the offset in seconds, which by
/// the type's construction lies strictly between -86400 and 86400.
#[verifier::external_body]
fn offset_seconds(o: &chrono::FixedOffset) -> (r: i32)
    ensures
        r == offset_secs_of(*o),
        -86_400 < r < 86_400,
{
    o.local_minus_utc()
}

/// The date and time without a zone that chrono makes of a date and a time of day.
pub uninterp spec fn naive_date_time_of(y: int, mo: int, d: int, h: int, mi: int, s: int, n: int) -> chrono::NaiveDateTime;

/// `chrono::NaiveDate::from_ymd_opt(..).and_hms_nano_opt(..)` for a valid date
/// and time, which by chrono's documentation then succeeds. The claim is that
/// the value made is a function of the parts alone, named `naive_date_time_of`.
#[verifier::external_body]
fn naive_date_time(y: i32, mo: u32, d: u32, h: u32, mi: u32, s: u32, n: u32) -> (r: chrono::NaiveDateTime)
    requires
        valid_ymd(y as int, mo as int, d as int),
        valid_hmsn(h as int, mi as int, s as int, n as int),
    ensures
        r == naive_date_time_of(y as int, mo as int, d as int, h as int, mi as int, s as int, n as int),
{
    chrono::NaiveDate::from_ymd_opt(y, mo, d).unwrap().and_hms_nano_opt(h, mi, s, n).unwrap()
}

/// The daylight-saving part, in seconds, of a zone's offset at a local date
/// and time that maps to exactly one instant, and `None` where it maps to none
/// or two, as the zone database compiled into chrono-tz has it.
pub uninterp spec fn local_dst_of(tz: chrono_tz::Tz, y: int, mo: int, d: int, h: int, mi: int, s: int, n: int) -> Option<i64>;

/// The daylight-saving part of the zone's offset at a local date and time, in
/// seconds, where the local time maps to exactly one instant
/// (`Tz::from_local_datetime` gives `LocalResult::Single`), and `None` where it
/// maps to none or two. The claim is that the outcome is a function of the
/// zone and the local date and time alone, named `local_dst_of`.
#[verifier::external_body]
fn local_dst_seconds(tz: chrono_tz::Tz, y: i32, mo: u32, d: u32, h: u32, mi: u32, s: u32, n: u32) -> (r: Option<i64>)
    requires
        valid_ymd(y as int, mo as int, d as int),
        valid_hmsn(h as int, mi as int, s as int, n as int),
    ensures
        r == local_dst_of(tz, y as int, mo as int, d as int, h as int, mi as int, s as int, n as int),
{
    let local = chrono::NaiveDate::from_ymd_opt(y, mo, d).unwrap().and_hms_nano_opt(h, mi, s, n).unwrap();
    match tz.from_local_datetime(&local) {
        chrono::offset::LocalResult::Single(one) => Some(one.offset().dst_offset().num_seconds()),
        _ => None,
    }
}

/// Whether daylight saving applies, from the daylight-saving part of the
/// offset where the local time maps to one instant: where it is not zero, and
/// where the local time maps to no instant or to two.
pub open spec fn dst_from(dst: Option<i64>) -> bool {
    match dst {
        Some(secs) => secs != 0,
        None => true,
    }
}

/// Whether daylight saving applies, from the daylight-saving part of the
/// offset where the local time maps to one instant (see `dst_from`).
pub fn dst_flag(dst: Option<i64>) -> (r: bool)
    ensures
        r == dst_from(dst),
{
    match dst {
        Some(secs) => secs != 0,
        None => true,
    }
}

/// Whether `name` names a zone of the database that chrono-tz holds.
pub uninterp spec fn tz_known(name: Seq<char>) -> bool;

/// `chrono_tz::Tz::from_str`: the zone named `name`. The claim is that
/// whether a zone is found depends on the name alone (`tz_known`), and that
/// the zone found is one whose name (`Tz::name`) is `name`: the crate looks
/// the name up in its table, whose every entry is the zone of that name.
#[verifier::external_body]
fn tz_from_name(name: &str) -> (r: Result<chrono_tz::Tz, chrono_tz::ParseError>)
    ensures
        (r is Ok) == tz_known(name@),
        r matches Ok(z) ==> tz_name_of(z) == name@,
{
    <chrono_tz::Tz as core::str::FromStr>::from_str(name)
}

/// A time zone: a fixed offset from UTC in seconds, less than a day either
/// way, and a zone of the IANA database.
#[derive(Clone, Copy, Debug, PartialEq)]
pub struct HTimezone {
    offset: i32,
    id: chrono_tz::Tz,
}

/// Whether `secs` seconds is an offset that a `chrono::FixedOffset` can hold:
/// less than a day either way.
pub open spec fn offset_in_range(secs: int) -> bool {
    -86_400 < secs < 86_400
}

impl HTimezone {
    /// The offset lies within a day of UTC.
    #[verifier::type_invariant]
    spec fn offset_fits(self) -> bool {
        offset_in_range(self.offset as int)
    }

    /// The offset from UTC in seconds.
    pub closed spec fn offset_spec(&self) -> int {
        self.offset as int
    }

    /// The zone.
    pub closed spec fn id_spec(&self) -> chrono_tz::Tz {
        self.id
    }

    /// The offset from UTC in seconds.
    pub fn offset_secs(&self) -> (r: i32)
        ensures
            r == self.offset_spec(),
            offset_in_range(r as int),
    {
        proof {
            use_type_invariant(self);
        }
        self.offset
    }

    /// UTC with no offset.
    pub fn utc() -> (r: Self)
        ensures
            r.offset_spec() == 0,
            tz_name_of(r.id_spec()) == "UTC"@,
    {
        HTimezone { offset: 0, id: tz_utc() }
    }

    /// The zone named `name` with an offset of `offset` seconds, if the
    /// database knows the name and the offset is less than a day.
    pub fn named(name: &str, offset: i32) -> (r: Option<Self>)
        ensures
            (r is Some) == (tz_known(name@) && offset_in_range(offset as int)),
            r matches Some(z) ==> z.offset_spec() == offset && tz_name_of(z.id_spec()) == name@,
    {
        if offset <= -86_400 || offset >= 86_400 {
            return None;
        }
        match tz_from_name(name) {
            Ok(id) => Some(HTimezone { offset, id }),
            Err(_) => None,
        }
    }

    /// The IANA name of the zone (its display text).
    pub fn to_string(&self) -> (r: String)
        ensures
            r@ == tz_name_of(self.id_spec()),
    {
        to_owned_string(tz_name(self.id))
    }
}

impl Default for HTimezone {
    /// UTC with no offset.
    fn default() -> (r: Self)
        ensures
            r.offset_spec() == 0,
            tz_name_of(r.id_spec()) == "UTC"@,
    {
        HTimezone { offset: 0, id: tz_utc() }
    }
}

/// Turns a pair of an offset and a zone into a Haystack time zone.
pub trait IntoTimezone {
    fn into_timezone(self) -> HTimezone;
}

impl IntoTimezone for (chrono::FixedOffset, chrono_tz::Tz) {
    /// The time zone with this offset and zone.
    fn into_timezone(self) -> (r: HTimezone)
        ensures
            r.id_spec() == self.1,
            r.offset_spec() == offset_secs_of(self.0),
    {
        let secs = offset_seconds(&self.0);
        HTimezone { offset: secs, id: self.1 }
    }
}

/// Why a date-time could not be made.
#[derive(Debug)]
pub enum TZError {
    InvalidFormat,
    UnknownTimezone,
    ParseError(chrono_tz::ParseError),
    Nonexistent,
    DateConstruction,
    TimeConstruction,
}

/// The Zinc text of a date-time: the date, `T`, `hh:mm:ss`, `.` and the
/// nanoseconds in decimal without padding.
pub open spec fn date_time_zinc(d: HDate, t: HTime) -> Seq<char> {
    d.zinc() + seq!['T'] + hms_zinc(t.hour_spec(), t.minute_spec(), t.second_spec()) + seq!['.']
        + decimal(t.nano_spec() as nat)
}

/// A date and time of day in a time zone.
#[derive(Clone, Copy, Debug, PartialEq)]
pub struct HDateTime {
    date: HDate,
    time: HTime,
    tz: HTimezone,
}

/// The date-time type under its short name.
pub type DateTime = HDateTime;

impl HDateTime {
    /// The date.
    pub closed spec fn date_spec(&self) -> HDate {
        self.date
    }

    /// The time of day.
    pub closed spec fn time_spec(&self) -> HTime {
        self.time
    }

    /// The year, month, day, hour, minute, second and nanosecond.
    pub open spec fn parts(&self) -> (int, int, int, int, int, int, int) {
        (self.date_spec().year_spec(), self.date_spec().month_spec(), self.date_spec().day_spec(),
            self.time_spec().hour_spec(), self.time_spec().minute_spec(), self.time_spec().second_spec(),
            self.time_spec().nano_spec())
    }

    /// The time zone.
    pub closed spec fn tz_spec(&self) -> HTimezone {
        self.tz
    }

    /// The Zinc text.
    pub open spec fn zinc(&self) -> Seq<char> {
        date_time_zinc(self.date_spec(), self.time_spec())
    }

    /// The JSON text: `t:` and the Zinc text.
    pub open spec fn json(&self) -> Seq<char> {
        seq!['t', ':'] + self.zinc()
    }

    /// The date-time from its parts; fails with `DateConstruction` where the
    /// date does not exist, and else with `TimeConstruction` where the time does not.
    pub fn new(
        year: i32,
        month: u32,
        day: u32,
        hour: u32,
        min: u32,
        sec: u32,
        nano: u32,
        tz: HTimezone,
    ) -> (r: Result<Self, TZError>)
        ensures
            (r is Ok) == (valid_ymd(year as int, month as int, day as int) && valid_hmsn(
                hour as int,
                min as int,
                sec as int,
                nano as int,
            )),
            !valid_ymd(year as int, month as int, day as int) ==> r matches Err(TZError::DateConstruction),
            valid_ymd(year as int, month as int, day as int) && !valid_hmsn(hour as int, min as int, sec as int, nano as int)
                ==> r matches Err(TZError::TimeConstruction),
            r matches Ok(dt) ==> dt.parts() == (year as int, month as int, day as int, hour as int,
                min as int, sec as int, nano as int) && dt.tz_spec() == tz,
    {
        match HDate::new(year, month, day) {
            Err(_) => Err(TZError::DateConstruction),
            Ok(date) => match HTime::new(hour, min, sec, nano) {
                Err(_) => Err(TZError::TimeConstruction),
                Ok(time) => Ok(HDateTime { date, time, tz }),
            },
        }
    }

    /// The date and time without the zone.
    pub fn val(&self) -> (r: chrono::NaiveDateTime)
        ensures
            r == naive_date_time_of(self.parts().0, self.parts().1, self.parts().2, self.parts().3,
                self.parts().4, self.parts().5, self.parts().6),
    {
        naive_date_time(
            self.date.year(),
            self.date.month(),
            self.date.day(),
            self.time.hour(),
            self.time.minute(),
            self.time.second(),
            self.time.nanosecond(),
        )
    }

    /// The date.
    pub fn date(&self) -> (r: HDate)
        ensures
            r == self.date_spec(),
    {
        self.date
    }

    /// The time of day.
    pub fn time(&self) -> (r: HTime)
        ensures
            r == self.time_spec(),
    {
        self.time
    }

    /// The year.
    pub fn year(&self) -> (r: i32)
        ensures
            r == self.parts().0,
    {
        self.date.year()
    }

    /// The month.
    pub fn month(&self) -> (r: u32)
        ensures
            r == self.parts().1,
    {
        self.date.month()
    }

    /// The day of the month.
    pub fn day(&self) -> (r: u32)
        ensures
            r == self.parts().2,
    {
        self.date.day()
    }

    /// The hour.
    pub fn hour(&self) -> (r: u32)
        ensures
            r == self.parts().3,
    {
        self.time.hour()
    }

    /// The minute.
    pub fn minute(&self) -> (r: u32)
        ensures
            r == self.parts().4,
    {
        self.time.minute()
    }

    /// The second.
    pub fn second(&self) -> (r: u32)
        ensures
            r == self.parts().5,
    {
        self.time.second()
    }

    /// The nanosecond.
    pub fn nanosecond(&self) -> (r: u32)
        ensures
            r == self.parts().6,
    {
        self.time.nanosecond()
    }

    /// Whether daylight saving applies at this local time in its zone; a local
    /// time that the zone maps to no instant or to two counts as daylight saving.
    pub fn is_dst(&self) -> (r: bool)
        ensures
            r == dst_from(local_dst_of(self.tz_spec().id_spec(), self.parts().0, self.parts().1,
                self.parts().2, self.parts().3, self.parts().4, self.parts().5, self.parts().6)),
    {
        let dst = local_dst_seconds(
            self.tz.id,
            self.date.year(),
            self.date.month(),
            self.date.day(),
            self.time.hour(),
            self.time.minute(),
            self.time.second(),
            self.time.nanosecond(),
        );
        dst_flag(dst)
    }

    /// The time zone.
    pub fn tz(&self) -> (r: &HTimezone)
        ensures
            *r == self.tz_spec(),
    {
        &self.tz
    }

    /// The zone of the time zone.
    pub fn tz_id(&self) -> (r: chrono_tz::Tz)
        ensures
            r == self.tz_spec().id_spec(),
    {
        self.tz.id
    }

    /// The fixed offset of the time zone.
    pub fn offset(&self) -> (r: chrono::FixedOffset)
        ensures
            offset_secs_of(r) == self.tz_spec().offset_spec(),
    {
        proof {
            use_type_invariant(&self.tz);
        }
        fixed_offset(self.tz.offset)
    }

    /// Writes the date, `T`, `hh:mm:ss`, `.` and the nanoseconds.
    pub fn to_zinc(&self, buf: &mut String) -> (r: core::fmt::Result)
        ensures
            r is Ok,
            final(buf)@ == old(buf)@ + self.zinc(),
    {
        let ghost start = buf@;
        let _ = self.date.to_zinc(buf);
        push_char(buf, 'T');
        push_hms(buf, self.time.hour(), self.time.minute(), self.time.second());
        push_char(buf, '.');
        push_decimal(buf, self.time.nanosecond() as u64);
        assert(buf@ == start + self.zinc());
        Ok(())
    }

    /// Writes the Trio text, which is the Zinc text.
    pub fn to_trio(&self, buf: &mut String) -> (r: core::fmt::Result)
        ensures
            r is Ok,
            final(buf)@ == old(buf)@ + self.zinc(),
    {
        self.to_zinc(buf)
    }

    /// Writes `t:` and the Zinc text.
    pub fn to_json(&self, buf: &mut String) -> (r: core::fmt::Result)
        ensures
            r is Ok,
            final(buf)@ == old(buf)@ + self.json(),
    {
        let ghost start = buf@;
        push_char(buf, 't');
        push_char(buf, ':');
        let _ = self.to_zinc(buf);
        assert(buf@ == start + self.json());
        Ok(())
    }

    /// The kind of value: `HType::DateTime`.
    pub fn haystack_type(&self) -> (r: HType)
        ensures
            r == HType::DateTime,
    {
        HType::DateTime
    }

    /// This value as a Haystack value.
    pub fn to_hval<T>(self) -> (r: HVal<T>)
        ensures
            r == HVal::<T>::DateTime(self),
    {
        HVal::DateTime(self)
    }

    /// This value as a shared Haystack value.
    pub fn to_hbox<T>(self) -> (r: HBox<T>)
        ensures
            *r == HVal::<T>::DateTime(self),
    {
        std::rc::Rc::new(HVal::DateTime(self))
    }
}

} // verus!
