//! A UTC instant held as plain calendar fields, rendered in the RFC 3339
//! form `YYYY-MM-DDTHH:MM:SSZ` that the service accepts for its time-range
//! bounds, and conversion from the instants the chrono crate produces.

use vstd::prelude::*;
use crate::render::{pad2, pad4, push_pad2, push_pad4, push_char};

verus! {

/// An instant in UTC, as plain calendar fields.
#[derive(Debug, Clone, Copy, PartialEq, Eq, Structural)]
pub struct Timestamp {
    pub year: u16,
    pub month: u8,
    pub day: u8,
    pub hour: u8,
    pub minute: u8,
    pub second: u8,
}

impl Timestamp {
    /// The calendar fields lie in their RFC 3339 ranges.
    pub open spec fn wf(self) -> bool {
        &&& self.year <= 9999
        &&& 1 <= self.month <= 12
        &&& 1 <= self.day <= 31
        &&& self.hour < 24
        &&& self.minute < 60
        &&& self.second < 60
    }

    /// The RFC 3339 rendering of the fields: `YYYY-MM-DDTHH:MM:SSZ`.
    pub open spec fn rfc3339(self) -> Seq<char> {
        pad4(self.year as nat) + "-"@ + pad2(self.month as nat) + "-"@ + pad2(self.day as nat)
            + "T"@ + pad2(self.hour as nat) + ":"@ + pad2(self.minute as nat) + ":"@ + pad2(
            self.second as nat,
        ) + "Z"@
    }

    /// Builds a timestamp, validating the field ranges.
    pub fn new(year: u16, month: u8, day: u8, hour: u8, minute: u8, second: u8) -> (r: Option<
        Timestamp,
    >)
        ensures
            match r {
                Some(t) => t == (Timestamp { year, month, day, hour, minute, second }) && t.wf(),
                None => !(Timestamp { year, month, day, hour, minute, second }).wf(),
            },
    {
        if year <= 9999 && 1 <= month && month <= 12 && 1 <= day && day <= 31 && hour < 24
            && minute < 60 && second < 60 {
            Some(Timestamp { year, month, day, hour, minute, second })
        } else {
            None
        }
    }
}

impl crate::params::Render for Timestamp {
    open spec fn rendered(&self) -> Seq<char> {
        self.rfc3339()
    }

    fn render(&self) -> (s: String) {
        let mut s = String::new();
        push_pad4(&mut s, self.year);
        push_char(&mut s, '-');
        push_pad2(&mut s, self.month);
        push_char(&mut s, '-');
        push_pad2(&mut s, self.day);
        push_char(&mut s, 'T');
        push_pad2(&mut s, self.hour);
        push_char(&mut s, ':');
        push_pad2(&mut s, self.minute);
        push_char(&mut s, ':');
        push_pad2(&mut s, self.second);
        push_char(&mut s, 'Z');
        proof {
            reveal_strlit("-");
            reveal_strlit("T");
            reveal_strlit(":");
            reveal_strlit("Z");
            assert(s@ =~= self.rfc3339());
        }
        s
    }
}

#[verifier::external_type_specification]
#[verifier::external_body]
pub struct ExNaiveDateTime(chrono::NaiveDateTime);

/// The calendar year of an instant, as chrono computes it.
pub uninterp spec fn year_of(dt: chrono::NaiveDateTime) -> int;

/// The month number of an instant, as chrono computes it.
pub uninterp spec fn month_of(dt: chrono::NaiveDateTime) -> int;

/// The day of month of an instant, as chrono computes it.
pub uninterp spec fn day_of(dt: chrono::NaiveDateTime) -> int;

/// The hour number of an instant, as chrono computes it.
pub uninterp spec fn hour_of(dt: chrono::NaiveDateTime) -> int;

/// The minute number of an instant, as chrono computes it.
pub uninterp spec fn minute_of(dt: chrono::NaiveDateTime) -> int;

/// The second number of an instant, as chrono computes it.
pub uninterp spec fn second_of(dt: chrono::NaiveDateTime) -> int;

/// Relies on chrono's `Datelike::year`: the calendar year of the instant,
/// a function of the instant alone, which chrono does not bound.
#[verifier::external_body]
fn utc_year(dt: &chrono::NaiveDateTime) -> (r: i32)
    ensures
        r as int == year_of(*dt),
{
    chrono::Datelike::year(dt)
}

/// Relies on chrono's `Datelike::month`: the month number, 1 to 12, a
/// function of the instant alone.
#[verifier::external_body]
fn utc_month(dt: &chrono::NaiveDateTime) -> (r: u32)
    ensures
        1 <= r <= 12,
        r as int == month_of(*dt),
{
    chrono::Datelike::month(dt)
}

/// Relies on chrono's `Datelike::day`: the day of month, 1 to 31, a
/// function of the instant alone.
#[verifier::external_body]
fn utc_day(dt: &chrono::NaiveDateTime) -> (r: u32)
    ensures
        1 <= r <= 31,
        r as int == day_of(*dt),
{
    chrono::Datelike::day(dt)
}

/// Relies on chrono's `Timelike::hour`: the hour number, 0 to 23, a
/// function of the instant alone.
#[verifier::external_body]
fn utc_hour(dt: &chrono::NaiveDateTime) -> (r: u32)
    ensures
        r < 24,
        r as int == hour_of(*dt),
{
    chrono::Timelike::hour(dt)
}

/// Relies on chrono's `Timelike::minute`: the minute number, 0 to 59, a
/// function of the instant alone.
#[verifier::external_body]
fn utc_minute(dt: &chrono::NaiveDateTime) -> (r: u32)
    ensures
        r < 60,
        r as int == minute_of(*dt),
{
    chrono::Timelike::minute(dt)
}

/// Relies on chrono's `Timelike::second`: the second number, 0 to 59, a
/// function of the instant alone (a leap second lives in the nanosecond
/// field).
#[verifier::external_body]
fn utc_second(dt: &chrono::NaiveDateTime) -> (r: u32)
    ensures
        r < 60,
        r as int == second_of(*dt),
{
    chrono::Timelike::second(dt)
}

/// Converts an instant held by chrono (as a naive date-time already in
/// UTC, e.g. from `DateTime::naive_utc`) into the library's plain
/// calendar form.  `None` exactly when the instant's year does not fit
/// the four rendered digits; otherwise the fields are the instant's own
/// calendar fields and the timestamp is well-formed.
pub fn from_naive_utc(dt: &chrono::NaiveDateTime) -> (r: Option<Timestamp>)
    ensures
        r is Some <==> 0 <= year_of(*dt) <= 9999,
        r matches Some(t) ==> {
            &&& t.year as int == year_of(*dt)
            &&& t.month as int == month_of(*dt)
            &&& t.day as int == day_of(*dt)
            &&& t.hour as int == hour_of(*dt)
            &&& t.minute as int == minute_of(*dt)
            &&& t.second as int == second_of(*dt)
            &&& t.wf()
        },
{
    let year = utc_year(dt);
    if year < 0 || year > 9999 {
        None
    } else {
        Some(
            Timestamp {
                year: year as u16,
                month: utc_month(dt) as u8,
                day: utc_day(dt) as u8,
                hour: utc_hour(dt) as u8,
                minute: utc_minute(dt) as u8,
                second: utc_second(dt) as u8,
            },
        )
    }
}

} // verus!
