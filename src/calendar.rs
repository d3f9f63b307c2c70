//! Calendar dates and times of day, held as plain numbers, and their text forms.

use chrono::{Datelike, TimeZone, Timelike};
use vstd::prelude::*;

use crate::text::{four_digits, two_digits};

verus! {

/// Whether `year` is a leap year of the proleptic Gregorian calendar.
pub open spec fn is_leap_year(year: int) -> bool {
    (year % 4 == 0 && year % 100 != 0) || year % 400 == 0
}

/// The number of days of `month` (1 to 12) in `year`.
pub open spec fn days_in_month(year: int, month: int) -> int {
    if month == 2 {
        if is_leap_year(year) {
            29
        } else {
            28
        }
    } else if month == 4 || month == 6 || month == 9 || month == 11 {
        30
    } else {
        31
    }
}

/// Whether the numbers name a day of the Gregorian calendar with a four-digit year.
pub open spec fn is_valid_date(year: int, month: int, day: int) -> bool {
    &&& 0 <= year <= 9999
    &&& 1 <= month <= 12
    &&& 1 <= day <= days_in_month(year, month)
}

/// A calendar day.
#[derive(Clone, Copy, Debug, PartialEq, Eq)]
pub struct Date {
    pub year: i32,
    pub month: u32,
    pub day: u32,
}

/// A calendar day with a time of day to the second.
#[derive(Clone, Copy, Debug, PartialEq, Eq)]
pub struct DateTime {
    pub date: Date,
    pub hour: u32,
    pub minute: u32,
    pub second: u32,
}

impl Date {
    pub open spec fn wf(&self) -> bool {
        is_valid_date(self.year as int, self.month as int, self.day as int)
    }

    /// The day `year`-`month`-`day`, if it exists and its year has four digits.
    pub fn new(year: i32, month: u32, day: u32) -> (r: Option<Date>)
        ensures
            r is Some <==> is_valid_date(year as int, month as int, day as int),
            r matches Some(d) ==> d.year == year && d.month == month && d.day == day,
    {
        if year < 0 || year > 9999 || month < 1 || month > 12 || day < 1 {
            return None;
        }
        let leap = (year % 4 == 0 && year % 100 != 0) || year % 400 == 0;
        let days: u32 = if month == 2 {
            if leap {
                29
            } else {
                28
            }
        } else if month == 4 || month == 6 || month == 9 || month == 11 {
            30
        } else {
            31
        };
        if day > days {
            None
        } else {
            Some(Date { year, month, day })
        }
    }
}

impl DateTime {
    pub open spec fn wf(&self) -> bool {
        &&& self.date.wf()
        &&& self.hour < 24
        &&& self.minute < 60
        &&& self.second < 60
    }

    /// The given day at `hour`:`minute`:`second`, if all of them are in range.
    pub fn new(date: Date, hour: u32, minute: u32, second: u32) -> (r: Option<DateTime>)
        ensures
            r is Some <==> date.wf() && hour < 24 && minute < 60 && second < 60,
            r matches Some(t) ==> t.date == date && t.hour == hour && t.minute == minute
                && t.second == second,
    {
        match Date::new(date.year, date.month, date.day) {
            Some(_) => {
                if hour < 24 && minute < 60 && second < 60 {
                    Some(DateTime { date, hour, minute, second })
                } else {
                    None
                }
            },
            None => None,
        }
    }
}

/// ISO 8601 calendar date: `YYYY-MM-DD`.
pub open spec fn iso_date_text(d: Date) -> Seq<char> {
    four_digits(d.year as nat) + seq!['-'] + two_digits(d.month as nat) + seq!['-'] + two_digits(
        d.day as nat,
    )
}

/// The POSIX locale's short date: `MM/DD/YY`, the year reduced modulo 100.
pub open spec fn posix_short_date_text(d: Date) -> Seq<char> {
    two_digits(d.month as nat) + seq!['/'] + two_digits(d.day as nat) + seq!['/'] + two_digits(
        (d.year % 100) as nat,
    )
}

/// RFC 3339 timestamp in UTC to the second: `YYYY-MM-DDTHH:MM:SSZ`.
pub open spec fn rfc3339_utc_text(t: DateTime) -> Seq<char> {
    iso_date_text(t.date) + seq!['T'] + two_digits(t.hour as nat) + seq![':'] + two_digits(
        t.minute as nat,
    ) + seq![':'] + two_digits(t.second as nat) + seq!['Z']
}

/// Relies on chrono's `Display` for `NaiveDate`, which writes a year of 0 to 9999
/// with four digits, then the month and the day with two, joined by `-`.
#[verifier::external_body]
pub(crate) fn format_iso_date(d: &Date) -> (r: String)
    requires
        d.wf(),
    ensures
        r@ == iso_date_text(*d),
{
    chrono::NaiveDate::from_ymd_opt(d.year, d.month, d.day).unwrap().to_string()
}

/// Relies on chrono's `%x` in `Locale::POSIX`, which is `%m/%d/%y`: month, day and
/// the year modulo 100, each with two digits.
#[verifier::external_body]
pub(crate) fn format_posix_short_date(d: &Date) -> (r: String)
    requires
        d.wf(),
    ensures
        r@ == posix_short_date_text(*d),
{
    let items = chrono::format::StrftimeItems::new_with_locale("%x", chrono::Locale::POSIX);
    chrono::NaiveDate::from_ymd_opt(d.year, d.month, d.day).unwrap().format_with_items(
        items,
    ).to_string()
}

/// Relies on chrono's `DateTime::<Utc>::to_rfc3339_opts` with whole seconds and `Z`
/// for the zero offset.
#[verifier::external_body]
pub(crate) fn format_rfc3339_utc(t: &DateTime) -> (r: String)
    requires
        t.wf(),
    ensures
        r@ == rfc3339_utc_text(*t),
{
    let d = &t.date;
    chrono::Utc.with_ymd_and_hms(d.year, d.month, d.day, t.hour, t.minute, t.second).unwrap()
        .to_rfc3339_opts(chrono::SecondsFormat::Secs, true)
}

/// Relies on chrono's `From<SystemTime>` for `DateTime<Utc>`, which also takes a
/// system clock set before 1970: a valid day of the calendar (any year) and a time
/// whose hour, minute and second are in their usual ranges (a leap second shows
/// in the nanoseconds, not the second).
#[verifier::external_body]
fn utc_now_fields() -> (r: (i32, u32, u32, u32, u32, u32))
    ensures
        1 <= r.1 <= 12,
        1 <= r.2 <= days_in_month(r.0 as int, r.1 as int),
        r.3 < 24,
        r.4 < 60,
        r.5 < 60,
{
    let now = chrono::DateTime::<chrono::Utc>::from(std::time::SystemTime::now());
    (now.year(), now.month(), now.day(), now.hour(), now.minute(), now.second())
}

/// The present moment in UTC, or `None` where the clock's year has not four digits.
pub fn utc_now() -> (r: Option<DateTime>)
    ensures
        r matches Some(t) ==> t.wf(),
{
    let (year, month, day, hour, minute, second) = utc_now_fields();
    match Date::new(year, month, day) {
        Some(date) => DateTime::new(date, hour, minute, second),
        None => None,
    }
}

} // verus!
