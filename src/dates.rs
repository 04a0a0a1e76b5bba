//! Calendar values of dBase tables: dates and date-times, and their day and
//! second counts since the Unix epoch.

use vstd::prelude::*;

verus! {

/// Whether day, month and year form a date that `dbase::Date::new` accepts
/// and whose day count can be computed (no month of January or February in
/// year zero, where the count would step before year zero).
pub open spec fn valid_date(year: u32, month: u32, day: u32) -> bool {
    &&& year <= 9999
    &&& 1 <= month <= 12
    &&& 1 <= day <= 31
    &&& (year >= 1 || month > 2)
}

/// Whether hours, minutes and seconds form a time that `dbase::Time::new`
/// accepts.
pub open spec fn valid_time(hours: u32, minutes: u32, seconds: u32) -> bool {
    hours <= 24 && minutes <= 60 && seconds <= 60
}

/// Number of days from 1970-01-01 to the given date: its Julian day number,
/// counted with March as the first month of the year, less that of the epoch.
pub open spec fn days_since_epoch(year: int, month: int, day: int) -> int {
    let m = if month > 2 { month - 3 } else { month + 9 };
    let y = if month > 2 { year } else { year - 1 };
    let century = y / 100;
    let rest = y - 100 * century;
    (146097 * century) / 4 + (1461 * rest) / 4 + (153 * m + 2) / 5 + day + 1721119 - 2440588
}

/// Number of seconds from the epoch to the given day and time of day.
pub open spec fn seconds_since_epoch(days: int, hours: int, minutes: int, seconds: int) -> int {
    days * 86400 + hours * 3600 + minutes * 60 + seconds
}

/// Relies on `dbase::Date::new`, which accepts the valid dates, and on
/// `dbase::Date::to_unix_days`, which computes the Julian day number as
/// `days_since_epoch` writes it and subtracts that of 1970-01-01.
#[verifier::external_body]
fn dbase_unix_days(year: u32, month: u32, day: u32) -> (r: i32)
    requires
        valid_date(year, month, day),
    ensures
        r as int == days_since_epoch(year as int, month as int, day as int),
{
    dbase::Date::new(day, month, year).unwrap().to_unix_days()
}

/// Relies on `dbase::Date::new` and `dbase::Time::new`, which accept the valid
/// dates and times, and on `dbase::DateTime::to_unix_timestamp`, which adds
/// the seconds of the time of day to 86400 seconds for each day of
/// `dbase::Date::to_unix_days`.
#[verifier::external_body]
fn dbase_unix_timestamp(year: u32, month: u32, day: u32, hours: u32, minutes: u32, seconds: u32) -> (r: i64)
    requires
        valid_date(year, month, day),
        valid_time(hours, minutes, seconds),
    ensures
        r as int == seconds_since_epoch(
            days_since_epoch(year as int, month as int, day as int),
            hours as int,
            minutes as int,
            seconds as int,
        ),
{
    let date = dbase::Date::new(day, month, year).unwrap();
    let time = dbase::Time::new(hours, minutes, seconds).unwrap();
    dbase::DateTime::new(date, time).to_unix_timestamp()
}

/// A calendar date as a dBase table stores it.
#[derive(Clone, Copy, Debug, PartialEq, Eq)]
pub struct Date {
    year: u32,
    month: u32,
    day: u32,
}

impl Date {
    #[verifier::type_invariant]
    spec fn inv(&self) -> bool {
        valid_date(self.year, self.month, self.day)
    }

    pub closed spec fn spec_year(&self) -> u32 {
        self.year
    }

    pub closed spec fn spec_month(&self) -> u32 {
        self.month
    }

    pub closed spec fn spec_day(&self) -> u32 {
        self.day
    }

    /// Days from 1970-01-01 to this date.
    pub open spec fn unix_days(&self) -> int {
        days_since_epoch(self.spec_year() as int, self.spec_month() as int, self.spec_day() as int)
    }

    /// The date of the given day, month and year, if they form a valid date.
    pub fn new(day: u32, month: u32, year: u32) -> (r: Option<Date>)
        ensures
            r is Some <==> valid_date(year, month, day),
            r matches Some(d) ==> d.spec_year() == year && d.spec_month() == month
                && d.spec_day() == day,
    {
        if year <= 9999 && 1 <= month && month <= 12 && 1 <= day && day <= 31 && (year >= 1
            || month > 2) {
            Some(Date { year, month, day })
        } else {
            None
        }
    }

    #[verifier::when_used_as_spec(spec_year)]
    pub fn year(&self) -> (r: u32)
        ensures
            r == self.spec_year(),
    {
        self.year
    }

    #[verifier::when_used_as_spec(spec_month)]
    pub fn month(&self) -> (r: u32)
        ensures
            r == self.spec_month(),
    {
        self.month
    }

    #[verifier::when_used_as_spec(spec_day)]
    pub fn day(&self) -> (r: u32)
        ensures
            r == self.spec_day(),
    {
        self.day
    }

    /// Days from 1970-01-01 to this date.
    pub fn to_unix_days(&self) -> (r: i32)
        ensures
            r as int == self.unix_days(),
    {
        proof {
            use_type_invariant(self);
        }
        dbase_unix_days(self.year, self.month, self.day)
    }
}

/// A date and a time of day, to the second, as a dBase table stores it.
#[derive(Clone, Copy, Debug, PartialEq, Eq)]
pub struct DateTime {
    date: Date,
    hours: u32,
    minutes: u32,
    seconds: u32,
}

impl DateTime {
    #[verifier::type_invariant]
    spec fn inv(&self) -> bool {
        valid_time(self.hours, self.minutes, self.seconds)
    }

    pub closed spec fn spec_date(&self) -> Date {
        self.date
    }

    pub closed spec fn spec_hours(&self) -> u32 {
        self.hours
    }

    pub closed spec fn spec_minutes(&self) -> u32 {
        self.minutes
    }

    pub closed spec fn spec_seconds(&self) -> u32 {
        self.seconds
    }

    /// Seconds from the epoch to this moment.
    pub open spec fn unix_timestamp(&self) -> int {
        seconds_since_epoch(
            self.spec_date().unix_days(),
            self.spec_hours() as int,
            self.spec_minutes() as int,
            self.spec_seconds() as int,
        )
    }

    /// The moment at the given time of day on `date`, if the time is valid.
    pub fn new(date: Date, hours: u32, minutes: u32, seconds: u32) -> (r: Option<DateTime>)
        ensures
            r is Some <==> valid_time(hours, minutes, seconds),
            r matches Some(t) ==> t.spec_date() == date && t.spec_hours() == hours
                && t.spec_minutes() == minutes && t.spec_seconds() == seconds,
    {
        if hours <= 24 && minutes <= 60 && seconds <= 60 {
            Some(DateTime { date, hours, minutes, seconds })
        } else {
            None
        }
    }

    #[verifier::when_used_as_spec(spec_date)]
    pub fn date(&self) -> (r: Date)
        ensures
            r == self.spec_date(),
    {
        self.date
    }

    #[verifier::when_used_as_spec(spec_hours)]
    pub fn hours(&self) -> (r: u32)
        ensures
            r == self.spec_hours(),
    {
        self.hours
    }

    #[verifier::when_used_as_spec(spec_minutes)]
    pub fn minutes(&self) -> (r: u32)
        ensures
            r == self.spec_minutes(),
    {
        self.minutes
    }

    #[verifier::when_used_as_spec(spec_seconds)]
    pub fn seconds(&self) -> (r: u32)
        ensures
            r == self.spec_seconds(),
    {
        self.seconds
    }

    /// Seconds from the epoch to this moment.
    pub fn to_unix_timestamp(&self) -> (r: i64)
        ensures
            r as int == self.unix_timestamp(),
    {
        proof {
            use_type_invariant(self);
            use_type_invariant(&self.date);
        }
        dbase_unix_timestamp(
            self.date.year,
            self.date.month,
            self.date.day,
            self.hours,
            self.minutes,
            self.seconds,
        )
    }
}

} // verus!
