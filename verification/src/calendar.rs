//! Calendar dates and instants, as plain numbers.

use vstd::prelude::*;

verus! {

/// Whether `year` is a leap year of the proleptic Gregorian calendar.
pub open spec fn is_leap_year(year: int) -> bool {
    year % 4 == 0 && (year % 100 != 0 || year % 400 == 0)
}

/// The number of days of `month` (1 to 12) in `year`; 0 for any other month.
pub open spec fn days_in_month(year: int, month: int) -> int {
    if month == 2 {
        if is_leap_year(year) {
            29
        } else {
            28
        }
    } else if month == 4 || month == 6 || month == 9 || month == 11 {
        30
    } else if 1 <= month <= 12 {
        31
    } else {
        0
    }
}

/// Whether year, month and day name a day of the proleptic Gregorian
/// calendar between the years -9999 and 9999.
pub open spec fn is_calendar_date(year: int, month: int, day: int) -> bool {
    &&& -9999 <= year <= 9999
    &&& 1 <= month <= 12
    &&& 1 <= day <= days_in_month(year, month)
}

/// A calendar date without a time of day.
#[derive(Clone, Copy, Debug, PartialEq, Eq, Hash, Structural)]
pub struct CalendarDate {
    year: i32,
    month: u8,
    day: u8,
}

impl CalendarDate {
    pub closed spec fn spec_year(self) -> int {
        self.year as int
    }

    pub closed spec fn spec_month(self) -> int {
        self.month as int
    }

    pub closed spec fn spec_day(self) -> int {
        self.day as int
    }

    /// The date names a real day.
    pub open spec fn wf(self) -> bool {
        is_calendar_date(self.spec_year(), self.spec_month(), self.spec_day())
    }

    /// The date of the given year, month (1 to 12) and day of the month, or
    /// `None` where the calendar has no such day.
    pub fn new(year: i32, month: u8, day: u8) -> (date: Option<CalendarDate>)
        ensures
            date is Some <==> is_calendar_date(year as int, month as int, day as int),
            date matches Some(d) ==> d.wf() && d.spec_year() == year && d.spec_month() == month
                && d.spec_day() == day,
    {
        if year < -9999 || year > 9999 || month < 1 || month > 12 || day < 1 {
            return None;
        }
        let leap = year % 4 == 0 && (year % 100 != 0 || year % 400 == 0);
        let last: u8 = if month == 2 {
            if leap {
                29
            } else {
                28
            }
        } else if month == 4 || month == 6 || month == 9 || month == 11 {
            30
        } else {
            31
        };
        if day > last {
            None
        } else {
            Some(CalendarDate { year, month, day })
        }
    }

    pub fn year(&self) -> (year: i32)
        ensures
            year == self.spec_year(),
    {
        self.year
    }

    pub fn month(&self) -> (month: u8)
        ensures
            month == self.spec_month(),
    {
        self.month
    }

    pub fn day(&self) -> (day: u8)
        ensures
            day == self.spec_day(),
    {
        self.day
    }
}

/// Two dates with the same year, month and day are the same date.
pub proof fn law_date_is_its_components(a: CalendarDate, b: CalendarDate)
    requires
        a.spec_year() == b.spec_year(),
        a.spec_month() == b.spec_month(),
        a.spec_day() == b.spec_day(),
    ensures
        a == b,
{
}

/// Nanoseconds in one second.
pub const NANOS_PER_SECOND: i128 = 1_000_000_000;

/// Nanoseconds in one day of 86 400 seconds.
pub const NANOS_PER_DAY: i128 = 86_400 * NANOS_PER_SECOND;

/// An instant, counted in nanoseconds from 1970-01-01T00:00:00 UTC.
#[derive(Clone, Copy, Debug, PartialEq, Eq, Hash, Structural)]
pub struct Timestamp {
    pub unix_nanos: i128,
}

impl Timestamp {
    /// The instant's whole seconds since the epoch fit a signed 64-bit count.
    pub open spec fn has_64_bit_seconds(self) -> bool {
        i64::MIN * NANOS_PER_SECOND <= self.unix_nanos <= i64::MAX * NANOS_PER_SECOND + (
        NANOS_PER_SECOND - 1)
    }

    /// The instant `days` whole days after this one.
    pub open spec fn spec_plus_days(self, days: int) -> int {
        self.unix_nanos + days * NANOS_PER_DAY
    }

    pub fn from_unix_nanos(unix_nanos: i128) -> (at: Timestamp)
        ensures
            at.unix_nanos == unix_nanos,
    {
        Timestamp { unix_nanos }
    }

    /// The instant `days` whole days later.
    pub fn plus_days(&self, days: u16) -> (later: Timestamp)
        requires
            self.spec_plus_days(days as int) <= i128::MAX,
        ensures
            later.unix_nanos == self.spec_plus_days(days as int),
    {
        let span: i128 = (days as i128) * NANOS_PER_DAY;
        Timestamp { unix_nanos: self.unix_nanos + span }
    }

    /// As `plus_days`, for any instant: `None` where the later instant is
    /// beyond what 128 bits count.
    pub fn checked_plus_days(&self, days: u16) -> (later: Option<Timestamp>)
        ensures
            later is Some <==> self.spec_plus_days(days as int) <= i128::MAX,
            later matches Some(t) ==> t.unix_nanos == self.spec_plus_days(days as int),
    {
        let span: i128 = (days as i128) * NANOS_PER_DAY;
        if self.unix_nanos <= i128::MAX - span {
            Some(self.plus_days(days))
        } else {
            None
        }
    }
}

/// Calls `time::OffsetDateTime::now_utc` and reads the result with
/// `OffsetDateTime::unix_timestamp_nanos`.
///
/// Trusted: that reading is a signed 64-bit count of seconds times 10^9 plus
/// a nanosecond of the second, so it lies in the range stated. Nothing is
/// claimed of which instant the clock shows.
#[verifier::external_body]
pub(crate) fn now_utc() -> (at: Timestamp)
    ensures
        at.has_64_bit_seconds(),
{
    Timestamp { unix_nanos: time::OffsetDateTime::now_utc().unix_timestamp_nanos() }
}

} // verus!
