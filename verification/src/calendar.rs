//! The Gregorian calendar, counted in days from 1 January 1970.

use vstd::prelude::*;

verus! {

/// The seconds of one day.
pub const SECONDS_PER_DAY: i64 = 86_400;

/// The first year of which a date can be resolved.
pub const FIRST_YEAR: i32 = -262_143;

/// The last year of which a date can be resolved.
pub const LAST_YEAR: i32 = 262_142;

/// Whether a year of the Gregorian calendar has a 29th of February.
pub open spec fn is_leap_year(year: int) -> bool {
    year % 4 == 0 && (year % 100 != 0 || year % 400 == 0)
}

/// The days of a month, which is counted from 1.
pub open spec fn days_in_month(year: int, month: int) -> int {
    if month == 2 {
        if is_leap_year(year) {
            29
        } else {
            28
        }
    } else if month == 4 || month == 6 || month == 9 || month == 11 {
        30
    } else {
        31
    }
}

/// Whether year, month and day name a day of the Gregorian calendar.
pub open spec fn is_date(year: int, month: int, day: int) -> bool {
    1 <= month <= 12 && 1 <= day <= days_in_month(year, month)
}

/// The number of leap years among the years 1 to `year`. Below year 1 it is
/// negative: less the leap years among the years `year + 1` to 0.
pub open spec fn leap_years_through(year: int) -> int {
    year / 4 - year / 100 + year / 400
}

/// The days from 1 January 1970 to 1 January of a year.
pub open spec fn days_before_year(year: int) -> int {
    365 * (year - 1970) + leap_years_through(year - 1) - leap_years_through(1969)
}

/// The days of a year that lie before a month.
pub open spec fn days_before_month(year: int, month: int) -> int
    decreases month,
{
    if month <= 1 {
        0
    } else {
        days_before_month(year, month - 1) + days_in_month(year, month - 1)
    }
}

/// The days from 1 January 1970 to a date: negative for an earlier date.
pub open spec fn day_number(year: int, month: int, day: int) -> int {
    days_before_year(year) + days_before_month(year, month) + day - 1
}

/// The day in which a Unix time lies, counted from 1 January 1970 in UTC.
pub open spec fn day_of_unix_time(seconds: int) -> int {
    seconds / (SECONDS_PER_DAY as int)
}

/// Whether a Unix time lies in a year of which a date can be resolved.
pub open spec fn in_calendar_range(seconds: int) -> bool {
    day_number(FIRST_YEAR as int, 1, 1) <= day_of_unix_time(seconds) <= day_number(
        LAST_YEAR as int,
        12,
        31,
    )
}

/// A date of the Gregorian calendar.
pub struct CalendarDate {
    pub year: int,
    pub month: int,
    pub day: int,
}

impl CalendarDate {
    /// Whether the date exists.
    pub open spec fn valid(self) -> bool {
        is_date(self.year, self.month, self.day)
    }

    /// The days from 1 January 1970 to the date.
    pub open spec fn day_number(self) -> int {
        day_number(self.year, self.month, self.day)
    }
}

/// The date of the day in which a Unix time lies, in UTC.
pub open spec fn utc_date(seconds: int) -> CalendarDate {
    choose|date: CalendarDate| date.valid() && date.day_number() == day_of_unix_time(seconds)
}

/// The days of a year.
pub open spec fn days_in_year(year: int) -> int {
    if is_leap_year(year) {
        366
    } else {
        365
    }
}

/// One year later, the first of January lies a year's days later.
pub proof fn lemma_next_year(year: int)
    ensures
        days_before_year(year + 1) == days_before_year(year) + days_in_year(year),
{
}

/// The first of January of a later year lies later.
pub proof fn lemma_years_in_order(earlier: int, later: int)
    requires
        earlier <= later,
    ensures
        days_before_year(earlier) + 365 * (later - earlier) <= days_before_year(later),
    decreases later - earlier,
{
    if earlier < later {
        lemma_years_in_order(earlier, later - 1);
        lemma_next_year(later - 1);
    }
}

/// The days that lie before each month of a year.
pub proof fn lemma_days_before_month(year: int)
    ensures
        days_before_month(year, 1) == 0,
        days_before_month(year, 2) == 31,
        days_before_month(year, 3) == days_in_year(year) - 306,
        days_before_month(year, 4) == days_in_year(year) - 275,
        days_before_month(year, 5) == days_in_year(year) - 245,
        days_before_month(year, 6) == days_in_year(year) - 214,
        days_before_month(year, 7) == days_in_year(year) - 184,
        days_before_month(year, 8) == days_in_year(year) - 153,
        days_before_month(year, 9) == days_in_year(year) - 122,
        days_before_month(year, 10) == days_in_year(year) - 92,
        days_before_month(year, 11) == days_in_year(year) - 61,
        days_before_month(year, 12) == days_in_year(year) - 31,
{
    reveal_with_fuel(days_before_month, 13);
}

/// A date lies in its year: on or after its first of January, and before the
/// next one.
pub proof fn lemma_date_lies_in_its_year(year: int, month: int, day: int)
    requires
        is_date(year, month, day),
    ensures
        days_before_year(year) <= day_number(year, month, day) < days_before_year(year + 1),
{
    lemma_days_before_month(year);
    lemma_next_year(year);
}

/// The count of days names its date: two dates that are as many days from
/// 1 January 1970 are one date.
pub proof fn law_day_number_names_the_date(a: CalendarDate, b: CalendarDate)
    requires
        a.valid(),
        b.valid(),
        a.day_number() == b.day_number(),
    ensures
        a == b,
{
    lemma_date_lies_in_its_year(a.year, a.month, a.day);
    lemma_date_lies_in_its_year(b.year, b.month, b.day);
    if a.year < b.year {
        lemma_years_in_order(a.year + 1, b.year);
    }
    if b.year < a.year {
        lemma_years_in_order(b.year + 1, a.year);
    }
    assert(a.year == b.year);
    lemma_days_before_month(a.year);
}

/// The day after a date.
pub open spec fn next_day(date: CalendarDate) -> CalendarDate {
    if date.day < days_in_month(date.year, date.month) {
        CalendarDate { day: date.day + 1, ..date }
    } else if date.month < 12 {
        CalendarDate { month: date.month + 1, day: 1, ..date }
    } else {
        CalendarDate { year: date.year + 1, month: 1, day: 1 }
    }
}

/// The day before a date.
pub open spec fn previous_day(date: CalendarDate) -> CalendarDate {
    if date.day > 1 {
        CalendarDate { day: date.day - 1, ..date }
    } else if date.month > 1 {
        CalendarDate { month: date.month - 1, day: days_in_month(date.year, date.month - 1), ..date }
    } else {
        CalendarDate { year: date.year - 1, month: 12, day: 31 }
    }
}

/// The day after a date and the day before it are dates, one day away.
pub proof fn lemma_neighbouring_days(date: CalendarDate)
    requires
        date.valid(),
    ensures
        next_day(date).valid(),
        next_day(date).day_number() == date.day_number() + 1,
        previous_day(date).valid(),
        previous_day(date).day_number() == date.day_number() - 1,
{
    lemma_days_before_month(date.year);
    lemma_days_before_month(date.year - 1);
    lemma_next_year(date.year);
    lemma_next_year(date.year - 1);
}

/// Every day has a date, however far it lies from 1 January 1970.
pub proof fn lemma_every_day_has_a_date(day: int)
    ensures
        exists|date: CalendarDate| date.valid() && date.day_number() == day,
    decreases
            (if day >= 0 {
                day
            } else {
                -day
            }),
{
    if day == 0 {
        let epoch = CalendarDate { year: 1970, month: 1, day: 1 };
        lemma_days_before_month(1970);
        assert(epoch.valid() && epoch.day_number() == 0);
    } else if day > 0 {
        lemma_every_day_has_a_date(day - 1);
        let before = choose|date: CalendarDate| date.valid() && date.day_number() == day - 1;
        lemma_neighbouring_days(before);
        assert(next_day(before).valid() && next_day(before).day_number() == day);
    } else {
        lemma_every_day_has_a_date(day + 1);
        let after = choose|date: CalendarDate| date.valid() && date.day_number() == day + 1;
        lemma_neighbouring_days(after);
        assert(previous_day(after).valid() && previous_day(after).day_number() == day);
    }
}

/// The date of a Unix time exists, and is as many days from 1 January 1970
/// as the time is.
pub proof fn lemma_utc_date_exists(seconds: int)
    ensures
        utc_date(seconds).valid(),
        utc_date(seconds).day_number() == day_of_unix_time(seconds),
{
    lemma_every_day_has_a_date(day_of_unix_time(seconds));
}

/// The date of a day is the one date that is as many days from 1 January 1970.
pub proof fn law_utc_date(seconds: int, date: CalendarDate)
    requires
        date.valid(),
        date.day_number() == day_of_unix_time(seconds),
    ensures
        utc_date(seconds) == date,
{
    law_day_number_names_the_date(date, utc_date(seconds));
}

} // verus!
