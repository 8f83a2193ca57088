//! The date on which a file was created, as its metadata tell it.

use vstd::prelude::*;
use chrono::DateTime;
use chrono::Datelike;
use vstd::arithmetic::div_mod::lemma_mod_multiples_vanish;
use crate::calendar::{
    day_number,
    day_of_unix_time,
    days_in_month,
    in_calendar_range,
    is_date,
    is_leap_year,
    law_day_number_names_the_date,
    lemma_utc_date_exists,
    utc_date,
    CalendarDate,
};

verus! {

/// The time that stands for the creation of a file: the time of creation where
/// the file system gave one, else the time of the last change.
pub open spec fn time_of_creation(created: Option<i64>, modified: Option<i64>) -> Option<i64> {
    if created is Some {
        created
    } else {
        modified
    }
}

/// The date on which a file was created, if its metadata tell: the UTC date of
/// its time of creation.
pub open spec fn creation_date(created: Option<i64>, modified: Option<i64>) -> Option<
    CalendarDate,
> {
    match time_of_creation(created, modified) {
        Some(seconds) => if in_calendar_range(seconds as int) {
            Some(utc_date(seconds as int))
        } else {
            None
        },
        None => None,
    }
}

/// The date on which a file was created exists.
pub proof fn lemma_creation_date_exists(created: Option<i64>, modified: Option<i64>)
    ensures
        creation_date(created, modified) matches Some(date) ==> date.valid(),
{
    match time_of_creation(created, modified) {
        Some(seconds) => lemma_utc_date_exists(seconds as int),
        None => {},
    }
}

/// The date of a file, by which its place in the library is chosen.
#[derive(Clone, Copy, Debug, PartialEq, Eq, Structural)]
pub struct ImportDate {
    year: i32,
    month: u32,
    day: u32,
}

/// The failure to tell when a file was created: neither its time of creation
/// nor that of its last change could be read, or the time lies in no year that
/// a date can be resolved of.
#[derive(Clone, Copy, Debug, PartialEq, Eq, Structural)]
pub struct MetadataUnavailable;

impl View for ImportDate {
    type V = CalendarDate;

    closed spec fn view(&self) -> CalendarDate {
        CalendarDate { year: self.year as int, month: self.month as int, day: self.day as int }
    }
}

fn leap_year(year: i32) -> (leap: bool)
    ensures
        leap == is_leap_year(year as int),
{
    // The calendar repeats every 400 years, so a year may be judged by a later
    // one, and a remainder of a year that is not negative needs no care.
    let later: i64 = year as i64 + 2_147_484_000;
    proof {
        lemma_mod_multiples_vanish(536_871_000, year as int, 4);
        lemma_mod_multiples_vanish(21_474_840, year as int, 100);
        lemma_mod_multiples_vanish(5_368_710, year as int, 400);
    }
    let by_4: bool = later % 4 == 0;
    let by_100: bool = later % 100 == 0;
    let by_400: bool = later % 400 == 0;
    by_4 && (!by_100 || by_400)
}

fn month_length(year: i32, month: u32) -> (days: u32)
    ensures
        days == days_in_month(year as int, month as int),
{
    if month == 2 {
        if leap_year(year) {
            29
        } else {
            28
        }
    } else if month == 4 || month == 6 || month == 9 || month == 11 {
        30
    } else {
        31
    }
}

impl ImportDate {
    #[verifier::type_invariant]
    spec fn exists_in_calendar(self) -> bool {
        is_date(self.year as int, self.month as int, self.day as int)
    }

    /// The date with the given year, month and day, if there is such a day.
    pub fn new(year: i32, month: u32, day: u32) -> (date: Option<Self>)
        ensures
            date is Some <==> is_date(year as int, month as int, day as int),
            date matches Some(d) ==> d@ == (CalendarDate {
                year: year as int,
                month: month as int,
                day: day as int,
            }),
    {
        if 1 <= month && month <= 12 && 1 <= day && day <= month_length(year, month) {
            Some(ImportDate { year, month, day })
        } else {
            None
        }
    }

    /// The year. That the date exists is known of every date.
    pub fn year(&self) -> (year: i32)
        ensures
            year == self@.year,
            self@.valid(),
    {
        proof {
            use_type_invariant(self);
        }
        self.year
    }

    /// The month, from 1 to 12.
    pub fn month(&self) -> (month: u32)
        ensures
            month == self@.month,
            1 <= month <= 12,
    {
        proof {
            use_type_invariant(self);
        }
        self.month
    }

    /// The day of the month, from 1 to 31.
    pub fn day(&self) -> (day: u32)
        ensures
            day == self@.day,
            1 <= day <= 31,
    {
        proof {
            use_type_invariant(self);
        }
        self.day
    }
}

/// Calls `chrono::DateTime::from_timestamp` with a whole number of seconds,
/// and reads year, month and day of the UTC date that it gives. Not proved:
/// that this is the day of the Gregorian calendar in which the Unix time lies,
/// and that chrono gives a date for the years from `FIRST_YEAR` to `LAST_YEAR`
/// and for no other.
#[verifier::external_body]
fn chrono_date(seconds: i64) -> (date: Option<(i32, u32, u32)>)
    ensures
        date is Some <==> in_calendar_range(seconds as int),
        date matches Some((year, month, day)) ==> is_date(year as int, month as int, day as int)
            && day_number(year as int, month as int, day as int) == day_of_unix_time(
            seconds as int,
        ),
{
    match DateTime::from_timestamp(seconds, 0) {
        Some(moment) => {
            let date = moment.date_naive();
            Some((date.year(), date.month(), date.day()))
        },
        None => None,
    }
}

/// The UTC date of a Unix time, if it lies in a year that a date can be
/// resolved of.
pub fn date_of_unix_time(seconds: i64) -> (date: Option<ImportDate>)
    ensures
        date is Some <==> in_calendar_range(seconds as int),
        date matches Some(d) ==> d@ == utc_date(seconds as int) && d@.valid() && d@.day_number()
            == day_of_unix_time(seconds as int),
{
    match chrono_date(seconds) {
        Some((year, month, day)) => {
            let date = ImportDate { year, month, day };
            proof {
                law_day_number_names_the_date(date@, utc_date(seconds as int));
            }
            Some(date)
        },
        None => None,
    }
}

/// The date on which a file was created, from the Unix times that its
/// metadata gave: the UTC date of the time of creation or, where there is
/// none, of the last change.
pub fn resolve_creation_date(created: Option<i64>, modified: Option<i64>) -> (date: Result<
    ImportDate,
    MetadataUnavailable,
>)
    ensures
        match date {
            Ok(d) => creation_date(created, modified) == Some(d@) && d@.valid(),
            Err(_) => creation_date(created, modified) is None,
        },
{
    let time = if created.is_some() {
        created
    } else {
        modified
    };
    match time {
        Some(seconds) => match date_of_unix_time(seconds) {
            Some(d) => Ok(d),
            None => Err(MetadataUnavailable),
        },
        None => Err(MetadataUnavailable),
    }
}

} // verus!
