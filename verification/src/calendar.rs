//! The days of one calendar month and their labels.
//!
//! Dates are proleptic Gregorian. Which dates exist, which day follows a
//! day and how a day is printed are taken from `chrono`; the enumeration of
//! a month on top of that is verified here.

use chrono::{Datelike, NaiveDate};
use crate::text::decimal;
use vstd::prelude::*;

verus! {

/// The earliest year that has dates.
pub const MIN_YEAR: i32 = -262143;

/// The latest year that has dates.
pub const MAX_YEAR: i32 = 262142;

/// The strftime pattern of a day label: abbreviated weekday, a comma,
/// abbreviated month, and the day of the month without padding.
pub const DAY_LABEL_PATTERN: &'static str = "%a, %b %-d";

/// The Gregorian leap-year rule: every fourth year, except the centuries
/// that four hundred does not divide.
pub open spec fn is_leap_year(year: int) -> bool {
    year % 4 == 0 && (year % 100 != 0 || year % 400 == 0)
}

/// The number of days of a month; `month` is 1 for January.
pub open spec fn days_in_month(year: int, month: int) -> int {
    if month == 2 {
        if is_leap_year(year) {
            29
        } else {
            28
        }
    } else if month == 4 || month == 6 || month == 9 || month == 11 {
        30
    } else {
        31
    }
}

/// Whether `year`-`month`-`day` is a date of the calendar.
pub open spec fn date_exists(year: int, month: int, day: int) -> bool {
    &&& MIN_YEAR <= year <= MAX_YEAR
    &&& 1 <= month <= 12
    &&& 1 <= day <= days_in_month(year, month)
}

/// The date after `year`-`month`-`day`, or `None` after the last date of
/// the calendar.
pub open spec fn next_day(year: int, month: int, day: int) -> Option<(int, int, int)> {
    if day < days_in_month(year, month) {
        Some((year, month, day + 1))
    } else if month < 12 {
        Some((year, month + 1, 1))
    } else if year < MAX_YEAR {
        Some((year + 1, 1, 1))
    } else {
        None
    }
}

/// The first day of the month after `year`-`month`: the exclusive upper
/// bound of that month's days. After December it is the first of January
/// of the next year.
pub open spec fn following_month_start(year: int, month: int) -> (int, int, int) {
    if month == 12 {
        (year + 1, 1, 1)
    } else {
        (year, month + 1, 1)
    }
}

/// Whether the days of `year`-`month` can be enumerated: its first day and
/// the first day of the following month are both dates of the calendar.
pub open spec fn month_is_representable(year: int, month: int) -> bool {
    let end = following_month_start(year, month);
    date_exists(year, month, 1) && date_exists(end.0, end.1, end.2)
}

/// The day of the week of a date, counted from Sunday = 0 to Saturday = 6,
/// as `chrono` computes it.
pub uninterp spec fn weekday_from_sunday(year: int, month: int, day: int) -> int;

/// The three-letter English name of a day of the week; 0 is Sunday.
pub open spec fn weekday_abbreviation(weekday: int) -> Seq<char> {
    if weekday == 0 {
        "Sun"@
    } else if weekday == 1 {
        "Mon"@
    } else if weekday == 2 {
        "Tue"@
    } else if weekday == 3 {
        "Wed"@
    } else if weekday == 4 {
        "Thu"@
    } else if weekday == 5 {
        "Fri"@
    } else {
        "Sat"@
    }
}

/// The three-letter English name of a month; 1 is January.
pub open spec fn month_abbreviation(month: int) -> Seq<char> {
    if month == 1 {
        "Jan"@
    } else if month == 2 {
        "Feb"@
    } else if month == 3 {
        "Mar"@
    } else if month == 4 {
        "Apr"@
    } else if month == 5 {
        "May"@
    } else if month == 6 {
        "Jun"@
    } else if month == 7 {
        "Jul"@
    } else if month == 8 {
        "Aug"@
    } else if month == 9 {
        "Sep"@
    } else if month == 10 {
        "Oct"@
    } else if month == 11 {
        "Nov"@
    } else {
        "Dec"@
    }
}

/// The text of a day label, such as "Fri, Mar 1", given the day's weekday.
pub open spec fn day_label_text(weekday: int, month: int, day: int) -> Seq<char> {
    weekday_abbreviation(weekday) + ", "@ + month_abbreviation(month) + " "@ + decimal(day as nat)
}

/// The label of the date `year`-`month`-`day`.
pub open spec fn day_label(year: int, month: int, day: int) -> Seq<char> {
    day_label_text(weekday_from_sunday(year, month, day), month, day)
}

/// The labels of all days of a month, in calendar order.
pub open spec fn month_labels(year: int, month: int) -> Seq<Seq<char>> {
    Seq::new(days_in_month(year, month) as nat, |i: int| day_label(year, month, i + 1))
}

/// Why a month cannot be laid out.
#[derive(Debug, Clone, Copy, PartialEq, Eq)]
pub enum CalendarError {
    /// The month is not in 1..=12, or the year lies outside the calendar.
    InvalidCalendarInput { year: i32, month: u32 },
}

/// Asks `chrono::NaiveDate::from_ymd_opt` whether a date exists. Trusted:
/// it builds a date exactly for the years `MIN_YEAR..=MAX_YEAR`, the months
/// 1..=12 and the days that the Gregorian month has.
#[verifier::external_body]
fn chrono_date_exists(year: i32, month: u32, day: u32) -> (exists: bool)
    ensures
        exists == date_exists(year as int, month as int, day as int),
{
    NaiveDate::from_ymd_opt(year, month, day).is_some()
}

/// Steps to the next date with `chrono::NaiveDate::succ_opt`. Trusted: the
/// result is the following calendar date, and `None` only after the last
/// date of `MAX_YEAR`.
#[verifier::external_body]
fn chrono_next_day(year: i32, month: u32, day: u32) -> (next: Option<(i32, u32, u32)>)
    requires
        date_exists(year as int, month as int, day as int),
    ensures
        match next {
            Some(n) => next_day(year as int, month as int, day as int) == Some(
                (n.0 as int, n.1 as int, n.2 as int),
            ),
            None => next_day(year as int, month as int, day as int) is None,
        },
{
    match NaiveDate::from_ymd_opt(year, month, day).unwrap().succ_opt() {
        Some(date) => Some((date.year(), date.month(), date.day())),
        None => None,
    }
}

/// Prints a date with `chrono::NaiveDate::format`. Trusted, for the pattern
/// `DAY_LABEL_PATTERN` only: the text is the abbreviated English weekday
/// name, ", ", the abbreviated English month name, a space, and the day of
/// the month in decimal without padding.
#[verifier::external_body]
fn chrono_format_date(year: i32, month: u32, day: u32, pattern: &str) -> (text: String)
    requires
        date_exists(year as int, month as int, day as int),
        pattern@ == DAY_LABEL_PATTERN@,
    ensures
        text@ == day_label_text(
            weekday_from_sunday(year as int, month as int, day as int),
            month as int,
            day as int,
        ),
{
    NaiveDate::from_ymd_opt(year, month, day).unwrap().format(pattern).to_string()
}

/// A date of the calendar.
pub struct CalendarDate {
    year: i32,
    month: u32,
    day: u32,
}

impl View for CalendarDate {
    type V = (int, int, int);

    /// Year, month (1 for January) and day of the month.
    closed spec fn view(&self) -> (int, int, int) {
        (self.year as int, self.month as int, self.day as int)
    }
}

impl CalendarDate {
    #[verifier::type_invariant]
    closed spec fn well_formed(self) -> bool {
        date_exists(self.year as int, self.month as int, self.day as int)
    }

    /// The date `year`-`month`-`day`, if the calendar has it.
    pub fn from_ymd_opt(year: i32, month: u32, day: u32) -> (date: Option<CalendarDate>)
        ensures
            date is Some <==> date_exists(year as int, month as int, day as int),
            date matches Some(d) ==> d@ == (year as int, month as int, day as int),
    {
        if chrono_date_exists(year, month, day) {
            Some(CalendarDate { year, month, day })
        } else {
            None
        }
    }

    /// The following date, or `None` after the last date of the calendar.
    pub fn succ_opt(&self) -> (next: Option<CalendarDate>)
        ensures
            match next {
                Some(n) => next_day(self@.0, self@.1, self@.2) == Some(n@),
                None => next_day(self@.0, self@.1, self@.2) is None,
            },
    {
        proof {
            use_type_invariant(self);
        }
        match chrono_next_day(self.year, self.month, self.day) {
            Some(n) => Some(CalendarDate { year: n.0, month: n.1, day: n.2 }),
            None => None,
        }
    }

    /// The label of this date, such as "Fri, Mar 1".
    pub fn label(&self) -> (text: String)
        ensures
            text@ == day_label(self@.0, self@.1, self@.2),
    {
        proof {
            use_type_invariant(self);
        }
        chrono_format_date(self.year, self.month, self.day, DAY_LABEL_PATTERN)
    }

    /// The year of the date.
    pub fn year(&self) -> (year: i32)
        ensures
            year == self@.0,
            date_exists(self@.0, self@.1, self@.2),
    {
        proof {
            use_type_invariant(self);
        }
        self.year
    }

    /// The month of the date; 1 is January.
    pub fn month(&self) -> (month: u32)
        ensures
            month == self@.1,
            1 <= month <= 12,
    {
        proof {
            use_type_invariant(self);
        }
        self.month
    }

    /// The day of the month.
    pub fn day(&self) -> (day: u32)
        ensures
            day == self@.2,
            1 <= day <= days_in_month(self@.0, self@.1),
    {
        proof {
            use_type_invariant(self);
        }
        self.day
    }

    /// Whether two dates are the same day.
    pub fn same_day(&self, other: &CalendarDate) -> (same: bool)
        ensures
            same == (self@ == other@),
    {
        self.year == other.year && self.month == other.month && self.day == other.day
    }
}

/// The labels of the days of `year`-`month`, one per day, in calendar
/// order: the days from the first of the month up to, and without, the
/// first of the following month.
///
/// Fails with `InvalidCalendarInput` exactly when the month is not in
/// 1..=12 or one of the two bounding dates lies outside the calendar.
pub fn generate_date_strings(year: i32, month: u32) -> (result: Result<Vec<String>, CalendarError>)
    ensures
        result is Ok <==> month_is_representable(year as int, month as int),
        result matches Ok(labels) ==> {
            &&& labels.len() == days_in_month(year as int, month as int)
            &&& labels.deep_view() == month_labels(year as int, month as int)
        },
        result matches Err(e) ==> e == (CalendarError::InvalidCalendarInput { year, month }),
{
    let first = match CalendarDate::from_ymd_opt(year, month, 1) {
        Some(d) => d,
        None => {
            return Err(CalendarError::InvalidCalendarInput { year, month });
        },
    };
    let bound = if month == 12 {
        CalendarDate::from_ymd_opt(year + 1, 1, 1)
    } else {
        CalendarDate::from_ymd_opt(year, month + 1, 1)
    };
    let end = match bound {
        Some(d) => d,
        None => {
            return Err(CalendarError::InvalidCalendarInput { year, month });
        },
    };
    let ghost length = days_in_month(year as int, month as int);
    let mut labels: Vec<String> = Vec::new();
    let mut current = first;
    while !current.same_day(&end)
        invariant
            month_is_representable(year as int, month as int),
            length == days_in_month(year as int, month as int),
            end@ == following_month_start(year as int, month as int),
            labels.len() <= length,
            labels.len() < length ==> current@ == (year as int, month as int, labels.len() + 1),
            labels.len() == length ==> current@ == end@,
            labels.deep_view() =~= Seq::new(
                labels.len() as nat,
                |i: int| day_label(year as int, month as int, i + 1),
            ),
        decreases length - labels.len(),
    {
        let ghost done = labels.deep_view();
        let text = current.label();
        let next = current.succ_opt();
        labels.push(text);
        assert(labels.deep_view() =~= done.push(text@));
        current = next.unwrap();
    }
    Ok(labels)
}

} // verus!
