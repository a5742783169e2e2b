//! Which forms a request asks for, and where each one is written.

use crate::calendar::CalendarError;
use crate::text::{append_decimal, append_signed_decimal, decimal, signed_decimal};
use vstd::prelude::*;
use vstd::string::*;

verus! {

/// The directory that the forms are written to, with its separator.
pub const OUTPUT_DIRECTORY: &'static str = "pdfs/";

/// What parts the year from the month in a file's name.
pub const OUTPUT_SEPARATOR: &'static str = "-";

/// The extension of the files.
pub const OUTPUT_EXTENSION: &'static str = ".pdf";

/// The number of a month when all months are counted in calendar order;
/// `month` is 1 for January.
pub open spec fn month_number(year: int, month: int) -> int {
    year * 12 + (month - 1)
}

/// The year and month with the given number.
pub open spec fn month_of_number(number: int) -> (int, int) {
    (number / 12, number % 12 + 1)
}

/// The months from `start` to `end`, both included, in calendar order;
/// none when `end` lies before `start`.
pub open spec fn months_between(
    start_year: int,
    start_month: int,
    end_year: int,
    end_month: int,
) -> Seq<(int, int)> {
    let first = month_number(start_year, start_month);
    let last = month_number(end_year, end_month);
    if last < first {
        Seq::empty()
    } else {
        Seq::new((last - first + 1) as nat, |i: int| month_of_number(first + i))
    }
}

/// A year and month of the range as mathematical integers.
pub open spec fn as_month(entry: (i32, u32)) -> (int, int) {
    (entry.0 as int, entry.1 as int)
}

/// What `expand_range` returns: the months of the range, each once and in
/// calendar order, or the first bound whose month is not in 1..=12.
pub open spec fn is_range_of(
    start_year: i32,
    start_month: u32,
    end_year: i32,
    end_month: u32,
    result: Result<Vec<(i32, u32)>, CalendarError>,
) -> bool {
    match result {
        Ok(months) => {
            &&& 1 <= start_month <= 12
            &&& 1 <= end_month <= 12
            &&& months@.map_values(|entry: (i32, u32)| as_month(entry)) == months_between(
                start_year as int,
                start_month as int,
                end_year as int,
                end_month as int,
            )
        },
        Err(error) => if 1 <= start_month <= 12 {
            &&& !(1 <= end_month <= 12)
            &&& error == (CalendarError::InvalidCalendarInput { year: end_year, month: end_month })
        } else {
            error == (CalendarError::InvalidCalendarInput { year: start_year, month: start_month })
        },
    }
}

/// The months that a request from `start` to `end` asks for, both bounds
/// included.
pub fn expand_range(start_year: i32, start_month: u32, end_year: i32, end_month: u32) -> (result:
    Result<Vec<(i32, u32)>, CalendarError>)
    ensures
        is_range_of(start_year, start_month, end_year, end_month, result),
{
    if start_month < 1 || start_month > 12 {
        return Err(CalendarError::InvalidCalendarInput { year: start_year, month: start_month });
    }
    if end_month < 1 || end_month > 12 {
        return Err(CalendarError::InvalidCalendarInput { year: end_year, month: end_month });
    }
    let ghost first = month_number(start_year as int, start_month as int);
    let ghost last = month_number(end_year as int, end_month as int);
    let ghost wanted = months_between(
        start_year as int,
        start_month as int,
        end_year as int,
        end_month as int,
    );
    let mut months: Vec<(i32, u32)> = Vec::new();
    let mut year = start_year;
    let mut month = start_month;
    let mut done = year > end_year || (year == end_year && month > end_month);
    while !done
        invariant
            1 <= month <= 12,
            1 <= end_month <= 12,
            first == month_number(start_year as int, start_month as int),
            last == month_number(end_year as int, end_month as int),
            wanted == months_between(
                start_year as int,
                start_month as int,
                end_year as int,
                end_month as int,
            ),
            months@.len() <= wanted.len(),
            !done ==> month_number(year as int, month as int) == first + months@.len(),
            !done ==> months@.len() < wanted.len(),
            done ==> months@.len() == wanted.len(),
            forall|i: int| 0 <= i < months@.len() ==> as_month(#[trigger] months@[i]) == wanted[i],
        decreases wanted.len() - months@.len(), if done { 0int } else { 1int },
    {
        months.push((year, month));
        if year == end_year && month == end_month {
            done = true;
        } else if month == 12 {
            year = year + 1;
            month = 1;
        } else {
            month = month + 1;
        }
    }
    assert(months@.map_values(|entry: (i32, u32)| as_month(entry)) =~= wanted);
    Ok(months)
}

/// The path of the file for a month: the directory, the year, a hyphen,
/// the month, the extension.
pub open spec fn output_path_text(year: int, month: nat) -> Seq<char> {
    OUTPUT_DIRECTORY@ + signed_decimal(year) + OUTPUT_SEPARATOR@ + decimal(month)
        + OUTPUT_EXTENSION@
}

/// The path that the form of `year`-`month` is written to.
pub fn output_path(year: i32, month: u32) -> (path: String)
    ensures
        path@ == output_path_text(year as int, month as nat),
{
    let mut path = String::from_str(OUTPUT_DIRECTORY);
    append_signed_decimal(&mut path, year as i64);
    path.append(OUTPUT_SEPARATOR);
    append_decimal(&mut path, month as u64);
    path.append(OUTPUT_EXTENSION);
    path
}

} // verus!
