//! The fixed wording of the form.

use vstd::prelude::*;

verus! {

/// The title at the head of the page.
pub const TITLE: &'static str = "Monthly OJT Form";

/// What stands before the coordinator's name in the line under the title.
pub const RETURN_TO: &'static str = "Return to: ";

/// What stands after the coordinator's name.
pub const COORDINATOR_SUFFIX: &'static str = ", COORDINATOR";

/// The heading of the date column.
pub const DAYS: &'static str = "Days";

/// The heading of the totals column and the label of the totals row.
pub const TOTAL: &'static str = "TOTAL";

pub const APPRENTICE_NAME: &'static str = "Apprentice Name:";

pub const EMPLOYER: &'static str = "Employer:";

pub const HOURLY_WAGE: &'static str = "Hourly Wage:";

pub const SCHOOL_YEAR: &'static str = "School Year:";

pub const OJT_MONTH: &'static str = "   OJT Month:";

/// The three ratings that can be ticked.
pub const RATING_CHOICES: &'static str =
    "[   ] Below Average   [   ] Average   [   ] Above Average";

/// The four school years that can be ticked.
pub const YEAR_CHOICES: &'static str = "[   ] 1   [   ] 2   [   ] 3   [   ] 4";

/// What stands before the month in the value of the month field.
pub const MONTH_VALUE_PREFIX: &'static str = " ";

/// The headline of the legend box.
pub const LEGEND_HEADLINE: &'static str =
    "PRINT CLEARLY                          USE FULL HOURS ONLY";

pub const LEGEND_FIRST: &'static str = "Make sure A through G totals are in the";

pub const LEGEND_SECOND: &'static str = "TOTAL on the bottom and on the right";

/// What stands before the program's hours under the category table.
pub const TOTAL_HOURS_PREFIX: &'static str = "TOTAL HOURS REQUIRED: ";

/// The heading of the evaluation section.
pub const EVALUATION: &'static str = "EMPLOYER / SUPERVISOR ON-THE-JOB EVALUATION";

pub const SIGNATURE: &'static str = "Employer / Supervisor Signature";

pub const SIGNER_TITLE: &'static str = "Title";

pub const SIGNING_DATE: &'static str = "Date";

/// The number of lines of the introduction.
pub const INTRODUCTION_LINES: usize = 5;

/// The number of lines of the reminder under the introduction.
pub const REMINDER_LINES: usize = 2;

/// The number of qualities that the evaluation rates.
pub const RATED_QUALITIES: usize = 5;

/// Line `line` of the introduction.
pub open spec fn introduction_text(line: int) -> Seq<char> {
    if line == 0 {
        "The Manasota Plumbing Apprenticeship Program requires 8,000"@
    } else if line == 1 {
        "OT hours over a four-year period (2,000 hours per year) in"@
    } else if line == 2 {
        "relation to letters A thru G as listed below. Please make every"@
    } else if line == 3 {
        "effort to give your employee(s) the right amount of training hours"@
    } else {
        "to satisfy the Program requirements."@
    }
}

/// Line `line` of the reminder.
pub open spec fn reminder_text(line: int) -> Seq<char> {
    if line == 0 {
        "You are required to turn in one sheet for each of the twelve"@
    } else {
        "months before the 10th of the following month."@
    }
}

/// The name of rated quality `index`.
pub open spec fn quality_text(index: int) -> Seq<char> {
    if index == 0 {
        "Work Habits:"@
    } else if index == 1 {
        "Dependability:"@
    } else if index == 2 {
        "Trade Knowledge:"@
    } else if index == 3 {
        "Attitude:"@
    } else {
        "Cooperation:"@
    }
}

/// One line of the introduction.
pub fn introduction_line(line: usize) -> (text: &'static str)
    requires
        line < INTRODUCTION_LINES,
    ensures
        text@ == introduction_text(line as int),
{
    if line == 0 {
        "The Manasota Plumbing Apprenticeship Program requires 8,000"
    } else if line == 1 {
        "OT hours over a four-year period (2,000 hours per year) in"
    } else if line == 2 {
        "relation to letters A thru G as listed below. Please make every"
    } else if line == 3 {
        "effort to give your employee(s) the right amount of training hours"
    } else {
        "to satisfy the Program requirements."
    }
}

/// One line of the reminder.
pub fn reminder_line(line: usize) -> (text: &'static str)
    requires
        line < REMINDER_LINES,
    ensures
        text@ == reminder_text(line as int),
{
    if line == 0 {
        "You are required to turn in one sheet for each of the twelve"
    } else {
        "months before the 10th of the following month."
    }
}

/// The name of one rated quality.
pub fn quality(index: usize) -> (text: &'static str)
    requires
        index < RATED_QUALITIES,
    ensures
        text@ == quality_text(index as int),
{
    if index == 0 {
        "Work Habits:"
    } else if index == 1 {
        "Dependability:"
    } else if index == 2 {
        "Trade Knowledge:"
    } else if index == 3 {
        "Attitude:"
    } else {
        "Cooperation:"
    }
}

} // verus!
