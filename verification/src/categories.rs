//! The seven training categories of the program: letter, description and
//! required hours.

use crate::geometry::CHART_COLUMNS;
use vstd::prelude::*;

verus! {

/// The number of training categories, one for each lettered chart column.
pub const CATEGORY_COUNT: usize = 7;

/// The number of description lines of all categories together.
pub const DESCRIPTION_LINES: usize = 11;

/// The hours that the whole program requires.
pub const PROGRAM_HOURS: u32 = 8000;

/// The letter of category `index`, from "A".
pub open spec fn letter_text(index: int) -> Seq<char> {
    if index == 0 {
        "A"@
    } else if index == 1 {
        "B"@
    } else if index == 2 {
        "C"@
    } else if index == 3 {
        "D"@
    } else if index == 4 {
        "E"@
    } else if index == 5 {
        "F"@
    } else {
        "G"@
    }
}

/// The number of lines that the description of category `index` takes.
pub open spec fn line_count_of(index: int) -> nat {
    if index == 0 {
        1
    } else if index == 1 {
        2
    } else if index == 2 {
        2
    } else if index == 3 {
        1
    } else if index == 4 {
        3
    } else if index == 5 {
        1
    } else {
        1
    }
}

/// The hours that category `index` requires.
pub open spec fn hours_of(index: int) -> nat {
    if index == 0 {
        300
    } else if index == 1 {
        1400
    } else if index == 2 {
        2100
    } else if index == 3 {
        1200
    } else if index == 4 {
        1600
    } else if index == 5 {
        800
    } else {
        600
    }
}

/// Line `line` of the descriptions, which follow one another category by
/// category.
pub open spec fn description_text(line: int) -> Seq<char> {
    if line == 0 {
        "Safety"@
    } else if line == 1 {
        "Preparation, loading, use and selection of various tools,"@
    } else if line == 2 {
        "supplies, machinery and equipment for the trade."@
    } else if line == 3 {
        "Hot and cold water systems, water treatment, hot water"@
    } else if line == 4 {
        "and steam systems, boilers, and backflow prevention."@
    } else if line == 5 {
        "Fixture installation"@
    } else if line == 6 {
        "Determining kinds of pipe and proper installation for"@
    } else if line == 7 {
        "drainage, waste and venting. Fire stopping and"@
    } else if line == 8 {
        "installations."@
    } else if line == 9 {
        "Gas and industrial piping"@
    } else {
        "Trouble shooting and repairs"@
    }
}

/// The number of description lines of the categories before `index`: the
/// running offset at which the description of category `index` begins.
pub open spec fn lines_before(index: nat) -> nat
    decreases index,
{
    if index == 0 {
        0
    } else {
        lines_before((index - 1) as nat) + line_count_of(index - 1)
    }
}

/// The hours that the categories before `index` require together.
pub open spec fn hours_before(index: nat) -> nat
    decreases index,
{
    if index == 0 {
        0
    } else {
        hours_before((index - 1) as nat) + hours_of(index - 1)
    }
}

/// The running line offset at each category, and the bound that keeps
/// every description line inside the table.
pub proof fn lemma_line_offsets()
    ensures
        lines_before(0) == 0,
        lines_before(1) == 1,
        lines_before(2) == 3,
        lines_before(3) == 5,
        lines_before(4) == 6,
        lines_before(5) == 9,
        lines_before(6) == 10,
        lines_before(7) == DESCRIPTION_LINES,
        forall|index: nat|
            index < CATEGORY_COUNT ==> #[trigger] lines_before(index) + line_count_of(index as int)
                <= DESCRIPTION_LINES,
{
    reveal_with_fuel(lines_before, 8);
}

/// The chart has one lettered column for each category.
pub proof fn lemma_one_column_per_category()
    ensures
        CATEGORY_COUNT == CHART_COLUMNS,
{
}

/// The hours of the seven categories add up to the hours of the program.
pub proof fn lemma_hours_total()
    ensures
        hours_before(CATEGORY_COUNT as nat) == PROGRAM_HOURS,
{
    reveal_with_fuel(hours_before, 8);
}

/// The letter of a category.
pub fn category_letter(index: usize) -> (letter: &'static str)
    requires
        index < CATEGORY_COUNT,
    ensures
        letter@ == letter_text(index as int),
{
    if index == 0 {
        "A"
    } else if index == 1 {
        "B"
    } else if index == 2 {
        "C"
    } else if index == 3 {
        "D"
    } else if index == 4 {
        "E"
    } else if index == 5 {
        "F"
    } else {
        "G"
    }
}

/// The number of lines of a category's description.
pub fn category_line_count(index: usize) -> (count: usize)
    requires
        index < CATEGORY_COUNT,
    ensures
        count == line_count_of(index as int),
        1 <= count <= 3,
{
    if index == 0 {
        1
    } else if index == 1 {
        2
    } else if index == 2 {
        2
    } else if index == 3 {
        1
    } else if index == 4 {
        3
    } else if index == 5 {
        1
    } else {
        1
    }
}

/// The hours that a category requires.
pub fn category_hours(index: usize) -> (hours: u32)
    requires
        index < CATEGORY_COUNT,
    ensures
        hours == hours_of(index as int),
{
    if index == 0 {
        300
    } else if index == 1 {
        1400
    } else if index == 2 {
        2100
    } else if index == 3 {
        1200
    } else if index == 4 {
        1600
    } else if index == 5 {
        800
    } else {
        600
    }
}

/// One line of the descriptions.
pub fn description_line(line: usize) -> (text: &'static str)
    requires
        line < DESCRIPTION_LINES,
    ensures
        text@ == description_text(line as int),
{
    if line == 0 {
        "Safety"
    } else if line == 1 {
        "Preparation, loading, use and selection of various tools,"
    } else if line == 2 {
        "supplies, machinery and equipment for the trade."
    } else if line == 3 {
        "Hot and cold water systems, water treatment, hot water"
    } else if line == 4 {
        "and steam systems, boilers, and backflow prevention."
    } else if line == 5 {
        "Fixture installation"
    } else if line == 6 {
        "Determining kinds of pipe and proper installation for"
    } else if line == 7 {
        "drainage, waste and venting. Fire stopping and"
    } else if line == 8 {
        "installations."
    } else if line == 9 {
        "Gas and industrial piping"
    } else {
        "Trouble shooting and repairs"
    }
}

/// The hours of all categories together, added up from the table.
pub fn total_required_hours() -> (total: u32)
    ensures
        total == hours_before(CATEGORY_COUNT as nat),
        total == PROGRAM_HOURS,
{
    let mut total: u32 = 0;
    let mut index: usize = 0;
    while index < CATEGORY_COUNT
        invariant
            index <= CATEGORY_COUNT,
            total == hours_before(index as nat),
            total <= 2100 * index,
        decreases CATEGORY_COUNT - index,
    {
        total = total + category_hours(index);
        index = index + 1;
    }
    proof {
        lemma_hours_total();
    }
    total
}

} // verus!
