//! What holds of every plan: where the day labels stand, how many there
//! are, and that nothing is painted over text.

use crate::categories::{CATEGORY_COUNT, PROGRAM_HOURS, hours_before, hours_of};
use crate::geometry::{DATE_TEXT_X, PROGRAM_HOURS_DROP, PROGRAM_HOURS_X, SIZE_BODY, SIZE_DATE};
use crate::layout::{
    category_block, category_blocks, category_footer, category_table, category_total,
    date_column, evaluation, form_fields, header_row, heading, introduction,
    last_category_baseline, legend_text, lettering, plan_model, program_hours_text, rating,
    ratings, reminder, ruling, signature_block,
};
use crate::primitive::{FontWeight, PrimitiveModel, bold};
use crate::text::{decimal, grouped_decimal, hours_label_text};
use crate::wording::RATED_QUALITIES;
use vstd::prelude::*;
use vstd::string::*;

verus! {

/// Whether a primitive is a cell of the date column: regular text of the
/// date size that starts at the column's left.
pub open spec fn is_date_cell(primitive: PrimitiveModel) -> bool {
    primitive matches PrimitiveModel::Text { x, weight, size, .. } && x == DATE_TEXT_X && weight
        == FontWeight::Regular && size == SIZE_DATE
}

/// Whether a primitive is a filled rectangle.
pub open spec fn is_filled(primitive: PrimitiveModel) -> bool {
    primitive matches PrimitiveModel::Rect { fill, .. } && fill is Some
}

/// The test that picks the cells of the date column.
pub open spec fn date_cell_test() -> spec_fn(PrimitiveModel) -> bool {
    |primitive: PrimitiveModel| is_date_cell(primitive)
}

/// The cells of the date column of a plan, in drawing order.
pub open spec fn date_cells(plan: Seq<PrimitiveModel>) -> Seq<PrimitiveModel> {
    plan.filter(date_cell_test())
}

/// Whether a primitive may stand in the lettering: a rule, or text that is
/// no cell of the date column.
spec fn is_lettering(primitive: PrimitiveModel) -> bool {
    primitive is Line || (primitive is Text && !is_date_cell(primitive))
}

/// Whether every primitive of a part may stand in the lettering.
spec fn all_lettering(part: Seq<PrimitiveModel>) -> bool {
    forall|i: int| 0 <= i < part.len() ==> is_lettering(#[trigger] part[i])
}

proof fn lemma_all_lettering_add(first: Seq<PrimitiveModel>, second: Seq<PrimitiveModel>)
    requires
        all_lettering(first),
        all_lettering(second),
    ensures
        all_lettering(first + second),
{
}

proof fn lemma_category_blocks_are_lettering(count: nat)
    ensures
        all_lettering(category_blocks(count)),
    decreases count,
{
    if count > 0 {
        lemma_category_blocks_are_lettering((count - 1) as nat);
        lemma_all_lettering_add(category_blocks((count - 1) as nat), category_block(count - 1));
    }
}

proof fn lemma_ratings_are_lettering(count: nat)
    ensures
        all_lettering(ratings(count)),
    decreases count,
{
    if count > 0 {
        lemma_ratings_are_lettering((count - 1) as nat);
        lemma_all_lettering_add(ratings((count - 1) as nat), rating(count - 1));
    }
}

proof fn lemma_lettering_is_lettering(month_year: Seq<char>, name_length: nat, upper_name: Seq<char>)
    ensures
        all_lettering(lettering(month_year, name_length, upper_name)),
{
    lemma_category_blocks_are_lettering(CATEGORY_COUNT as nat);
    lemma_ratings_are_lettering(RATED_QUALITIES as nat);
    assert(all_lettering(header_row()));
    assert(all_lettering(legend_text()));
    assert(all_lettering(form_fields(month_year)));
    assert(all_lettering(introduction()));
    assert(all_lettering(reminder()));
    assert(all_lettering(category_table()));
    assert(all_lettering(evaluation()));
    assert(all_lettering(signature_block()));
    assert(all_lettering(heading(name_length, upper_name)));
}

proof fn lemma_ruling_has_no_text()
    ensures
        forall|i: int| 0 <= i < ruling().len() ==> !((#[trigger] ruling()[i]) is Text),
        forall|i: int| 0 <= i < ruling().len() - 1 ==> !is_filled(#[trigger] ruling()[i]),
{
}

proof fn lemma_filter_keeps_all(part: Seq<PrimitiveModel>, test: spec_fn(PrimitiveModel) -> bool)
    requires
        forall|i: int| 0 <= i < part.len() ==> test(#[trigger] part[i]),
    ensures
        part.filter(test) == part,
    decreases part.len(),
{
    reveal(Seq::filter);
    if part.len() > 0 {
        lemma_filter_keeps_all(part.drop_last(), test);
        assert(part.drop_last().push(part.last()) =~= part);
    }
}

proof fn lemma_filter_drops_all(part: Seq<PrimitiveModel>, test: spec_fn(PrimitiveModel) -> bool)
    requires
        forall|i: int| 0 <= i < part.len() ==> !test(#[trigger] part[i]),
    ensures
        part.filter(test) == Seq::<PrimitiveModel>::empty(),
    decreases part.len(),
{
    reveal(Seq::filter);
    if part.len() > 0 {
        lemma_filter_drops_all(part.drop_last(), test);
    }
}

/// The cells of the date column of a plan are the cells of its labels, one
/// for each label and in their order: nothing else on the form is set as a
/// day label is.
pub proof fn lemma_date_cells_of_plan(
    labels: Seq<Seq<char>>,
    month_year: Seq<char>,
    name_length: nat,
    upper_name: Seq<char>,
)
    ensures
        date_cells(plan_model(labels, month_year, name_length, upper_name)) == date_column(labels),
        date_cells(plan_model(labels, month_year, name_length, upper_name)).len() == labels.len(),
{
    let test = date_cell_test();
    let rest = lettering(month_year, name_length, upper_name);
    lemma_ruling_has_no_text();
    lemma_lettering_is_lettering(month_year, name_length, upper_name);
    lemma_filter_drops_all(ruling(), test);
    lemma_filter_keeps_all(date_column(labels), test);
    lemma_filter_drops_all(rest, test);
    Seq::filter_distributes_over_add(ruling(), date_column(labels), test);
    Seq::filter_distributes_over_add(ruling() + date_column(labels), rest, test);
    assert(date_cells(plan_model(labels, month_year, name_length, upper_name)) =~= date_column(
        labels,
    ));
}

/// A filled rectangle stands before every text run of the plan, so no fill
/// covers text.
pub proof fn lemma_fill_precedes_text(
    labels: Seq<Seq<char>>,
    month_year: Seq<char>,
    name_length: nat,
    upper_name: Seq<char>,
    fill_index: int,
    text_index: int,
)
    requires
        0 <= fill_index < plan_model(labels, month_year, name_length, upper_name).len(),
        0 <= text_index < plan_model(labels, month_year, name_length, upper_name).len(),
        is_filled(plan_model(labels, month_year, name_length, upper_name)[fill_index]),
        plan_model(labels, month_year, name_length, upper_name)[text_index] is Text,
    ensures
        fill_index < text_index,
{
    let plan = plan_model(labels, month_year, name_length, upper_name);
    let rest = lettering(month_year, name_length, upper_name);
    let ruled = ruling().len() as int;
    let dated = ruled + labels.len();
    lemma_ruling_has_no_text();
    lemma_lettering_is_lettering(month_year, name_length, upper_name);
    if fill_index >= dated {
        assert(plan[fill_index] == rest[fill_index - dated]);
        assert(is_lettering(rest[fill_index - dated]));
    } else if fill_index >= ruled {
        assert(plan[fill_index] == date_column(labels)[fill_index - ruled]);
    }
    if text_index < ruled {
        assert(plan[text_index] == ruling()[text_index]);
    }
}

proof fn lemma_contains_in_first(
    first: Seq<PrimitiveModel>,
    second: Seq<PrimitiveModel>,
    primitive: PrimitiveModel,
)
    requires
        first.contains(primitive),
    ensures
        (first + second).contains(primitive),
{
    let i = choose|i: int| 0 <= i < first.len() && first[i] == primitive;
    assert((first + second)[i] == primitive);
}

proof fn lemma_contains_in_second(
    first: Seq<PrimitiveModel>,
    second: Seq<PrimitiveModel>,
    primitive: PrimitiveModel,
)
    requires
        second.contains(primitive),
    ensures
        (first + second).contains(primitive),
{
    let i = choose|i: int| 0 <= i < second.len() && second[i] == primitive;
    assert((first + second)[first.len() + i] == primitive);
}

proof fn lemma_blocks_hold_total(count: nat, index: int)
    requires
        0 <= index < count,
    ensures
        category_blocks(count).contains(category_total(index)),
    decreases count,
{
    let before = category_blocks((count - 1) as nat);
    let block = category_block(count - 1);
    if index == count - 1 {
        assert(block[block.len() - 1] == category_total(index));
        lemma_contains_in_second(before, block, category_total(index));
    } else {
        lemma_blocks_hold_total((count - 1) as nat, index);
        lemma_contains_in_first(before, block, category_total(index));
    }
}

/// The line of the program's hours as it stands on every form.
pub open spec fn program_hours_line() -> PrimitiveModel {
    bold(
        PROGRAM_HOURS_X as int,
        last_category_baseline() - PROGRAM_HOURS_DROP,
        program_hours_text(),
        SIZE_BODY as int,
    )
}

/// The hours that the category table states add up to the hours of the
/// program, 8000, and the line under the table states that sum.
pub proof fn lemma_program_hours_are_the_sum()
    ensures
        hours_before(CATEGORY_COUNT as nat) == hours_of(0) + hours_of(1) + hours_of(2) + hours_of(3)
            + hours_of(4) + hours_of(5) + hours_of(6),
        hours_before(CATEGORY_COUNT as nat) == PROGRAM_HOURS,
        PROGRAM_HOURS == 8000,
        program_hours_text() == "TOTAL HOURS REQUIRED: 8,000"@,
{
    reveal_with_fuel(hours_before, 8);
    reveal_with_fuel(decimal, 2);
    reveal_with_fuel(grouped_decimal, 2);
    reveal_strlit("TOTAL HOURS REQUIRED: ");
    reveal_strlit("TOTAL HOURS REQUIRED: 8,000");
    assert(grouped_decimal(8000) =~= seq!['8', ',', '0', '0', '0']);
    assert(program_hours_text() =~= "TOTAL HOURS REQUIRED: 8,000"@);
}

/// Every plan shows the hours of each category, printed from the table,
/// and the line of the program's hours.
pub proof fn lemma_plan_shows_hours(
    labels: Seq<Seq<char>>,
    month_year: Seq<char>,
    name_length: nat,
    upper_name: Seq<char>,
    index: int,
)
    requires
        0 <= index < CATEGORY_COUNT,
    ensures
        plan_model(labels, month_year, name_length, upper_name).contains(category_total(index)),
        category_total(index)->content == hours_label_text(hours_of(index)),
        plan_model(labels, month_year, name_length, upper_name).contains(program_hours_line()),
{
    let head = header_row() + legend_text() + form_fields(month_year) + introduction()
        + reminder();
    let tail = evaluation() + signature_block() + heading(name_length, upper_name);
    let table = category_table();
    let before = ruling() + date_column(labels);
    let rest = lettering(month_year, name_length, upper_name);
    assert(rest =~= head + table + tail);
    assert(category_footer()[1] == program_hours_line());
    lemma_blocks_hold_total(CATEGORY_COUNT as nat, index);
    lemma_contains_in_first(category_blocks(CATEGORY_COUNT as nat), category_footer(), category_total(index));
    lemma_contains_in_second(category_blocks(CATEGORY_COUNT as nat), category_footer(), program_hours_line());
    lemma_contains_in_second(head, table, category_total(index));
    lemma_contains_in_second(head, table, program_hours_line());
    lemma_contains_in_first(head + table, tail, category_total(index));
    lemma_contains_in_first(head + table, tail, program_hours_line());
    lemma_contains_in_second(before, rest, category_total(index));
    lemma_contains_in_second(before, rest, program_hours_line());
}

} // verus!
