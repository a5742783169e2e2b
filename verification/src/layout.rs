//! The layout of the form: each part of the page as a sequence of
//! primitives, and the plan that puts the parts together.

use crate::categories::{
    CATEGORY_COUNT, DESCRIPTION_LINES, category_hours, category_letter, category_line_count,
    description_line, description_text, hours_before, hours_of, lemma_line_offsets,
    letter_text, line_count_of, lines_before, total_required_hours,
};
use crate::geometry::{
    CAPTION_Y, CATEGORIES_DROP, CATEGORY_GAP, CHART_COLUMNS, CHART_INNER_BOTTOM,
    CHART_INNER_LEFT, CHART_INNER_RIGHT, CHART_INNER_TOP, CHART_OUTER_BOTTOM, CHART_OUTER_LEFT,
    CHART_OUTER_RIGHT, CHART_OUTER_TOP, CHART_ROWS, COLUMNS_LEFT, COLUMN_WIDTH, DATE_CAPTION_X,
    DATE_FIRST_DROP, DATE_RULE_LEFT, DATE_RULE_RIGHT, DATE_TEXT_X, DAYS_HEADING_X,
    DESCRIPTION_X, EMPLOYER_RULE_LEFT, EMPLOYER_RULE_RIGHT, EVALUATION_X, EVALUATION_Y,
    FIELD_FIRST_Y, FIELD_LEFT_X, FIELD_RIGHT_X, FIELD_SECOND_Y, FIELD_THIRD_Y, FIRST_LETTER_X,
    HEADER_DROP, HOURS_RULE_DROP, HOURS_RULE_LEFT, HOURS_RULE_RIGHT, HOURS_X,
    INTRODUCTION_DROP, LEADING, LEGEND_BOTTOM, LEGEND_FIRST_Y, LEGEND_HEADLINE_X,
    LEGEND_HEADLINE_Y, LEGEND_RIGHT, LEGEND_SECOND_Y, LEGEND_TEXT_X, LEGEND_TOP,
    MONTH_RULE_RIGHT, MONTH_VALUE_X, NAME_RULE_LEFT, NAME_RULE_RIGHT, PAGE_HEIGHT, PAGE_WIDTH,
    PROGRAM_HOURS_DROP, PROGRAM_HOURS_X, QUALITY_X, RATING_CHOICES_X, RATING_STEP,
    REMINDER_DROP, RETURN_LINE_SHIFT, RETURN_LINE_X, RETURN_LINE_Y, ROW_HEIGHT, SIDE_LEFT,
    SIGNATURE_CAPTION_X, SIGNATURE_RULE_LEFT, SIGNATURE_RULE_RIGHT, SIGNATURE_RULE_Y,
    SIZE_BODY, SIZE_DATE, SIZE_LETTER, SIZE_TITLE, SIZE_TOTAL_HEADING, STROKE_BOLD,
    STROKE_MEDIUM, STROKE_THIN, TITLE_CAPTION_X, TITLE_RULE_LEFT, TITLE_RULE_RIGHT, TITLE_X,
    TITLE_Y, TOTAL_HEADING_DROP, TOTAL_HEADING_X, TOTAL_ROW_RISE, TOTAL_ROW_X, UNDERLINE_DROP,
    WAGE_CHOICES_X, YEAR_CHOICES_X,
};
use crate::primitive::{
    DrawingPlan, FillColor, FontWeight, PrimitiveModel, bold, filled, outline, regular, stroke,
};
use crate::text::{append_grouped_decimal, grouped_decimal, hours_label, hours_label_text};
use crate::wording::{
    APPRENTICE_NAME, COORDINATOR_SUFFIX, DAYS, EMPLOYER, EVALUATION, HOURLY_WAGE,
    INTRODUCTION_LINES, LEGEND_FIRST, LEGEND_HEADLINE, LEGEND_SECOND, MONTH_VALUE_PREFIX,
    OJT_MONTH, RATED_QUALITIES, RATING_CHOICES, REMINDER_LINES, RETURN_TO, SCHOOL_YEAR,
    SIGNATURE, SIGNER_TITLE, SIGNING_DATE, TITLE, TOTAL, TOTAL_HOURS_PREFIX, YEAR_CHOICES,
    introduction_line, introduction_text, quality, quality_text, reminder_line, reminder_text,
};
use vstd::prelude::*;
use vstd::string::*;

verus! {

/// The page frame: a centre line for folding, then the chart's outer and
/// inner rectangles.
pub open spec fn frame() -> Seq<PrimitiveModel> {
    seq![
        stroke(PAGE_WIDTH / 2, 0, PAGE_WIDTH / 2, PAGE_HEIGHT as int, STROKE_THIN as int),
        outline(
            CHART_OUTER_LEFT as int,
            CHART_OUTER_BOTTOM as int,
            CHART_OUTER_RIGHT as int,
            CHART_OUTER_TOP as int,
            STROKE_THIN as int,
        ),
        outline(
            CHART_INNER_LEFT as int,
            CHART_INNER_BOTTOM as int,
            CHART_INNER_RIGHT as int,
            CHART_INNER_TOP as int,
            STROKE_THIN as int,
        ),
    ]
}

/// The horizontal rule that lies `rows` rows above the chart's inner
/// bottom, across the whole chart.
pub open spec fn row_rule(rows: int, stroke_width: int) -> PrimitiveModel {
    stroke(
        CHART_INNER_LEFT as int,
        CHART_INNER_BOTTOM + rows * ROW_HEIGHT,
        CHART_INNER_RIGHT as int,
        CHART_INNER_BOTTOM + rows * ROW_HEIGHT,
        stroke_width,
    )
}

/// The vertical rule on the left of lettered column `column`, over the
/// whole height of the chart; column 7 gives the right edge of the last.
pub open spec fn column_rule(column: int, stroke_width: int) -> PrimitiveModel {
    stroke(
        COLUMNS_LEFT + column * COLUMN_WIDTH,
        CHART_INNER_BOTTOM as int,
        COLUMNS_LEFT + column * COLUMN_WIDTH,
        CHART_INNER_TOP as int,
        stroke_width,
    )
}

/// The thin horizontal rules: one at the top of each of the 33 rows.
pub open spec fn row_rules() -> Seq<PrimitiveModel> {
    Seq::new(CHART_ROWS as nat, |i: int| row_rule(i + 1, STROKE_THIN as int))
}

/// The thin vertical rules: one on the left of each lettered column.
pub open spec fn column_rules() -> Seq<PrimitiveModel> {
    Seq::new(CHART_COLUMNS as nat, |i: int| column_rule(i, STROKE_THIN as int))
}

/// The heavier rules: the two sides of the lettered columns, which part
/// them from the date column and from the totals column, and the two
/// edges of the header row, which is the topmost row.
pub open spec fn delimiters() -> Seq<PrimitiveModel> {
    seq![
        column_rule(CHART_COLUMNS as int, STROKE_MEDIUM as int),
        column_rule(0, STROKE_MEDIUM as int),
        row_rule(CHART_ROWS as int, STROKE_BOLD as int),
        row_rule(CHART_ROWS - 1, STROKE_BOLD as int),
    ]
}

/// The chart's grid.
pub open spec fn grid() -> Seq<PrimitiveModel> {
    row_rules() + column_rules() + delimiters()
}

/// The grey box of the legend.
pub open spec fn legend_box() -> Seq<PrimitiveModel> {
    seq![
        filled(
            SIDE_LEFT as int,
            LEGEND_BOTTOM as int,
            LEGEND_RIGHT as int,
            LEGEND_TOP as int,
            STROKE_BOLD as int,
            FillColor::LightGrey,
        ),
    ]
}

/// The day label in row `index` of the date column; rows count from 0 at
/// the top, below the header row.
pub open spec fn date_cell(index: int, label: Seq<char>) -> PrimitiveModel {
    regular(
        DATE_TEXT_X as int,
        CHART_INNER_TOP - DATE_FIRST_DROP - index * ROW_HEIGHT,
        label,
        SIZE_DATE as int,
    )
}

/// The date column: one cell for each label, from the top down. Rows
/// without a label stay empty.
pub open spec fn date_column(labels: Seq<Seq<char>>) -> Seq<PrimitiveModel> {
    Seq::new(labels.len(), |i: int| date_cell(i, labels[i]))
}

/// The letter that heads lettered column `column`.
pub open spec fn column_letter(column: int) -> PrimitiveModel {
    bold(
        FIRST_LETTER_X + column * COLUMN_WIDTH,
        CHART_INNER_TOP - HEADER_DROP,
        letter_text(column),
        SIZE_LETTER as int,
    )
}

/// The letters that head the lettered columns.
pub open spec fn column_letters() -> Seq<PrimitiveModel> {
    Seq::new(CHART_COLUMNS as nat, |i: int| column_letter(i))
}

/// The text of the header row, and the label of the totals row at the
/// chart's foot.
pub open spec fn header_row() -> Seq<PrimitiveModel> {
    seq![bold(DAYS_HEADING_X as int, CHART_INNER_TOP - HEADER_DROP, DAYS@, SIZE_DATE as int)]
        + column_letters() + seq![
        bold(
            TOTAL_HEADING_X as int,
            CHART_INNER_TOP - TOTAL_HEADING_DROP,
            TOTAL@,
            SIZE_TOTAL_HEADING as int,
        ),
        bold(TOTAL_ROW_X as int, CHART_INNER_BOTTOM + TOTAL_ROW_RISE, TOTAL@, SIZE_BODY as int),
    ]
}

/// The wording inside the legend box.
pub open spec fn legend_text() -> Seq<PrimitiveModel> {
    seq![
        bold(LEGEND_HEADLINE_X as int, LEGEND_HEADLINE_Y as int, LEGEND_HEADLINE@, SIZE_BODY as int),
        regular(LEGEND_TEXT_X as int, LEGEND_FIRST_Y as int, LEGEND_FIRST@, SIZE_BODY as int),
        regular(LEGEND_TEXT_X as int, LEGEND_SECOND_Y as int, LEGEND_SECOND@, SIZE_BODY as int),
    ]
}

/// The underline of a field: a rule a little below the field's baseline.
pub open spec fn underline(left: int, right: int, baseline: int) -> PrimitiveModel {
    stroke(left, baseline - UNDERLINE_DROP, right, baseline - UNDERLINE_DROP, STROKE_MEDIUM as int)
}

/// The fields at the head of the form. Each is a bold label with an
/// underline to write on, with choices to tick, or, for the month of the
/// form, with its value `month_year` above an underline.
pub open spec fn form_fields(month_year: Seq<char>) -> Seq<PrimitiveModel> {
    seq![
        bold(FIELD_LEFT_X as int, FIELD_FIRST_Y as int, APPRENTICE_NAME@, SIZE_BODY as int),
        underline(NAME_RULE_LEFT as int, NAME_RULE_RIGHT as int, FIELD_FIRST_Y as int),
        bold(FIELD_RIGHT_X as int, FIELD_FIRST_Y as int, EMPLOYER@, SIZE_BODY as int),
        underline(EMPLOYER_RULE_LEFT as int, EMPLOYER_RULE_RIGHT as int, FIELD_FIRST_Y as int),
        bold(FIELD_LEFT_X as int, FIELD_SECOND_Y as int, HOURLY_WAGE@, SIZE_BODY as int),
        regular(WAGE_CHOICES_X as int, FIELD_SECOND_Y as int, RATING_CHOICES@, SIZE_BODY as int),
        bold(FIELD_RIGHT_X as int, FIELD_SECOND_Y as int, SCHOOL_YEAR@, SIZE_BODY as int),
        regular(YEAR_CHOICES_X as int, FIELD_SECOND_Y as int, YEAR_CHOICES@, SIZE_BODY as int),
        bold(FIELD_LEFT_X as int, FIELD_THIRD_Y as int, OJT_MONTH@, SIZE_BODY as int),
        regular(
            MONTH_VALUE_X as int,
            FIELD_THIRD_Y as int,
            MONTH_VALUE_PREFIX@ + month_year,
            SIZE_BODY as int,
        ),
        underline(MONTH_VALUE_X as int, MONTH_RULE_RIGHT as int, FIELD_THIRD_Y as int),
    ]
}

/// A line of running text beside the chart, `line` lines below the
/// baseline that lies `drop` under the chart's inner top.
pub open spec fn side_line(drop: int, line: int, content: Seq<char>) -> PrimitiveModel {
    regular(SIDE_LEFT as int, CHART_INNER_TOP - drop - line * LEADING, content, SIZE_BODY as int)
}

/// The introduction beside the chart.
pub open spec fn introduction() -> Seq<PrimitiveModel> {
    Seq::new(
        INTRODUCTION_LINES as nat,
        |i: int| side_line(INTRODUCTION_DROP as int, i, introduction_text(i)),
    )
}

/// The reminder under the introduction.
pub open spec fn reminder() -> Seq<PrimitiveModel> {
    Seq::new(REMINDER_LINES as nat, |i: int| side_line(REMINDER_DROP as int, i, reminder_text(i)))
}

/// The baseline of line `line` of the description of category `index`.
/// Every category before it has moved it down by a gap and by a line for
/// each line of its description.
pub open spec fn category_baseline(index: int, line: int) -> int {
    CHART_INNER_TOP - CATEGORIES_DROP - index * CATEGORY_GAP - (lines_before(index as nat) + line)
        * LEADING
}

/// The letter of category `index`, level with the first line of its
/// description.
pub open spec fn category_heading(index: int) -> PrimitiveModel {
    bold(SIDE_LEFT as int, category_baseline(index, 0), letter_text(index), SIZE_BODY as int)
}

/// Line `line` of the description of category `index`.
pub open spec fn category_line(index: int, line: int) -> PrimitiveModel {
    regular(
        DESCRIPTION_X as int,
        category_baseline(index, line),
        description_text(lines_before(index as nat) + line),
        SIZE_BODY as int,
    )
}

/// The hours of category `index`, level with the last line of its
/// description.
pub open spec fn category_total(index: int) -> PrimitiveModel {
    regular(
        HOURS_X as int,
        category_baseline(index, line_count_of(index) - 1),
        hours_label_text(hours_of(index)),
        SIZE_BODY as int,
    )
}

/// The lines of the description of category `index`.
pub open spec fn category_lines(index: int) -> Seq<PrimitiveModel> {
    Seq::new(line_count_of(index), |line: int| category_line(index, line))
}

/// Category `index`: its letter, its description, its hours.
pub open spec fn category_block(index: int) -> Seq<PrimitiveModel> {
    seq![category_heading(index)] + category_lines(index) + seq![category_total(index)]
}

/// The first `count` categories, one under the other.
pub open spec fn category_blocks(count: nat) -> Seq<PrimitiveModel>
    decreases count,
{
    if count == 0 {
        Seq::empty()
    } else {
        category_blocks((count - 1) as nat) + category_block(count - 1)
    }
}

/// The baseline of the last line of the last category's description.
pub open spec fn last_category_baseline() -> int {
    category_baseline(CATEGORY_COUNT - 1, line_count_of(CATEGORY_COUNT - 1) - 1)
}

/// The line that states the hours of the whole program: the sum of the
/// hours of the categories.
pub open spec fn program_hours_text() -> Seq<char> {
    TOTAL_HOURS_PREFIX@ + grouped_decimal(hours_before(CATEGORY_COUNT as nat))
}

/// What closes the category table: a rule under the column of hours, and
/// the hours of the program.
pub open spec fn category_footer() -> Seq<PrimitiveModel> {
    seq![
        stroke(
            HOURS_RULE_LEFT as int,
            last_category_baseline() - HOURS_RULE_DROP,
            HOURS_RULE_RIGHT as int,
            last_category_baseline() - HOURS_RULE_DROP,
            STROKE_MEDIUM as int,
        ),
        bold(
            PROGRAM_HOURS_X as int,
            last_category_baseline() - PROGRAM_HOURS_DROP,
            program_hours_text(),
            SIZE_BODY as int,
        ),
    ]
}

/// The table that explains the categories.
pub open spec fn category_table() -> Seq<PrimitiveModel> {
    category_blocks(CATEGORY_COUNT as nat) + category_footer()
}

/// The baseline of rating `index`.
pub open spec fn rating_baseline(index: int) -> int {
    EVALUATION_Y - (index + 1) * RATING_STEP
}

/// Rating `index`: the name of the quality, then the choices to tick.
pub open spec fn rating(index: int) -> Seq<PrimitiveModel> {
    seq![
        bold(QUALITY_X as int, rating_baseline(index), quality_text(index), SIZE_BODY as int),
        regular(RATING_CHOICES_X as int, rating_baseline(index), RATING_CHOICES@, SIZE_BODY as int),
    ]
}

/// The first `count` ratings.
pub open spec fn ratings(count: nat) -> Seq<PrimitiveModel>
    decreases count,
{
    if count == 0 {
        Seq::empty()
    } else {
        ratings((count - 1) as nat) + rating(count - 1)
    }
}

/// The evaluation section: its heading and the ratings.
pub open spec fn evaluation() -> Seq<PrimitiveModel> {
    seq![bold(EVALUATION_X as int, EVALUATION_Y as int, EVALUATION@, SIZE_BODY as int)] + ratings(
        RATED_QUALITIES as nat,
    )
}

/// The signature block at the foot of the page: three captions, then the
/// three rules above them.
pub open spec fn signature_block() -> Seq<PrimitiveModel> {
    seq![
        bold(SIGNATURE_CAPTION_X as int, CAPTION_Y as int, SIGNATURE@, SIZE_BODY as int),
        bold(TITLE_CAPTION_X as int, CAPTION_Y as int, SIGNER_TITLE@, SIZE_BODY as int),
        bold(DATE_CAPTION_X as int, CAPTION_Y as int, SIGNING_DATE@, SIZE_BODY as int),
        stroke(
            SIGNATURE_RULE_LEFT as int,
            SIGNATURE_RULE_Y as int,
            SIGNATURE_RULE_RIGHT as int,
            SIGNATURE_RULE_Y as int,
            STROKE_MEDIUM as int,
        ),
        stroke(
            TITLE_RULE_LEFT as int,
            SIGNATURE_RULE_Y as int,
            TITLE_RULE_RIGHT as int,
            SIGNATURE_RULE_Y as int,
            STROKE_MEDIUM as int,
        ),
        stroke(
            DATE_RULE_LEFT as int,
            SIGNATURE_RULE_Y as int,
            DATE_RULE_RIGHT as int,
            SIGNATURE_RULE_Y as int,
            STROKE_MEDIUM as int,
        ),
    ]
}

/// The text of the line that says whom the form goes back to.
pub open spec fn return_line_text(upper_name: Seq<char>) -> Seq<char> {
    RETURN_TO@ + upper_name + COORDINATOR_SUFFIX@
}

/// Where the coordinator's line starts. Each character of the name moves
/// it to the left, which centres the line roughly and without measuring
/// the text.
pub open spec fn return_line_x(name_length: nat) -> int {
    RETURN_LINE_X - name_length * RETURN_LINE_SHIFT
}

/// The head of the page: the title and the coordinator's line.
pub open spec fn heading(name_length: nat, upper_name: Seq<char>) -> Seq<PrimitiveModel> {
    seq![
        bold(TITLE_X as int, TITLE_Y as int, TITLE@, SIZE_TITLE as int),
        bold(
            return_line_x(name_length),
            RETURN_LINE_Y as int,
            return_line_text(upper_name),
            SIZE_BODY as int,
        ),
    ]
}

/// What is drawn under all text: the frame, the grid and the legend's box.
pub open spec fn ruling() -> Seq<PrimitiveModel> {
    frame() + grid() + legend_box()
}

/// What is drawn after the date column: the text that is the same on every
/// form but for the month and the coordinator's name, with the rules that
/// belong to it.
pub open spec fn lettering(
    month_year: Seq<char>,
    name_length: nat,
    upper_name: Seq<char>,
) -> Seq<PrimitiveModel> {
    header_row() + legend_text() + form_fields(month_year) + introduction() + reminder()
        + category_table() + evaluation() + signature_block() + heading(name_length, upper_name)
}

/// The whole plan of a form, in drawing order: the ruling, the date
/// column, the lettering.
///
/// `labels` are the day labels of the month, `month_year` is the month in
/// words, `name_length` is the number of characters of the coordinator's
/// name and `upper_name` is that name in upper case.
pub open spec fn plan_model(
    labels: Seq<Seq<char>>,
    month_year: Seq<char>,
    name_length: nat,
    upper_name: Seq<char>,
) -> Seq<PrimitiveModel> {
    ruling() + date_column(labels) + lettering(month_year, name_length, upper_name)
}

fn draw_frame(plan: &mut DrawingPlan)
    ensures
        final(plan)@ == old(plan)@ + frame(),
{
    plan.line(PAGE_WIDTH / 2, 0, PAGE_WIDTH / 2, PAGE_HEIGHT, STROKE_THIN);
    plan.rect(
        CHART_OUTER_LEFT,
        CHART_OUTER_BOTTOM,
        CHART_OUTER_RIGHT,
        CHART_OUTER_TOP,
        STROKE_THIN,
        None,
    );
    plan.rect(
        CHART_INNER_LEFT,
        CHART_INNER_BOTTOM,
        CHART_INNER_RIGHT,
        CHART_INNER_TOP,
        STROKE_THIN,
        None,
    );
    assert(plan@ =~= old(plan)@ + frame());
}

fn draw_row_rule(plan: &mut DrawingPlan, rows: usize, stroke_width: i128)
    requires
        rows <= CHART_ROWS,
    ensures
        final(plan)@ == old(plan)@.push(row_rule(rows as int, stroke_width as int)),
{
    let y: i128 = CHART_INNER_BOTTOM + (rows as i128) * ROW_HEIGHT;
    plan.line(CHART_INNER_LEFT, y, CHART_INNER_RIGHT, y, stroke_width);
}

fn draw_column_rule(plan: &mut DrawingPlan, column: usize, stroke_width: i128)
    requires
        column <= CHART_COLUMNS,
    ensures
        final(plan)@ == old(plan)@.push(column_rule(column as int, stroke_width as int)),
{
    let x: i128 = COLUMNS_LEFT + (column as i128) * COLUMN_WIDTH;
    plan.line(x, CHART_INNER_BOTTOM, x, CHART_INNER_TOP, stroke_width);
}

fn draw_grid(plan: &mut DrawingPlan)
    ensures
        final(plan)@ == old(plan)@ + grid(),
{
    let mut row: usize = 0;
    while row < CHART_ROWS
        invariant
            row <= CHART_ROWS,
            plan@ == old(plan)@ + row_rules().take(row as int),
        decreases CHART_ROWS - row,
    {
        draw_row_rule(plan, row + 1, STROKE_THIN);
        assert(row_rules().take(row + 1) =~= row_rules().take(row as int).push(
            row_rule(row + 1, STROKE_THIN as int),
        ));
        row = row + 1;
    }
    assert(row_rules().take(CHART_ROWS as int) =~= row_rules());
    let ghost ruled = plan@;
    let mut column: usize = 0;
    while column < CHART_COLUMNS
        invariant
            column <= CHART_COLUMNS,
            plan@ == ruled + column_rules().take(column as int),
        decreases CHART_COLUMNS - column,
    {
        draw_column_rule(plan, column, STROKE_THIN);
        assert(column_rules().take(column + 1) =~= column_rules().take(column as int).push(
            column_rule(column as int, STROKE_THIN as int),
        ));
        column = column + 1;
    }
    assert(column_rules().take(CHART_COLUMNS as int) =~= column_rules());
    draw_column_rule(plan, CHART_COLUMNS, STROKE_MEDIUM);
    draw_column_rule(plan, 0, STROKE_MEDIUM);
    draw_row_rule(plan, CHART_ROWS, STROKE_BOLD);
    draw_row_rule(plan, CHART_ROWS - 1, STROKE_BOLD);
    assert(plan@ =~= old(plan)@ + grid());
}

fn draw_legend_box(plan: &mut DrawingPlan)
    ensures
        final(plan)@ == old(plan)@ + legend_box(),
{
    plan.rect(
        SIDE_LEFT,
        LEGEND_BOTTOM,
        LEGEND_RIGHT,
        LEGEND_TOP,
        STROKE_BOLD,
        Some(FillColor::LightGrey),
    );
    assert(plan@ =~= old(plan)@ + legend_box());
}

fn draw_date_column(plan: &mut DrawingPlan, labels: &Vec<String>)
    ensures
        final(plan)@ == old(plan)@ + date_column(labels.deep_view()),
{
    let ghost cells = date_column(labels.deep_view());
    let mut index: usize = 0;
    while index < labels.len()
        invariant
            index <= labels.len(),
            cells == date_column(labels.deep_view()),
            plan@ == old(plan)@ + cells.take(index as int),
        decreases labels.len() - index,
    {
        let y: i128 = CHART_INNER_TOP - DATE_FIRST_DROP - (index as i128) * ROW_HEIGHT;
        plan.text(DATE_TEXT_X, y, labels[index].clone(), FontWeight::Regular, SIZE_DATE);
        assert(cells.take(index + 1) =~= cells.take(index as int).push(
            date_cell(index as int, labels.deep_view()[index as int]),
        ));
        index = index + 1;
    }
    assert(cells.take(labels.len() as int) =~= cells);
}

fn draw_header_row(plan: &mut DrawingPlan)
    ensures
        final(plan)@ == old(plan)@ + header_row(),
{
    plan.text(
        DAYS_HEADING_X,
        CHART_INNER_TOP - HEADER_DROP,
        String::from_str(DAYS),
        FontWeight::Bold,
        SIZE_DATE,
    );
    let ghost headed = plan@;
    let mut column: usize = 0;
    while column < CHART_COLUMNS
        invariant
            column <= CHART_COLUMNS,
            plan@ == headed + column_letters().take(column as int),
        decreases CHART_COLUMNS - column,
    {
        plan.text(
            FIRST_LETTER_X + (column as i128) * COLUMN_WIDTH,
            CHART_INNER_TOP - HEADER_DROP,
            String::from_str(category_letter(column)),
            FontWeight::Bold,
            SIZE_LETTER,
        );
        assert(column_letters().take(column + 1) =~= column_letters().take(column as int).push(
            column_letter(column as int),
        ));
        column = column + 1;
    }
    assert(column_letters().take(CHART_COLUMNS as int) =~= column_letters());
    plan.text(
        TOTAL_HEADING_X,
        CHART_INNER_TOP - TOTAL_HEADING_DROP,
        String::from_str(TOTAL),
        FontWeight::Bold,
        SIZE_TOTAL_HEADING,
    );
    plan.text(
        TOTAL_ROW_X,
        CHART_INNER_BOTTOM + TOTAL_ROW_RISE,
        String::from_str(TOTAL),
        FontWeight::Bold,
        SIZE_BODY,
    );
    assert(plan@ =~= old(plan)@ + header_row());
}

fn draw_legend_text(plan: &mut DrawingPlan)
    ensures
        final(plan)@ == old(plan)@ + legend_text(),
{
    plan.text(
        LEGEND_HEADLINE_X,
        LEGEND_HEADLINE_Y,
        String::from_str(LEGEND_HEADLINE),
        FontWeight::Bold,
        SIZE_BODY,
    );
    plan.text(
        LEGEND_TEXT_X,
        LEGEND_FIRST_Y,
        String::from_str(LEGEND_FIRST),
        FontWeight::Regular,
        SIZE_BODY,
    );
    plan.text(
        LEGEND_TEXT_X,
        LEGEND_SECOND_Y,
        String::from_str(LEGEND_SECOND),
        FontWeight::Regular,
        SIZE_BODY,
    );
    assert(plan@ =~= old(plan)@ + legend_text());
}

fn draw_label(plan: &mut DrawingPlan, x: i128, y: i128, content: &str)
    ensures
        final(plan)@ == old(plan)@.push(bold(x as int, y as int, content@, SIZE_BODY as int)),
{
    plan.text(x, y, String::from_str(content), FontWeight::Bold, SIZE_BODY);
}

fn draw_body(plan: &mut DrawingPlan, x: i128, y: i128, content: &str)
    ensures
        final(plan)@ == old(plan)@.push(regular(x as int, y as int, content@, SIZE_BODY as int)),
{
    plan.text(x, y, String::from_str(content), FontWeight::Regular, SIZE_BODY);
}

fn draw_underline(plan: &mut DrawingPlan, left: i128, right: i128, baseline: i128)
    requires
        0 <= baseline <= PAGE_HEIGHT,
    ensures
        final(plan)@ == old(plan)@.push(underline(left as int, right as int, baseline as int)),
{
    plan.line(left, baseline - UNDERLINE_DROP, right, baseline - UNDERLINE_DROP, STROKE_MEDIUM);
}

fn draw_form_fields(plan: &mut DrawingPlan, month_year: &str)
    ensures
        final(plan)@ == old(plan)@ + form_fields(month_year@),
{
    draw_label(plan, FIELD_LEFT_X, FIELD_FIRST_Y, APPRENTICE_NAME);
    draw_underline(plan, NAME_RULE_LEFT, NAME_RULE_RIGHT, FIELD_FIRST_Y);
    draw_label(plan, FIELD_RIGHT_X, FIELD_FIRST_Y, EMPLOYER);
    draw_underline(plan, EMPLOYER_RULE_LEFT, EMPLOYER_RULE_RIGHT, FIELD_FIRST_Y);
    draw_label(plan, FIELD_LEFT_X, FIELD_SECOND_Y, HOURLY_WAGE);
    draw_body(plan, WAGE_CHOICES_X, FIELD_SECOND_Y, RATING_CHOICES);
    draw_label(plan, FIELD_RIGHT_X, FIELD_SECOND_Y, SCHOOL_YEAR);
    draw_body(plan, YEAR_CHOICES_X, FIELD_SECOND_Y, YEAR_CHOICES);
    draw_label(plan, FIELD_LEFT_X, FIELD_THIRD_Y, OJT_MONTH);
    let mut value = String::from_str(MONTH_VALUE_PREFIX);
    value.append(month_year);
    plan.text(MONTH_VALUE_X, FIELD_THIRD_Y, value, FontWeight::Regular, SIZE_BODY);
    draw_underline(plan, MONTH_VALUE_X, MONTH_RULE_RIGHT, FIELD_THIRD_Y);
    assert(plan@ =~= old(plan)@ + form_fields(month_year@));
}

fn draw_side_line(plan: &mut DrawingPlan, drop: i128, line: usize, content: &str)
    requires
        0 <= drop <= CHART_INNER_TOP,
        line <= DESCRIPTION_LINES,
    ensures
        final(plan)@ == old(plan)@.push(side_line(drop as int, line as int, content@)),
{
    draw_body(plan, SIDE_LEFT, CHART_INNER_TOP - drop - (line as i128) * LEADING, content);
}

fn draw_introduction(plan: &mut DrawingPlan)
    ensures
        final(plan)@ == old(plan)@ + introduction() + reminder(),
{
    let mut line: usize = 0;
    while line < INTRODUCTION_LINES
        invariant
            line <= INTRODUCTION_LINES,
            plan@ == old(plan)@ + introduction().take(line as int),
        decreases INTRODUCTION_LINES - line,
    {
        draw_side_line(plan, INTRODUCTION_DROP, line, introduction_line(line));
        assert(introduction().take(line + 1) =~= introduction().take(line as int).push(
            side_line(INTRODUCTION_DROP as int, line as int, introduction_text(line as int)),
        ));
        line = line + 1;
    }
    assert(introduction().take(INTRODUCTION_LINES as int) =~= introduction());
    let ghost introduced = plan@;
    let mut line: usize = 0;
    while line < REMINDER_LINES
        invariant
            line <= REMINDER_LINES,
            plan@ == introduced + reminder().take(line as int),
        decreases REMINDER_LINES - line,
    {
        draw_side_line(plan, REMINDER_DROP, line, reminder_line(line));
        assert(reminder().take(line + 1) =~= reminder().take(line as int).push(
            side_line(REMINDER_DROP as int, line as int, reminder_text(line as int)),
        ));
        line = line + 1;
    }
    assert(reminder().take(REMINDER_LINES as int) =~= reminder());
}

fn draw_category_table(plan: &mut DrawingPlan)
    ensures
        final(plan)@ == old(plan)@ + category_table(),
{
    let mut offset: usize = 0;
    let mut last: i128 = 0;
    let mut index: usize = 0;
    while index < CATEGORY_COUNT
        invariant
            index <= CATEGORY_COUNT,
            offset == lines_before(index as nat),
            offset <= DESCRIPTION_LINES,
            index > 0 ==> last == category_baseline(index - 1, line_count_of(index - 1) - 1),
            plan@ == old(plan)@ + category_blocks(index as nat),
        decreases CATEGORY_COUNT - index,
    {
        let count = category_line_count(index);
        proof {
            lemma_line_offsets();
        }
        let top: i128 = CHART_INNER_TOP - CATEGORIES_DROP - (index as i128) * CATEGORY_GAP
            - (offset as i128) * LEADING;
        draw_label(plan, SIDE_LEFT, top, category_letter(index));
        let ghost headed = plan@;
        let mut line: usize = 0;
        while line < count
            invariant
                index < CATEGORY_COUNT,
                line <= count,
                count == line_count_of(index as int),
                offset == lines_before(index as nat),
                offset + count <= DESCRIPTION_LINES,
                top == category_baseline(index as int, 0),
                line > 0 ==> last == category_baseline(index as int, line - 1),
                plan@ == headed + category_lines(index as int).take(line as int),
            decreases count - line,
        {
            let y: i128 = top - (line as i128) * LEADING;
            draw_body(plan, DESCRIPTION_X, y, description_line(offset + line));
            assert(category_lines(index as int).take(line + 1) =~= category_lines(
                index as int,
            ).take(line as int).push(category_line(index as int, line as int)));
            last = y;
            line = line + 1;
        }
        assert(category_lines(index as int).take(count as int) =~= category_lines(index as int));
        plan.text(HOURS_X, last, hours_label(category_hours(index)), FontWeight::Regular, SIZE_BODY);
        assert(plan@ =~= old(plan)@ + category_blocks((index + 1) as nat)) by {
            assert(plan@ =~= old(plan)@ + category_blocks(index as nat) + category_block(
                index as int,
            ));
        }
        offset = offset + count;
        index = index + 1;
    }
    plan.line(
        HOURS_RULE_LEFT,
        last - HOURS_RULE_DROP,
        HOURS_RULE_RIGHT,
        last - HOURS_RULE_DROP,
        STROKE_MEDIUM,
    );
    let mut total = String::from_str(TOTAL_HOURS_PREFIX);
    append_grouped_decimal(&mut total, total_required_hours() as u64);
    plan.text(PROGRAM_HOURS_X, last - PROGRAM_HOURS_DROP, total, FontWeight::Bold, SIZE_BODY);
    assert(plan@ =~= old(plan)@ + category_table());
}

fn draw_evaluation(plan: &mut DrawingPlan)
    ensures
        final(plan)@ == old(plan)@ + evaluation(),
{
    draw_label(plan, EVALUATION_X, EVALUATION_Y, EVALUATION);
    let ghost headed = plan@;
    let mut index: usize = 0;
    while index < RATED_QUALITIES
        invariant
            index <= RATED_QUALITIES,
            plan@ == headed + ratings(index as nat),
        decreases RATED_QUALITIES - index,
    {
        let y: i128 = EVALUATION_Y - ((index as i128) + 1) * RATING_STEP;
        draw_label(plan, QUALITY_X, y, quality(index));
        draw_body(plan, RATING_CHOICES_X, y, RATING_CHOICES);
        assert(plan@ =~= headed + ratings(index as nat) + rating(index as int));
        index = index + 1;
    }
    assert(plan@ =~= old(plan)@ + evaluation());
}

fn draw_signature_block(plan: &mut DrawingPlan)
    ensures
        final(plan)@ == old(plan)@ + signature_block(),
{
    draw_label(plan, SIGNATURE_CAPTION_X, CAPTION_Y, SIGNATURE);
    draw_label(plan, TITLE_CAPTION_X, CAPTION_Y, SIGNER_TITLE);
    draw_label(plan, DATE_CAPTION_X, CAPTION_Y, SIGNING_DATE);
    plan.line(
        SIGNATURE_RULE_LEFT,
        SIGNATURE_RULE_Y,
        SIGNATURE_RULE_RIGHT,
        SIGNATURE_RULE_Y,
        STROKE_MEDIUM,
    );
    plan.line(TITLE_RULE_LEFT, SIGNATURE_RULE_Y, TITLE_RULE_RIGHT, SIGNATURE_RULE_Y, STROKE_MEDIUM);
    plan.line(DATE_RULE_LEFT, SIGNATURE_RULE_Y, DATE_RULE_RIGHT, SIGNATURE_RULE_Y, STROKE_MEDIUM);
    assert(plan@ =~= old(plan)@ + signature_block());
}

fn draw_heading(plan: &mut DrawingPlan, name_length: usize, upper_name: &str)
    ensures
        final(plan)@ == old(plan)@ + heading(name_length as nat, upper_name@),
{
    plan.text(TITLE_X, TITLE_Y, String::from_str(TITLE), FontWeight::Bold, SIZE_TITLE);
    let mut line = String::from_str(RETURN_TO);
    line.append(upper_name);
    line.append(COORDINATOR_SUFFIX);
    plan.text(
        RETURN_LINE_X - (name_length as i128) * RETURN_LINE_SHIFT,
        RETURN_LINE_Y,
        line,
        FontWeight::Bold,
        SIZE_BODY,
    );
    assert(plan@ =~= old(plan)@ + heading(name_length as nat, upper_name@));
}

/// Lays out a form from its variable parts: the day labels of the month,
/// the month in words, the number of characters of the coordinator's name
/// and that name in upper case. Labels beyond the chart's rows are drawn
/// below it, so a caller passes at most `CHART_ROWS` of them.
pub fn compose_plan(
    labels: &Vec<String>,
    month_year: &str,
    name_length: usize,
    upper_name: &str,
) -> (plan: DrawingPlan)
    ensures
        plan@ == plan_model(labels.deep_view(), month_year@, name_length as nat, upper_name@),
{
    let mut plan = DrawingPlan::new();
    draw_frame(&mut plan);
    draw_grid(&mut plan);
    draw_legend_box(&mut plan);
    draw_date_column(&mut plan, labels);
    draw_header_row(&mut plan);
    draw_legend_text(&mut plan);
    draw_form_fields(&mut plan, month_year);
    draw_introduction(&mut plan);
    draw_category_table(&mut plan);
    draw_evaluation(&mut plan);
    draw_signature_block(&mut plan);
    draw_heading(&mut plan, name_length, upper_name);
    assert(plan@ =~= plan_model(
        labels.deep_view(),
        month_year@,
        name_length as nat,
        upper_name@,
    ));
    plan
}

} // verus!
