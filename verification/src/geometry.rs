//! The unit of length and the anchor constants of the form.
//!
//! Every length is a whole number of ticks. A tick is one sixty-sixth of a
//! point, so that half points and thirty-thirds of the chart's height are
//! both exact. Lengths are held in `i128`: no formula of the layout can
//! overflow it, however many labels or characters it is given.

use vstd::prelude::*;

verus! {

/// Ticks in one point.
pub const POINT: i128 = 66;

/// Ticks in half a point.
pub const HALF_POINT: i128 = 33;

/// Width of the page: 612 points.
pub const PAGE_WIDTH: i128 = 612 * POINT;

/// Height of the page: 792 points.
pub const PAGE_HEIGHT: i128 = 792 * POINT;

/// Rows of the chart, the header row and the totals row included.
pub const CHART_ROWS: usize = 33;

/// Lettered columns of the chart.
pub const CHART_COLUMNS: usize = 7;

/// Left edge of the chart's outer rectangle: 50 points.
pub const CHART_OUTER_LEFT: i128 = 50 * POINT;

/// Bottom edge of the chart's outer rectangle: 210 points.
pub const CHART_OUTER_BOTTOM: i128 = 210 * POINT;

/// Right edge of the chart's outer rectangle: 300 points.
pub const CHART_OUTER_RIGHT: i128 = 300 * POINT;

/// Top edge of the chart's outer rectangle: 655 points.
pub const CHART_OUTER_TOP: i128 = 655 * POINT;

/// Left edge of the chart's inner rectangle: 51.5 points.
pub const CHART_INNER_LEFT: i128 = 103 * HALF_POINT;

/// Bottom edge of the chart's inner rectangle: 211.5 points.
pub const CHART_INNER_BOTTOM: i128 = 423 * HALF_POINT;

/// Right edge of the chart's inner rectangle: 298.5 points.
pub const CHART_INNER_RIGHT: i128 = 597 * HALF_POINT;

/// Top edge of the chart's inner rectangle: 653.5 points.
pub const CHART_INNER_TOP: i128 = 1307 * HALF_POINT;

/// Height of one chart row: a thirty-third of the inner rectangle's
/// height, which is 13 13/33 points.
pub const ROW_HEIGHT: i128 = 884;

/// Left edge of the lettered columns, where the date column ends: 98 points.
pub const COLUMNS_LEFT: i128 = 98 * POINT;

/// Width of one lettered column: 25 points.
pub const COLUMN_WIDTH: i128 = 25 * POINT;

/// Right edge of the lettered columns, where the totals column begins.
pub const COLUMNS_RIGHT: i128 = COLUMNS_LEFT + 7 * COLUMN_WIDTH;

/// Stroke of the frame and of the ordinary grid lines: half a point.
pub const STROKE_THIN: i128 = HALF_POINT;

/// Stroke of the column delimiters and of the underlines: one point.
pub const STROKE_MEDIUM: i128 = POINT;

/// Stroke of the header row's rules and of the legend box: 1.5 points.
pub const STROKE_BOLD: i128 = 3 * HALF_POINT;

/// Size of ordinary text: 9 points.
pub const SIZE_BODY: i128 = 9 * POINT;

/// Size of the day labels and of the date column's heading: 7.5 points.
pub const SIZE_DATE: i128 = 15 * HALF_POINT;

/// Size of the column letters in the header row: 10 points.
pub const SIZE_LETTER: i128 = 10 * POINT;

/// Size of the heading of the totals column: 6 points.
pub const SIZE_TOTAL_HEADING: i128 = 6 * POINT;

/// Size of the title: 15 points.
pub const SIZE_TITLE: i128 = 15 * POINT;

/// Where a day label starts: 53 points from the left.
pub const DATE_TEXT_X: i128 = 53 * POINT;

/// How far the first day label's baseline lies below the chart's inner
/// top: 22 points.
pub const DATE_FIRST_DROP: i128 = 22 * POINT;

/// How far the header row's baseline lies below the chart's inner top:
/// 9.5 points.
pub const HEADER_DROP: i128 = 19 * HALF_POINT;

/// Where the date column's heading starts: 64 points from the left.
pub const DAYS_HEADING_X: i128 = 64 * POINT;

/// Where the first column letter starts: 107 points from the left.
pub const FIRST_LETTER_X: i128 = 107 * POINT;

/// Where the heading of the totals column starts: 2 points right of the
/// lettered columns.
pub const TOTAL_HEADING_X: i128 = COLUMNS_RIGHT + 2 * POINT;

/// How far the totals heading's baseline lies below the chart's inner top:
/// 8 points.
pub const TOTAL_HEADING_DROP: i128 = 8 * POINT;

/// Where the label of the totals row starts: 40 points left of the
/// lettered columns.
pub const TOTAL_ROW_X: i128 = COLUMNS_LEFT - 40 * POINT;

/// How far the totals row's baseline lies above the chart's inner bottom:
/// 3 points.
pub const TOTAL_ROW_RISE: i128 = 3 * POINT;

/// Left edge of the text beside the chart, and of the legend box: 13
/// points right of the chart.
pub const SIDE_LEFT: i128 = CHART_OUTER_RIGHT + 13 * POINT;

/// Where the category descriptions start: 28 points right of the chart.
pub const DESCRIPTION_X: i128 = CHART_OUTER_RIGHT + 28 * POINT;

/// Where the category hours start: 62 points from the page's right edge.
pub const HOURS_X: i128 = PAGE_WIDTH - 62 * POINT;

/// Distance between the baselines of consecutive lines: 12 points.
pub const LEADING: i128 = 12 * POINT;

/// Extra distance between one category and the next: 18 points.
pub const CATEGORY_GAP: i128 = 18 * POINT;

/// How far the introduction's first baseline lies below the chart's inner
/// top: 8 points.
pub const INTRODUCTION_DROP: i128 = 8 * POINT;

/// How far the reminder's first baseline lies below the chart's inner top:
/// 90 points.
pub const REMINDER_DROP: i128 = 90 * POINT;

/// How far the first category's baseline lies below the chart's inner top:
/// 126 points.
pub const CATEGORIES_DROP: i128 = 126 * POINT;

/// Left end of the rule under the category hours: 520 points.
pub const HOURS_RULE_LEFT: i128 = 520 * POINT;

/// Right end of the rule under the category hours: 573 points.
pub const HOURS_RULE_RIGHT: i128 = 573 * POINT;

/// How far the rule lies below the last category's baseline: 13 points.
pub const HOURS_RULE_DROP: i128 = 13 * POINT;

/// Where the line of the program's hours starts: 182.5 points from the
/// page's right edge.
pub const PROGRAM_HOURS_X: i128 = PAGE_WIDTH - 365 * HALF_POINT;

/// How far the line of the program's hours lies below the last category's
/// baseline: 30 points.
pub const PROGRAM_HOURS_DROP: i128 = 30 * POINT;

/// Right edge of the legend box: 50 points from the page's right edge.
pub const LEGEND_RIGHT: i128 = PAGE_WIDTH - 50 * POINT;

/// Bottom edge of the legend box: level with the chart's outer bottom.
pub const LEGEND_BOTTOM: i128 = CHART_OUTER_BOTTOM;

/// Top edge of the legend box: 50 points above its bottom.
pub const LEGEND_TOP: i128 = CHART_OUTER_BOTTOM + 50 * POINT;

/// Where the legend's headline starts: 5 points inside the box.
pub const LEGEND_HEADLINE_X: i128 = SIDE_LEFT + 5 * POINT;

/// Baseline of the legend's headline: 10 points below the box's top.
pub const LEGEND_HEADLINE_Y: i128 = LEGEND_TOP - 10 * POINT;

/// Where the legend's two lines start: 50 points inside the box.
pub const LEGEND_TEXT_X: i128 = SIDE_LEFT + 50 * POINT;

/// Baseline of the legend's first line: 28 points below the box's top.
pub const LEGEND_FIRST_Y: i128 = LEGEND_TOP - 28 * POINT;

/// Baseline of the legend's second line: 40 points below the box's top.
pub const LEGEND_SECOND_Y: i128 = LEGEND_TOP - 40 * POINT;

/// Where the fields on the left start: 50 points from the left.
pub const FIELD_LEFT_X: i128 = 50 * POINT;

/// Where the fields on the right start: 350 points from the left.
pub const FIELD_RIGHT_X: i128 = 350 * POINT;

/// Baseline of the first row of fields: 695 points.
pub const FIELD_FIRST_Y: i128 = 695 * POINT;

/// Baseline of the second row of fields: 680 points.
pub const FIELD_SECOND_Y: i128 = 680 * POINT;

/// Baseline of the third row of fields: 665 points.
pub const FIELD_THIRD_Y: i128 = 665 * POINT;

/// How far a field's underline lies below its baseline: 3 points.
pub const UNDERLINE_DROP: i128 = 3 * POINT;

/// Left end of the underline for the apprentice's name: 130 points.
pub const NAME_RULE_LEFT: i128 = 130 * POINT;

/// Right end of the underline for the apprentice's name: 280 points.
pub const NAME_RULE_RIGHT: i128 = 280 * POINT;

/// Left end of the underline for the employer: 397 points.
pub const EMPLOYER_RULE_LEFT: i128 = 397 * POINT;

/// Right end of the underline for the employer: 550 points.
pub const EMPLOYER_RULE_RIGHT: i128 = 550 * POINT;

/// Where the choices after the wage field start: 115 points.
pub const WAGE_CHOICES_X: i128 = 115 * POINT;

/// Where the choices after the school year field start: 410 points.
pub const YEAR_CHOICES_X: i128 = 410 * POINT;

/// Where the month's value and its underline start: 110 points.
pub const MONTH_VALUE_X: i128 = 110 * POINT;

/// Right end of the underline for the month: 210 points.
pub const MONTH_RULE_RIGHT: i128 = 210 * POINT;

/// Where the evaluation's heading starts: 105 points left of the chart's
/// outer right edge.
pub const EVALUATION_X: i128 = CHART_OUTER_RIGHT - 105 * POINT;

/// Baseline of the evaluation's heading: 20 points below the chart.
pub const EVALUATION_Y: i128 = CHART_OUTER_BOTTOM - 20 * POINT;

/// Where the names of the rated qualities start: 30 points left of the
/// evaluation's heading.
pub const QUALITY_X: i128 = EVALUATION_X - 30 * POINT;

/// Where the choices of a rating start: 60 points right of the
/// evaluation's heading.
pub const RATING_CHOICES_X: i128 = EVALUATION_X + 60 * POINT;

/// Distance between the baselines of consecutive ratings: 18 points.
pub const RATING_STEP: i128 = 18 * POINT;

/// Baseline of the captions under the signature rules: 50 points.
pub const CAPTION_Y: i128 = 50 * POINT;

/// Height of the signature rules: 60 points.
pub const SIGNATURE_RULE_Y: i128 = 60 * POINT;

/// Where the caption of the signature starts: 80 points.
pub const SIGNATURE_CAPTION_X: i128 = 80 * POINT;

/// Where the caption of the signer's title starts: 340 points.
pub const TITLE_CAPTION_X: i128 = 340 * POINT;

/// Where the caption of the date starts: 490 points.
pub const DATE_CAPTION_X: i128 = 490 * POINT;

/// Left end of the signature rule: 50 points.
pub const SIGNATURE_RULE_LEFT: i128 = 50 * POINT;

/// Right end of the signature rule: 250 points.
pub const SIGNATURE_RULE_RIGHT: i128 = 250 * POINT;

/// Left end of the rule for the signer's title: 300 points.
pub const TITLE_RULE_LEFT: i128 = 300 * POINT;

/// Right end of the rule for the signer's title: 400 points.
pub const TITLE_RULE_RIGHT: i128 = 400 * POINT;

/// Left end of the rule for the date: 450 points.
pub const DATE_RULE_LEFT: i128 = 450 * POINT;

/// Right end of the rule for the date: 550 points.
pub const DATE_RULE_RIGHT: i128 = 550 * POINT;

/// Where the title starts: 233 points from the left.
pub const TITLE_X: i128 = 233 * POINT;

/// Baseline of the title: 50 points below the page's top.
pub const TITLE_Y: i128 = PAGE_HEIGHT - 50 * POINT;

/// Where the coordinator's line would start if the name were empty: 240
/// points from the left.
pub const RETURN_LINE_X: i128 = 240 * POINT;

/// How far each character of the coordinator's name moves the line to the
/// left: 3 points.
pub const RETURN_LINE_SHIFT: i128 = 3 * POINT;

/// Baseline of the coordinator's line: 65 points below the page's top.
pub const RETURN_LINE_Y: i128 = PAGE_HEIGHT - 65 * POINT;

/// The rows of the chart divide its inner height without remainder.
pub proof fn lemma_rows_fill_chart()
    ensures
        ROW_HEIGHT == (CHART_INNER_TOP - CHART_INNER_BOTTOM) / (CHART_ROWS as int),
        CHART_ROWS * ROW_HEIGHT == CHART_INNER_TOP - CHART_INNER_BOTTOM,
        COLUMNS_RIGHT == 273 * POINT,
{
}

} // verus!
