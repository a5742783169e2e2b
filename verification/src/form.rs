//! A form from its parameters: the month and the coordinator's name.

use crate::calendar::{
    CalendarError, days_in_month, generate_date_strings, month_is_representable, month_labels,
};
use crate::geometry::CHART_ROWS;
use crate::layout::{compose_plan, date_column, plan_model};
use crate::primitive::{DrawingPlan, PrimitiveModel};
use crate::structure::{date_cells, lemma_date_cells_of_plan};
use crate::text::{generate_monthyear, month_year_text, uppercase};
use vstd::prelude::*;
use vstd::string::*;

verus! {

/// What one form is made for.
#[derive(Debug, Clone, PartialEq, Eq)]
pub struct FormParameters {
    /// The year of the month that the form records.
    pub year: i32,
    /// The month that the form records; 1 is January.
    pub month: u32,
    /// The name of the coordinator to whom the form is returned.
    pub coordinator: String,
}

/// The plan of the form for `year`-`month` and a coordinator's name.
pub open spec fn form_plan(year: int, month: int, coordinator: Seq<char>) -> Seq<PrimitiveModel> {
    plan_model(
        month_labels(year, month),
        month_year_text(year, month),
        coordinator.len(),
        uppercase(coordinator),
    )
}

/// What `build_plan` returns for given parameters: the plan of the form
/// when the month can be enumerated, and `InvalidCalendarInput` with the
/// offending year and month when it cannot.
pub open spec fn is_plan_of(
    parameters: FormParameters,
    result: Result<DrawingPlan, CalendarError>,
) -> bool {
    match result {
        Ok(plan) => {
            &&& month_is_representable(parameters.year as int, parameters.month as int)
            &&& plan@ == form_plan(
                parameters.year as int,
                parameters.month as int,
                parameters.coordinator@,
            )
        },
        Err(error) => {
            &&& !month_is_representable(parameters.year as int, parameters.month as int)
            &&& error == (CalendarError::InvalidCalendarInput {
                year: parameters.year,
                month: parameters.month,
            })
        },
    }
}

/// Lays out the form for the given parameters.
pub fn build_plan(parameters: &FormParameters) -> (result: Result<DrawingPlan, CalendarError>)
    ensures
        is_plan_of(*parameters, result),
{
    let labels = match generate_date_strings(parameters.year, parameters.month) {
        Ok(labels) => labels,
        Err(error) => {
            return Err(error);
        },
    };
    let month_year = generate_monthyear(parameters.year, parameters.month);
    let name = parameters.coordinator.as_str();
    let upper_name = name.to_uppercase();
    let name_length = name.unicode_len();
    Ok(compose_plan(&labels, month_year.as_str(), name_length, upper_name.as_str()))
}

/// Laying out a form is a function of its parameters: two results for the
/// same year, month and name are the same, primitive for primitive, and
/// two failures carry the same error.
pub proof fn lemma_build_plan_is_a_function(
    first_parameters: FormParameters,
    second_parameters: FormParameters,
    first: Result<DrawingPlan, CalendarError>,
    second: Result<DrawingPlan, CalendarError>,
)
    requires
        first_parameters.year == second_parameters.year,
        first_parameters.month == second_parameters.month,
        first_parameters.coordinator@ == second_parameters.coordinator@,
        is_plan_of(first_parameters, first),
        is_plan_of(second_parameters, second),
    ensures
        first is Ok <==> second is Ok,
        first matches Ok(one) ==> second matches Ok(other) && one@ == other@,
        first matches Err(one) ==> second matches Err(other) && one == other,
{
}

/// A form has one cell in its date column for each day of its month, and
/// never more than the chart has rows.
pub proof fn lemma_one_date_cell_per_day(year: int, month: int, coordinator: Seq<char>)
    ensures
        date_cells(form_plan(year, month, coordinator)) == date_column(month_labels(year, month)),
        date_cells(form_plan(year, month, coordinator)).len() == days_in_month(year, month),
        date_cells(form_plan(year, month, coordinator)).len() <= CHART_ROWS,
{
    let labels = month_labels(year, month);
    assert(labels.len() == days_in_month(year, month));
    lemma_date_cells_of_plan(
        labels,
        month_year_text(year, month),
        coordinator.len(),
        uppercase(coordinator),
    );
}

/// A month that is not in 1..=12 is never laid out: the result is the
/// error that names it.
pub proof fn lemma_invalid_month_is_rejected(
    parameters: FormParameters,
    result: Result<DrawingPlan, CalendarError>,
)
    requires
        parameters.month < 1 || parameters.month > 12,
        is_plan_of(parameters, result),
    ensures
        result == Err::<DrawingPlan, CalendarError>(
            CalendarError::InvalidCalendarInput { year: parameters.year, month: parameters.month },
        ),
{
}

} // verus!
