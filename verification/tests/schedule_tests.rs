use ojt_timesheet::{expand_range, output_path, CalendarError};

#[test]
fn single_month_range() {
    assert_eq!(expand_range(2024, 1, 2024, 1), Ok(vec![(2024, 1)]));
}

#[test]
fn range_crosses_the_year() {
    assert_eq!(
        expand_range(2024, 11, 2025, 2),
        Ok(vec![(2024, 11), (2024, 12), (2025, 1), (2025, 2)])
    );
}

#[test]
fn range_lists_each_month_once() {
    let months = expand_range(2020, 3, 2022, 7).unwrap();
    assert_eq!(months.len(), 10 + 12 + 7);
    assert_eq!(months[0], (2020, 3));
    assert_eq!(months[9], (2020, 12));
    assert_eq!(months[10], (2021, 1));
    assert_eq!(months[28], (2022, 7));
    for pair in months.windows(2) {
        assert!(pair[0] < pair[1]);
    }
}

#[test]
fn range_that_ends_before_it_starts_is_empty() {
    assert_eq!(expand_range(2024, 5, 2024, 3), Ok(vec![]));
    assert_eq!(expand_range(2025, 1, 2024, 12), Ok(vec![]));
}

#[test]
fn range_with_a_month_outside_the_year_is_rejected() {
    assert_eq!(
        expand_range(2024, 0, 2024, 3),
        Err(CalendarError::InvalidCalendarInput { year: 2024, month: 0 })
    );
    assert_eq!(
        expand_range(2024, 1, 2025, 13),
        Err(CalendarError::InvalidCalendarInput { year: 2025, month: 13 })
    );
}

#[test]
fn range_at_the_last_year_of_the_type_ends() {
    assert_eq!(
        expand_range(i32::MAX, 11, i32::MAX, 12),
        Ok(vec![(i32::MAX, 11), (i32::MAX, 12)])
    );
}

#[test]
fn output_path_names_year_and_month() {
    assert_eq!(output_path(2024, 3), "pdfs/2024-3.pdf");
    assert_eq!(output_path(2024, 12), "pdfs/2024-12.pdf");
    assert_eq!(output_path(-1, 1), "pdfs/-1-1.pdf");
}
