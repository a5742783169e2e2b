use ojt_timesheet::{generate_date_strings, CalendarDate, CalendarError};

#[test]
fn test_date_generation() {
    let gen_dates = generate_date_strings(2024, 3).unwrap();
    let target = vec![
        "Fri, Mar 1", "Sat, Mar 2", "Sun, Mar 3", "Mon, Mar 4", "Tue, Mar 5", "Wed, Mar 6",
        "Thu, Mar 7", "Fri, Mar 8", "Sat, Mar 9", "Sun, Mar 10", "Mon, Mar 11", "Tue, Mar 12",
        "Wed, Mar 13", "Thu, Mar 14", "Fri, Mar 15", "Sat, Mar 16", "Sun, Mar 17", "Mon, Mar 18",
        "Tue, Mar 19", "Wed, Mar 20", "Thu, Mar 21", "Fri, Mar 22", "Sat, Mar 23", "Sun, Mar 24",
        "Mon, Mar 25", "Tue, Mar 26", "Wed, Mar 27", "Thu, Mar 28", "Fri, Mar 29", "Sat, Mar 30",
        "Sun, Mar 31",
    ];
    assert_eq!(gen_dates, target);

    let gen_dates = generate_date_strings(2024, 12).unwrap();
    let target = vec![
        "Sun, Dec 1", "Mon, Dec 2", "Tue, Dec 3", "Wed, Dec 4", "Thu, Dec 5", "Fri, Dec 6",
        "Sat, Dec 7", "Sun, Dec 8", "Mon, Dec 9", "Tue, Dec 10", "Wed, Dec 11", "Thu, Dec 12",
        "Fri, Dec 13", "Sat, Dec 14", "Sun, Dec 15", "Mon, Dec 16", "Tue, Dec 17", "Wed, Dec 18",
        "Thu, Dec 19", "Fri, Dec 20", "Sat, Dec 21", "Sun, Dec 22", "Mon, Dec 23", "Tue, Dec 24",
        "Wed, Dec 25", "Thu, Dec 26", "Fri, Dec 27", "Sat, Dec 28", "Sun, Dec 29", "Mon, Dec 30",
        "Tue, Dec 31",
    ];
    assert_eq!(gen_dates, target);
}

#[test]
fn february_follows_the_leap_year_rule() {
    assert_eq!(generate_date_strings(2024, 2).unwrap().len(), 29);
    assert_eq!(generate_date_strings(2023, 2).unwrap().len(), 28);
    assert_eq!(generate_date_strings(1900, 2).unwrap().len(), 28);
    assert_eq!(generate_date_strings(2000, 2).unwrap().len(), 29);
}

#[test]
fn month_outside_the_year_is_rejected() {
    assert_eq!(
        generate_date_strings(2024, 0),
        Err(CalendarError::InvalidCalendarInput { year: 2024, month: 0 })
    );
    assert_eq!(
        generate_date_strings(2024, 13),
        Err(CalendarError::InvalidCalendarInput { year: 2024, month: 13 })
    );
}

#[test]
fn successor_crosses_month_and_year() {
    let day = CalendarDate::from_ymd_opt(2024, 12, 31).unwrap();
    let next = day.succ_opt().unwrap();
    assert!(next.same_day(&CalendarDate::from_ymd_opt(2025, 1, 1).unwrap()));
    assert!(CalendarDate::from_ymd_opt(2023, 2, 29).is_none());
}

#[test]
fn every_month_has_its_number_of_days() {
    let common = [31, 28, 31, 30, 31, 30, 31, 31, 30, 31, 30, 31];
    for month in 1..=12u32 {
        assert_eq!(
            generate_date_strings(2023, month).unwrap().len(),
            common[month as usize - 1]
        );
    }
}

#[test]
fn december_ends_on_the_thirty_first() {
    let labels = generate_date_strings(2024, 12).unwrap();
    assert_eq!(labels.len(), 31);
    assert_eq!(labels[0], "Sun, Dec 1");
    assert_eq!(labels[30], "Tue, Dec 31");
}

#[test]
fn years_at_the_edge_of_the_calendar() {
    assert_eq!(generate_date_strings(262142, 11).unwrap().len(), 30);
    assert_eq!(
        generate_date_strings(262142, 12),
        Err(CalendarError::InvalidCalendarInput { year: 262142, month: 12 })
    );
    assert_eq!(generate_date_strings(-262143, 1).unwrap().len(), 31);
    assert_eq!(
        generate_date_strings(-262144, 1),
        Err(CalendarError::InvalidCalendarInput { year: -262144, month: 1 })
    );
    assert_eq!(
        generate_date_strings(i32::MAX, 12),
        Err(CalendarError::InvalidCalendarInput { year: i32::MAX, month: 12 })
    );
    assert!(CalendarDate::from_ymd_opt(262142, 12, 31).unwrap().succ_opt().is_none());
}

#[test]
fn date_knows_its_parts_and_label() {
    let day = CalendarDate::from_ymd_opt(2024, 2, 29).unwrap();
    assert_eq!((day.year(), day.month(), day.day()), (2024, 2, 29));
    assert_eq!(day.label(), "Thu, Feb 29");
    assert_eq!(CalendarDate::from_ymd_opt(-4, 2, 29).unwrap().label(), "Thu, Feb 29");
}
