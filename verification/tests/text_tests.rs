use ojt_timesheet::text::{append_decimal, append_grouped_decimal, append_signed_decimal, hours_label};
use ojt_timesheet::generate_monthyear;

#[test]
fn decimal_numerals_have_no_padding() {
    let mut text = String::new();
    append_decimal(&mut text, 0);
    append_decimal(&mut text, 7);
    append_decimal(&mut text, 10);
    append_decimal(&mut text, 18446744073709551615);
    assert_eq!(text, "071018446744073709551615");
}

#[test]
fn signed_numerals_carry_a_minus() {
    let mut text = String::from("y");
    append_signed_decimal(&mut text, -44);
    append_signed_decimal(&mut text, 2024);
    append_signed_decimal(&mut text, i64::MIN);
    assert_eq!(text, "y-442024-9223372036854775808");
}

#[test]
fn thousands_are_grouped_by_commas() {
    let mut text = String::new();
    append_grouped_decimal(&mut text, 8000);
    assert_eq!(text, "8,000");
    let mut text = String::new();
    append_grouped_decimal(&mut text, 999);
    assert_eq!(text, "999");
    let mut text = String::new();
    append_grouped_decimal(&mut text, 1002003);
    assert_eq!(text, "1,002,003");
}

#[test]
fn hours_below_a_thousand_are_indented() {
    assert_eq!(hours_label(300), "   300");
    assert_eq!(hours_label(1400), "1,400");
    assert_eq!(hours_label(2100), "2,100");
    assert_eq!(hours_label(0), "   0");
    assert_eq!(hours_label(1000), "1,000");
}

#[test]
fn month_and_year_in_words() {
    assert_eq!(generate_monthyear(2024, 2), "February 2024");
    assert_eq!(generate_monthyear(2024, 1), "January 2024");
    assert_eq!(generate_monthyear(1999, 12), "December 1999");
    assert_eq!(generate_monthyear(-5, 9), "September -5");
}
