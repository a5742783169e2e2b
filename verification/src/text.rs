//! Decimal numerals and the other small pieces of text that the form prints.

use vstd::prelude::*;
use vstd::string::*;

verus! {

/// The character that stands for the decimal digit `d`.
pub open spec fn digit_char(d: int) -> char {
    if d == 0 {
        '0'
    } else if d == 1 {
        '1'
    } else if d == 2 {
        '2'
    } else if d == 3 {
        '3'
    } else if d == 4 {
        '4'
    } else if d == 5 {
        '5'
    } else if d == 6 {
        '6'
    } else if d == 7 {
        '7'
    } else if d == 8 {
        '8'
    } else {
        '9'
    }
}

/// The decimal numeral of `n`, most significant digit first, without padding.
pub open spec fn decimal(n: nat) -> Seq<char>
    decreases n,
{
    if n < 10 {
        seq![digit_char(n as int)]
    } else {
        decimal(n / 10) + seq![digit_char((n % 10) as int)]
    }
}

/// The decimal numeral of a signed number: a minus sign before the numeral
/// of its magnitude when it is negative.
pub open spec fn signed_decimal(n: int) -> Seq<char> {
    if n < 0 {
        seq!['-'] + decimal((-n) as nat)
    } else {
        decimal(n as nat)
    }
}

fn digit_str(d: u64) -> (s: &'static str)
    requires
        d < 10,
    ensures
        s@ == seq![digit_char(d as int)],
{
    proof {
        reveal_strlit("0");
        reveal_strlit("1");
        reveal_strlit("2");
        reveal_strlit("3");
        reveal_strlit("4");
        reveal_strlit("5");
        reveal_strlit("6");
        reveal_strlit("7");
        reveal_strlit("8");
        reveal_strlit("9");
    }
    let s = if d == 0 {
        "0"
    } else if d == 1 {
        "1"
    } else if d == 2 {
        "2"
    } else if d == 3 {
        "3"
    } else if d == 4 {
        "4"
    } else if d == 5 {
        "5"
    } else if d == 6 {
        "6"
    } else if d == 7 {
        "7"
    } else if d == 8 {
        "8"
    } else {
        "9"
    };
    assert(s@ =~= seq![digit_char(d as int)]);
    s
}

/// Appends the decimal numeral of `n` to `out`.
pub fn append_decimal(out: &mut String, n: u64)
    ensures
        final(out)@ == old(out)@ + decimal(n as nat),
    decreases n,
{
    if n >= 10 {
        append_decimal(out, n / 10);
    }
    out.append(digit_str(n % 10));
    assert(out@ =~= old(out)@ + decimal(n as nat));
}

/// Appends the decimal numeral of a signed number to `out`.
pub fn append_signed_decimal(out: &mut String, n: i64)
    ensures
        final(out)@ == old(out)@ + signed_decimal(n as int),
{
    if n < 0 {
        proof {
            reveal_strlit("-");
        }
        out.append("-");
        assert(out@ =~= old(out)@ + seq!['-']);
        let magnitude: u64 = if n == i64::MIN {
            9223372036854775808
        } else {
            (-n) as u64
        };
        append_decimal(out, magnitude);
        assert(out@ =~= old(out)@ + signed_decimal(n as int));
    } else {
        append_decimal(out, n as u64);
    }
}

/// The three decimal digits of a number below one thousand, with leading
/// zeros.
pub open spec fn three_digits(n: nat) -> Seq<char> {
    seq![
        digit_char((n / 100) as int),
        digit_char((n / 10 % 10) as int),
        digit_char((n % 10) as int),
    ]
}

/// The decimal numeral of `n` with a comma before every group of three
/// digits, as in "8,000".
pub open spec fn grouped_decimal(n: nat) -> Seq<char>
    decreases n,
{
    if n < 1000 {
        decimal(n)
    } else {
        grouped_decimal(n / 1000) + seq![','] + three_digits(n % 1000)
    }
}

/// Appends the comma-grouped decimal numeral of `n` to `out`.
pub fn append_grouped_decimal(out: &mut String, n: u64)
    ensures
        final(out)@ == old(out)@ + grouped_decimal(n as nat),
    decreases n,
{
    if n < 1000 {
        append_decimal(out, n);
    } else {
        proof {
            reveal_strlit(",");
        }
        let low: u64 = n % 1000;
        append_grouped_decimal(out, n / 1000);
        out.append(",");
        out.append(digit_str(low / 100));
        out.append(digit_str(low / 10 % 10));
        out.append(digit_str(low % 10));
        assert(out@ =~= old(out)@ + grouped_decimal(n as nat));
    }
}

/// How a number of hours is printed in the right-hand column: grouped by
/// thousands, and a number below one thousand after three spaces, which
/// take the place of the missing group.
pub open spec fn hours_label_text(hours: nat) -> Seq<char> {
    if hours < 1000 {
        "   "@ + decimal(hours)
    } else {
        grouped_decimal(hours)
    }
}

/// The text of a number of hours for the right-hand column.
pub fn hours_label(hours: u32) -> (label: String)
    ensures
        label@ == hours_label_text(hours as nat),
{
    if hours < 1000 {
        let mut label = String::from_str("   ");
        append_decimal(&mut label, hours as u64);
        label
    } else {
        let mut label = String::new();
        append_grouped_decimal(&mut label, hours as u64);
        assert(label@ =~= grouped_decimal(hours as nat));
        label
    }
}

/// The English name of a month; 1 is January.
pub open spec fn month_name(month: int) -> Seq<char> {
    if month == 1 {
        "January"@
    } else if month == 2 {
        "February"@
    } else if month == 3 {
        "March"@
    } else if month == 4 {
        "April"@
    } else if month == 5 {
        "May"@
    } else if month == 6 {
        "June"@
    } else if month == 7 {
        "July"@
    } else if month == 8 {
        "August"@
    } else if month == 9 {
        "September"@
    } else if month == 10 {
        "October"@
    } else if month == 11 {
        "November"@
    } else {
        "December"@
    }
}

fn month_name_str(month: u32) -> (name: &'static str)
    requires
        1 <= month <= 12,
    ensures
        name@ == month_name(month as int),
{
    if month == 1 {
        "January"
    } else if month == 2 {
        "February"
    } else if month == 3 {
        "March"
    } else if month == 4 {
        "April"
    } else if month == 5 {
        "May"
    } else if month == 6 {
        "June"
    } else if month == 7 {
        "July"
    } else if month == 8 {
        "August"
    } else if month == 9 {
        "September"
    } else if month == 10 {
        "October"
    } else if month == 11 {
        "November"
    } else {
        "December"
    }
}

/// A month as people write it: the month's name, a space, the year.
pub open spec fn month_year_text(year: int, month: int) -> Seq<char> {
    month_name(month) + " "@ + signed_decimal(year)
}

/// The month and year of a form in words, such as "March 2024".
pub fn generate_monthyear(year: i32, month: u32) -> (text: String)
    requires
        1 <= month <= 12,
    ensures
        text@ == month_year_text(year as int, month as int),
{
    let mut text = String::from_str(month_name_str(month));
    text.append(" ");
    append_signed_decimal(&mut text, year as i64);
    text
}

/// The upper-case form of a text under Unicode's case mapping.
pub uninterp spec fn uppercase(text: Seq<char>) -> Seq<char>;

/// `str::to_uppercase` of the standard library. Trusted: the result
/// depends on the characters of the text alone.
pub assume_specification[ str::to_uppercase ](source: &str) -> (upper: String)
    ensures
        upper@ == uppercase(source@),
;

} // verus!
