use vstd::prelude::*;
use vstd::string::StrSliceExecFns;
use vstd::string::StringExecFns;

use crate::errors::ChartError;

verus! {

/// A calendar date with a four-digit year, kept as plain numbers.
#[derive(Clone, Copy, Debug, PartialEq, Eq, Structural)]
pub struct Date {
    pub year: i32,
    pub month: u8,
    pub day: u8,
}

/// A decimal digit character.
pub open spec fn is_digit(c: char) -> bool {
    48 <= c as u32 <= 57
}

/// The numeric value of a decimal digit character.
pub open spec fn dval(c: char) -> int {
    c as u32 - 48
}

/// The character for a decimal digit value.
pub open spec fn digit_char(d: int) -> char {
    if d == 0 {
        '0'
    } else if d == 1 {
        '1'
    } else if d == 2 {
        '2'
    } else if d == 3 {
        '3'
    } else if d == 4 {
        '4'
    } else if d == 5 {
        '5'
    } else if d == 6 {
        '6'
    } else if d == 7 {
        '7'
    } else if d == 8 {
        '8'
    } else {
        '9'
    }
}

/// The exact literal shape `YYYY-MM-DD`: ten characters, digits in the
/// year, month and day positions, dashes between, nothing else.
pub open spec fn date_shaped(s: Seq<char>) -> bool {
    &&& s.len() == 10
    &&& is_digit(s[0])
    &&& is_digit(s[1])
    &&& is_digit(s[2])
    &&& is_digit(s[3])
    &&& s[4] == '-'
    &&& is_digit(s[5])
    &&& is_digit(s[6])
    &&& s[7] == '-'
    &&& is_digit(s[8])
    &&& is_digit(s[9])
}

pub open spec fn year_of(s: Seq<char>) -> int {
    dval(s[0]) * 1000 + dval(s[1]) * 100 + dval(s[2]) * 10 + dval(s[3])
}

pub open spec fn month_of(s: Seq<char>) -> int {
    dval(s[5]) * 10 + dval(s[6])
}

pub open spec fn day_of(s: Seq<char>) -> int {
    dval(s[8]) * 10 + dval(s[9])
}

pub open spec fn is_leap_year(y: int) -> bool {
    (y % 4 == 0 && y % 100 != 0) || y % 400 == 0
}

/// How many days the given month has in the given year.
pub open spec fn days_in_month(y: int, m: int) -> int {
    if m == 2 {
        if is_leap_year(y) {
            29
        } else {
            28
        }
    } else if m == 4 || m == 6 || m == 9 || m == 11 {
        30
    } else {
        31
    }
}

/// A possible calendar date: month in range and day within the month.
pub open spec fn date_valid(y: int, m: int, d: int) -> bool {
    &&& 1 <= m <= 12
    &&& 1 <= d <= days_in_month(y, m)
}

impl Date {
    /// A well-formed date: possible on the calendar, with a year that
    /// serializes to exactly four digits.
    pub open spec fn wf(self) -> bool {
        &&& 0 <= self.year <= 9999
        &&& date_valid(self.year as int, self.month as int, self.day as int)
    }
}

/// The date a well-shaped string denotes.
pub open spec fn parsed_date(s: Seq<char>) -> Date {
    Date { year: year_of(s) as i32, month: month_of(s) as u8, day: day_of(s) as u8 }
}

/// The calendar day immediately before the given one.
pub open spec fn prev_date(d: Date) -> Date {
    if d.day > 1 {
        Date { year: d.year, month: d.month, day: (d.day - 1) as u8 }
    } else if d.month > 1 {
        Date {
            year: d.year,
            month: (d.month - 1) as u8,
            day: days_in_month(d.year as int, d.month - 1) as u8,
        }
    } else {
        Date { year: (d.year - 1) as i32, month: 12, day: 31 }
    }
}

/// The ten-character `YYYY-MM-DD` form of a date.
pub open spec fn serialize_spec(d: Date) -> Seq<char> {
    seq![
        digit_char(d.year as int / 1000),
        digit_char(d.year as int / 100 % 10),
        digit_char(d.year as int / 10 % 10),
        digit_char(d.year as int % 10),
        '-',
        digit_char(d.month as int / 10),
        digit_char(d.month as int % 10),
        '-',
        digit_char(d.day as int / 10),
        digit_char(d.day as int % 10),
    ]
}

/// Whether a character is a decimal digit.
fn digit_check(c: char) -> (r: bool)
    ensures
        r == is_digit(c),
{
    let u = c as u32;
    48 <= u && u <= 57
}

/// The digit value at one position of a string.
fn digit_at(s: &str, i: usize) -> (v: u32)
    requires
        i < s@.len(),
        is_digit(s@[i as int]),
    ensures
        v == dval(s@[i as int]),
        v <= 9,
{
    let c = s.get_char(i);
    (c as u32) - 48
}

/// A date string is accepted exactly when it has the literal
/// `YYYY-MM-DD` shape. This says nothing about calendar validity.
pub fn verify_date(date: &str) -> (r: bool)
    ensures
        r == date_shaped(date@),
{
    if date.unicode_len() != 10 {
        return false;
    }
    if !digit_check(date.get_char(0)) {
        return false;
    }
    if !digit_check(date.get_char(1)) {
        return false;
    }
    if !digit_check(date.get_char(2)) {
        return false;
    }
    if !digit_check(date.get_char(3)) {
        return false;
    }
    if date.get_char(4) != '-' {
        return false;
    }
    if !digit_check(date.get_char(5)) {
        return false;
    }
    if !digit_check(date.get_char(6)) {
        return false;
    }
    if date.get_char(7) != '-' {
        return false;
    }
    if !digit_check(date.get_char(8)) {
        return false;
    }
    if !digit_check(date.get_char(9)) {
        return false;
    }
    true
}

/// How many days the given month has, as executable code.
pub fn days_in_month_of(year: i32, month: u8) -> (d: u8)
    requires
        0 <= year,
        1 <= month <= 12,
    ensures
        d == days_in_month(year as int, month as int),
{
    if month == 2 {
        if (year % 4 == 0 && year % 100 != 0) || year % 400 == 0 {
            29
        } else {
            28
        }
    } else if month == 4 || month == 6 || month == 9 || month == 11 {
        30
    } else {
        31
    }
}

/// Parses a date string, distinguishing a shape failure from a
/// well-shaped but impossible calendar date.
pub fn match_date(date: &str) -> (r: Result<Date, ChartError>)
    ensures
        r matches Ok(d) ==> date_shaped(date@) && d == parsed_date(date@) && d.wf(),
        !date_shaped(date@) ==> r == Err::<Date, ChartError>(ChartError::InvalidDateFormat),
        date_shaped(date@) && !date_valid(year_of(date@), month_of(date@), day_of(date@))
            ==> r == Err::<Date, ChartError>(ChartError::InvalidCalendarDate),
        date_shaped(date@) && date_valid(year_of(date@), month_of(date@), day_of(date@))
            ==> r is Ok,
{
    if !verify_date(date) {
        return Err(ChartError::InvalidDateFormat);
    }
    let y: u32 = digit_at(date, 0) * 1000 + digit_at(date, 1) * 100 + digit_at(date, 2) * 10
        + digit_at(date, 3);
    let m: u8 = (digit_at(date, 5) * 10 + digit_at(date, 6)) as u8;
    let d: u8 = (digit_at(date, 8) * 10 + digit_at(date, 9)) as u8;
    if m < 1 || m > 12 {
        return Err(ChartError::InvalidCalendarDate);
    }
    if d < 1 || d > days_in_month_of(y as i32, m) {
        return Err(ChartError::InvalidCalendarDate);
    }
    Ok(Date { year: y as i32, month: m, day: d })
}

/// The one-character string for a digit value.
fn digit_str(v: u8) -> (r: &'static str)
    requires
        v <= 9,
    ensures
        r@ =~= seq![digit_char(v as int)],
{
    proof {
        reveal_strlit("0");
        reveal_strlit("1");
        reveal_strlit("2");
        reveal_strlit("3");
        reveal_strlit("4");
        reveal_strlit("5");
        reveal_strlit("6");
        reveal_strlit("7");
        reveal_strlit("8");
        reveal_strlit("9");
    }
    match v {
        0 => "0",
        1 => "1",
        2 => "2",
        3 => "3",
        4 => "4",
        5 => "5",
        6 => "6",
        7 => "7",
        8 => "8",
        _ => "9",
    }
}

/// Re-serializes a date in the zero-padded `YYYY-MM-DD` form.
pub fn serialize_date(d: &Date) -> (s: String)
    requires
        d.wf(),
    ensures
        s@ == serialize_spec(*d),
{
    proof {
        reveal_strlit("-");
    }
    let y = d.year as u32;
    let mut s = String::new();
    s.append(digit_str((y / 1000) as u8));
    s.append(digit_str((y / 100 % 10) as u8));
    s.append(digit_str((y / 10 % 10) as u8));
    s.append(digit_str((y % 10) as u8));
    s.append("-");
    s.append(digit_str(d.month / 10));
    s.append(digit_str(d.month % 10));
    s.append("-");
    s.append(digit_str(d.day / 10));
    s.append(digit_str(d.day % 10));
    proof {
        assert(s@ =~= serialize_spec(*d));
    }
    s
}

/// The calendar day before the one the given string denotes, in the same
/// zero-padded form. Fails on a string that does not denote a possible
/// date, and on the one date with no in-range predecessor.
pub fn get_previous_day(date: &str) -> (r: Result<String, ChartError>)
    ensures
        !date_shaped(date@) ==> r == Err::<String, ChartError>(ChartError::InvalidDateFormat),
        date_shaped(date@) && !date_valid(year_of(date@), month_of(date@), day_of(date@))
            ==> r == Err::<String, ChartError>(ChartError::InvalidCalendarDate),
        date_shaped(date@) && date_valid(year_of(date@), month_of(date@), day_of(date@))
            && parsed_date(date@) == (Date { year: 0, month: 1, day: 1 })
            ==> r == Err::<String, ChartError>(ChartError::InvalidCalendarDate),
        date_shaped(date@) && date_valid(year_of(date@), month_of(date@), day_of(date@))
            && parsed_date(date@) != (Date { year: 0, month: 1, day: 1 }) ==> (r matches Ok(s)
            && s@ == serialize_spec(prev_date(parsed_date(date@)))),
{
    let d = match match_date(date) {
        Ok(d) => d,
        Err(e) => {
            return Err(e);
        },
    };
    if d.year == 0 && d.month == 1 && d.day == 1 {
        return Err(ChartError::InvalidCalendarDate);
    }
    let previous: Date = if d.day > 1 {
        Date { year: d.year, month: d.month, day: d.day - 1 }
    } else if d.month > 1 {
        Date { year: d.year, month: d.month - 1, day: days_in_month_of(d.year, d.month - 1) }
    } else {
        Date { year: d.year - 1, month: 12, day: 31 }
    };
    Ok(serialize_date(&previous))
}

/// Round trip: serializing a parsed date gives back exactly the string it
/// was parsed from, for every string of the valid shape that denotes a
/// possible calendar date.
pub proof fn lemma_date_round_trip(s: Seq<char>)
    requires
        date_shaped(s),
        date_valid(year_of(s), month_of(s), day_of(s)),
    ensures
        serialize_spec(parsed_date(s)) == s,
{
    let d = parsed_date(s);
    let y = year_of(s);
    assert(y / 1000 == dval(s[0])) by (nonlinear_arith)
        requires
            y == dval(s[0]) * 1000 + dval(s[1]) * 100 + dval(s[2]) * 10 + dval(s[3]),
            0 <= dval(s[0]) <= 9,
            0 <= dval(s[1]) <= 9,
            0 <= dval(s[2]) <= 9,
            0 <= dval(s[3]) <= 9,
    ;
    assert(y / 100 % 10 == dval(s[1])) by (nonlinear_arith)
        requires
            y == dval(s[0]) * 1000 + dval(s[1]) * 100 + dval(s[2]) * 10 + dval(s[3]),
            0 <= dval(s[0]) <= 9,
            0 <= dval(s[1]) <= 9,
            0 <= dval(s[2]) <= 9,
            0 <= dval(s[3]) <= 9,
    ;
    assert(y / 10 % 10 == dval(s[2])) by (nonlinear_arith)
        requires
            y == dval(s[0]) * 1000 + dval(s[1]) * 100 + dval(s[2]) * 10 + dval(s[3]),
            0 <= dval(s[0]) <= 9,
            0 <= dval(s[1]) <= 9,
            0 <= dval(s[2]) <= 9,
            0 <= dval(s[3]) <= 9,
    ;
    assert(y % 10 == dval(s[3])) by (nonlinear_arith)
        requires
            y == dval(s[0]) * 1000 + dval(s[1]) * 100 + dval(s[2]) * 10 + dval(s[3]),
            0 <= dval(s[0]) <= 9,
            0 <= dval(s[1]) <= 9,
            0 <= dval(s[2]) <= 9,
            0 <= dval(s[3]) <= 9,
    ;
    lemma_digit_char_round(s[0]);
    lemma_digit_char_round(s[1]);
    lemma_digit_char_round(s[2]);
    lemma_digit_char_round(s[3]);
    lemma_digit_char_round(s[5]);
    lemma_digit_char_round(s[6]);
    lemma_digit_char_round(s[8]);
    lemma_digit_char_round(s[9]);
    assert(serialize_spec(d) =~= s);
}

/// The digit character of a digit's value is the digit itself.
proof fn lemma_digit_char_round(c: char)
    requires
        is_digit(c),
    ensures
        digit_char(dval(c)) == c,
{
    if c as u32 == 48 {
        assert(c == '0');
    } else if c as u32 == 49 {
        assert(c == '1');
    } else if c as u32 == 50 {
        assert(c == '2');
    } else if c as u32 == 51 {
        assert(c == '3');
    } else if c as u32 == 52 {
        assert(c == '4');
    } else if c as u32 == 53 {
        assert(c == '5');
    } else if c as u32 == 54 {
        assert(c == '6');
    } else if c as u32 == 55 {
        assert(c == '7');
    } else if c as u32 == 56 {
        assert(c == '8');
    } else {
        assert(c == '9');
    }
}

} // verus!
