use vstd::prelude::*;

use chrono::Datelike;

verus! {

/// The pattern that due dates are read and written with: `dd-mm-yyyy`.
pub const DATE_FORMAT: &'static str = "%d-%m-%Y";

/// A calendar date of the proleptic Gregorian calendar.
#[derive(Debug, Clone, Copy, PartialEq, Eq, Structural)]
pub struct Date {
    pub year: i32,
    pub month: u32,
    pub day: u32,
}

pub open spec fn is_leap_year(y: int) -> bool {
    y % 4 == 0 && (y % 100 != 0 || y % 400 == 0)
}

pub open spec fn days_in_month(y: int, m: int) -> int {
    if m == 2 {
        if is_leap_year(y) {
            29
        } else {
            28
        }
    } else if m == 4 || m == 6 || m == 9 || m == 11 {
        30
    } else {
        31
    }
}

/// Whether year, month and day name a day of the calendar.
pub open spec fn is_calendar_date(y: int, m: int, d: int) -> bool {
    1 <= m <= 12 && 1 <= d <= days_in_month(y, m)
}

pub open spec fn digit_char(n: int) -> char {
    (n + '0' as int) as char
}

pub open spec fn is_digit_char(c: char) -> bool {
    '0' <= c <= '9'
}

pub open spec fn digit_value(c: char) -> int {
    c as int - '0' as int
}

pub open spec fn two_digits(n: int) -> Seq<char> {
    seq![digit_char(n / 10), digit_char(n % 10)]
}

pub open spec fn four_digits(n: int) -> Seq<char> {
    seq![digit_char(n / 1000), digit_char((n / 100) % 10), digit_char((n / 10) % 10), digit_char(n % 10)]
}

/// The text `dd-mm-yyyy` of a day, with zero-padded fields.
pub open spec fn dmy_text(y: int, m: int, d: int) -> Seq<char> {
    two_digits(d) + seq!['-'] + two_digits(m) + seq!['-'] + four_digits(y)
}

/// Whether `s` has the shape `dd-mm-yyyy`: ten characters, digits but for two dashes.
pub open spec fn has_dmy_shape(s: Seq<char>) -> bool {
    &&& s.len() == 10
    &&& s[2] == '-'
    &&& s[5] == '-'
    &&& forall|i: int| 0 <= i < 10 && i != 2 && i != 5 ==> #[trigger] is_digit_char(s[i])
}

pub open spec fn shape_day(s: Seq<char>) -> int {
    digit_value(s[0]) * 10 + digit_value(s[1])
}

pub open spec fn shape_month(s: Seq<char>) -> int {
    digit_value(s[3]) * 10 + digit_value(s[4])
}

pub open spec fn shape_year(s: Seq<char>) -> int {
    digit_value(s[6]) * 1000 + digit_value(s[7]) * 100 + digit_value(s[8]) * 10 + digit_value(s[9])
}

/// The date, as year, month and day, that chrono reads from `s` with the pattern `%d-%m-%Y`.
pub uninterp spec fn chrono_dmy(s: Seq<char>) -> Option<(int, int, int)>;

/// Relies on chrono's `NaiveDate::parse_from_str` with the pattern `%d-%m-%Y`. A `NaiveDate`
/// is always a day of the calendar. On text of the shape `dd-mm-yyyy` the parser takes two
/// digits for the day, two for the month and four for the year, and fails where these name
/// no day of the calendar.
#[verifier::external_body]
fn parse_dmy(text: &str) -> (r: Option<(i32, u32, u32)>)
    ensures
        match r {
            Some((y, m, d)) => chrono_dmy(text@) == Some((y as int, m as int, d as int)),
            None => chrono_dmy(text@) is None,
        },
        r matches Some((y, m, d)) ==> is_calendar_date(y as int, m as int, d as int),
        has_dmy_shape(text@) ==> (r is Some <==> is_calendar_date(
            shape_year(text@),
            shape_month(text@),
            shape_day(text@),
        )),
        has_dmy_shape(text@) && r is Some ==> r == Some(
            (shape_year(text@) as i32, shape_month(text@) as u32, shape_day(text@) as u32),
        ),
{
    chrono::NaiveDate::parse_from_str(text, DATE_FORMAT).ok().map(|d| (d.year(), d.month(), d.day()))
}

/// Relies on chrono's `NaiveDate::format` with the pattern `%d-%m-%Y`: day and month as two
/// zero-padded digits, a year from 0 to 9999 as four.
#[verifier::external_body]
fn format_dmy(date: &Date) -> (r: String)
    requires
        date.wf(),
    ensures
        r@ == date.text(),
{
    chrono::NaiveDate::from_ymd_opt(date.year, date.month, date.day).unwrap().format(DATE_FORMAT).to_string()
}

/// Whether `s` is the canonical text of a date: `dd-mm-yyyy` naming a day of the calendar.
pub open spec fn is_canonical_date_text(s: Seq<char>) -> bool {
    has_dmy_shape(s) && is_calendar_date(shape_year(s), shape_month(s), shape_day(s))
}

/// Whether the text has the shape `dd-mm-yyyy`: ten characters, digits but for two dashes.
pub fn has_date_shape(text: &str) -> (r: bool)
    ensures
        r == has_dmy_shape(text@),
{
    if text.unicode_len() != 10 {
        return false;
    }
    let mut i: usize = 0;
    while i < 10
        invariant
            text@.len() == 10,
            i <= 10,
            forall|j: int| 0 <= j < i ==> (if j == 2 || j == 5 {
                text@[j] == '-'
            } else {
                is_digit_char(#[trigger] text@[j])
            }),
        decreases 10 - i,
    {
        let c = text.get_char(i);
        if i == 2 || i == 5 {
            if c != '-' {
                return false;
            }
        } else if !('0' <= c && c <= '9') {
            assert(!is_digit_char(text@[i as int]));
            return false;
        }
        i = i + 1;
    }
    assert(text@[2] == '-' && text@[5] == '-');
    true
}

impl Date {
    /// A day of the calendar whose year has four digits.
    pub open spec fn wf(self) -> bool {
        0 <= self.year <= 9999 && is_calendar_date(self.year as int, self.month as int, self.day as int)
    }

    /// The date's text `dd-mm-yyyy`.
    pub open spec fn text(self) -> Seq<char> {
        dmy_text(self.year as int, self.month as int, self.day as int)
    }

    /// The date of the given year, month and day, if it is a day of the calendar and the year
    /// has four digits.
    pub fn from_ymd(year: i32, month: u32, day: u32) -> (r: Option<Date>)
        ensures
            r matches Some(d) ==> d == (Date { year, month, day }) && d.wf(),
            r is None <==> !((Date { year, month, day }).wf()),
    {
        if year < 0 || year > 9999 || month < 1 || month > 12 || day < 1 {
            return None;
        }
        let leap = year % 4 == 0 && (year % 100 != 0 || year % 400 == 0);
        let last: u32 = if month == 2 {
            if leap {
                29
            } else {
                28
            }
        } else if month == 4 || month == 6 || month == 9 || month == 11 {
            30
        } else {
            31
        };
        if day > last {
            None
        } else {
            Some(Date { year, month, day })
        }
    }

    /// Whether the date is a day of the calendar whose year has four digits.
    pub fn is_valid(&self) -> (r: bool)
        ensures
            r == self.wf(),
    {
        Date::from_ymd(self.year, self.month, self.day).is_some()
    }

    /// Reads a due date from text of the shape `dd-mm-yyyy`, with chrono and the pattern
    /// `%d-%m-%Y`; `None` for text of another shape or naming no day of the calendar.
    pub fn parse(text: &str) -> (r: Option<Date>)
        ensures
            r is Some <==> is_canonical_date_text(text@),
            r matches Some(d) ==> d.wf() && d.text() == text@,
    {
        if !has_date_shape(text) {
            return None;
        }
        match parse_dmy(text) {
            Some((y, m, d)) => {
                proof {
                    lemma_canonical_text_round_trip(text@);
                }
                Date::from_ymd(y, m, d)
            },
            None => None,
        }
    }

    /// The date's text `dd-mm-yyyy`, written by chrono.
    pub fn to_text(&self) -> (r: String)
        requires
            self.wf(),
        ensures
            r@ == self.text(),
            is_canonical_date_text(r@),
    {
        proof {
            lemma_text_is_canonical(*self);
        }
        format_dmy(self)
    }
}

proof fn lemma_digit_char(n: int)
    requires
        0 <= n <= 9,
    ensures
        is_digit_char(digit_char(n)),
        digit_value(digit_char(n)) == n,
{
}

proof fn lemma_digit_value(c: char)
    requires
        is_digit_char(c),
    ensures
        0 <= digit_value(c) <= 9,
        digit_char(digit_value(c)) == c,
{
}

proof fn lemma_split_two(n: int)
    requires
        0 <= n <= 99,
    ensures
        0 <= n / 10 <= 9,
        0 <= n % 10 <= 9,
        n == (n / 10) * 10 + n % 10,
{
}

proof fn lemma_join_two(a: int, b: int)
    requires
        0 <= a <= 9,
        0 <= b <= 9,
    ensures
        (a * 10 + b) / 10 == a,
        (a * 10 + b) % 10 == b,
{
}

proof fn lemma_split_four(n: int)
    requires
        0 <= n <= 9999,
    ensures
        0 <= n / 1000 <= 9,
        0 <= (n / 100) % 10 <= 9,
        0 <= (n / 10) % 10 <= 9,
        0 <= n % 10 <= 9,
        n == (n / 1000) * 1000 + ((n / 100) % 10) * 100 + ((n / 10) % 10) * 10 + n % 10,
{
    assert(n == (n / 10) * 10 + n % 10);
    assert(n / 10 / 10 == n / 100) by {
        vstd::arithmetic::div_mod::lemma_div_denominator(n, 10, 10);
    }
    assert(n / 100 / 10 == n / 1000) by {
        vstd::arithmetic::div_mod::lemma_div_denominator(n, 100, 10);
    }
    assert(n / 10 == (n / 100) * 10 + (n / 10) % 10);
    assert(n / 100 == (n / 1000) * 10 + (n / 100) % 10);
}

proof fn lemma_join_four(a: int, b: int, c: int, d: int)
    requires
        0 <= a <= 9,
        0 <= b <= 9,
        0 <= c <= 9,
        0 <= d <= 9,
    ensures
        (a * 1000 + b * 100 + c * 10 + d) / 1000 == a,
        ((a * 1000 + b * 100 + c * 10 + d) / 100) % 10 == b,
        ((a * 1000 + b * 100 + c * 10 + d) / 10) % 10 == c,
        (a * 1000 + b * 100 + c * 10 + d) % 10 == d,
{
    let n = a * 1000 + b * 100 + c * 10 + d;
    assert(n / 1000 == a) by (nonlinear_arith)
        requires
            n == a * 1000 + b * 100 + c * 10 + d,
            0 <= a <= 9,
            0 <= b <= 9,
            0 <= c <= 9,
            0 <= d <= 9,
    ;
    assert(n / 100 == a * 10 + b) by (nonlinear_arith)
        requires
            n == a * 1000 + b * 100 + c * 10 + d,
            0 <= b <= 9,
            0 <= c <= 9,
            0 <= d <= 9,
    ;
    assert(n / 10 == a * 100 + b * 10 + c) by (nonlinear_arith)
        requires
            n == a * 1000 + b * 100 + c * 10 + d,
            0 <= c <= 9,
            0 <= d <= 9,
    ;
}

/// Reading the fields of canonical text and writing them again gives the same text.
proof fn lemma_canonical_text_round_trip(s: Seq<char>)
    requires
        is_canonical_date_text(s),
    ensures
        dmy_text(shape_year(s), shape_month(s), shape_day(s)) == s,
        0 <= shape_year(s) <= 9999,
{
    assert(is_digit_char(s[0]) && is_digit_char(s[1]) && is_digit_char(s[3]) && is_digit_char(s[4]));
    assert(is_digit_char(s[6]) && is_digit_char(s[7]) && is_digit_char(s[8]) && is_digit_char(s[9]));
    lemma_digit_value(s[0]);
    lemma_digit_value(s[1]);
    lemma_digit_value(s[3]);
    lemma_digit_value(s[4]);
    lemma_digit_value(s[6]);
    lemma_digit_value(s[7]);
    lemma_digit_value(s[8]);
    lemma_digit_value(s[9]);
    lemma_join_two(digit_value(s[0]), digit_value(s[1]));
    lemma_join_two(digit_value(s[3]), digit_value(s[4]));
    lemma_join_four(digit_value(s[6]), digit_value(s[7]), digit_value(s[8]), digit_value(s[9]));
    let t = dmy_text(shape_year(s), shape_month(s), shape_day(s));
    assert(t =~= s);
}

/// The text of a date of four-digit year is canonical and reads back as that date.
pub proof fn lemma_text_is_canonical(d: Date)
    requires
        d.wf(),
    ensures
        is_canonical_date_text(d.text()),
        shape_year(d.text()) == d.year,
        shape_month(d.text()) == d.month,
        shape_day(d.text()) == d.day,
{
    let s = d.text();
    let y = d.year as int;
    let m = d.month as int;
    let dd = d.day as int;
    lemma_split_four(y);
    lemma_split_two(m);
    lemma_split_two(dd);
    lemma_digit_char(y / 1000);
    lemma_digit_char((y / 100) % 10);
    lemma_digit_char((y / 10) % 10);
    lemma_digit_char(y % 10);
    lemma_digit_char(m / 10);
    lemma_digit_char(m % 10);
    lemma_digit_char(dd / 10);
    lemma_digit_char(dd % 10);
    assert(s[6] == digit_char(y / 1000));
    assert(s[7] == digit_char((y / 100) % 10));
    assert(s[8] == digit_char((y / 10) % 10));
    assert(s[9] == digit_char(y % 10));
    assert(s[0] == digit_char(dd / 10));
    assert(s[1] == digit_char(dd % 10));
    assert(s[3] == digit_char(m / 10));
    assert(s[4] == digit_char(m % 10));
    assert(s[2] == '-' && s[5] == '-');
    assert forall|i: int| 0 <= i < 10 && i != 2 && i != 5 implies #[trigger] is_digit_char(s[i]) by {
    }
}

} // verus!
