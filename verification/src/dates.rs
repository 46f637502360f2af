use vstd::prelude::*;
use chrono::Datelike;
use crate::text::{dec_spec, dec_u64, zero_pad_spec};

verus! {

/// A calendar date as year, month (1 to 12) and day (1 to 31).
#[derive(Clone, Copy, Debug)]
pub struct CalDate {
    pub year: i32,
    pub month: u32,
    pub day: u32,
}

/// What `chrono::NaiveDate::parse_from_str(text, "%Y-%m-%d")` yields for a
/// text: the year, month and day of the date it reads, or `None` when the
/// text is no valid date in that format.
pub uninterp spec fn ymd_parse(s: Seq<char>) -> Option<(i32, u32, u32)>;

/// Reads a `YYYY-MM-DD` date with `chrono::NaiveDate::parse_from_str`.
/// The contract names chrono's result (`ymd_parse`) and states only that
/// the month and day it returns lie in `1..=12` and `1..=31`, as chrono's
/// `Datelike` documents; which texts chrono accepts is not spelled out.
#[verifier::external_body]
pub(crate) fn parse_ymd(s: &str) -> (r: Option<CalDate>)
    ensures
        match r {
            Some(d) => ymd_parse(s@) == Some((d.year, d.month, d.day)) && 1 <= d.month <= 12 && 1
                <= d.day <= 31,
            None => ymd_parse(s@) is None,
        },
{
    match chrono::NaiveDate::parse_from_str(s, "%Y-%m-%d") {
        Ok(d) => Some(CalDate { year: d.year(), month: d.month(), day: d.day() }),
        Err(_) => None,
    }
}

/// Two-digit rendering of a month or day.
pub open spec fn two_digits_spec(n: nat) -> Seq<char> {
    zero_pad_spec(dec_spec(n), 2)
}

/// The `Display` form of a date (`chrono::NaiveDate`): a four-digit year
/// for years 0 to 9999, else a signed year of at least four digits; then
/// two-digit month and day, all joined by `-`.
pub open spec fn date_text_spec(year: int, month: nat, day: nat) -> Seq<char> {
    let y = if 0 <= year <= 9999 {
        zero_pad_spec(dec_spec(year as nat), 4)
    } else if year < 0 {
        seq!['-'] + zero_pad_spec(dec_spec((-year) as nat), 4)
    } else {
        seq!['+'] + zero_pad_spec(dec_spec(year as nat), 4)
    };
    y + seq!['-'] + two_digits_spec(month) + seq!['-'] + two_digits_spec(day)
}

/// Left-pads a decimal text with zeros.
fn zero_pad(s: String, width: usize) -> (r: String)
    ensures
        r@ == zero_pad_spec(s@, width as nat),
{
    let n = s.as_str().unicode_len();
    if n >= width {
        return s;
    }
    let mut r = String::new();
    let mut i: usize = 0;
    while i < width - n
        invariant
            i <= width - n,
            n == s@.len(),
            n < width,
            r@ == Seq::new(i as nat, |k: int| '0'),
        decreases width - n - i,
    {
        r.append("0");
        proof {
            reveal_strlit("0");
        }
        assert(r@ =~= Seq::new((i + 1) as nat, |k: int| '0'));
        i = i + 1;
    }
    r.append(s.as_str());
    r
}

/// The `Display` form of a date, as chrono prints it (`2024-03-09`).
pub fn date_text(d: &CalDate) -> (r: String)
    ensures
        r@ == date_text_spec(d.year as int, d.month as nat, d.day as nat),
{
    let y: i64 = d.year as i64;
    let mut r = if 0 <= y && y <= 9999 {
        zero_pad(dec_u64(y as u64), 4)
    } else if y < 0 {
        let mut t = String::from_str("-");
        let p = zero_pad(dec_u64((-y) as u64), 4);
        t.append(p.as_str());
        t
    } else {
        let mut t = String::from_str("+");
        let p = zero_pad(dec_u64(y as u64), 4);
        t.append(p.as_str());
        t
    };
    proof {
        reveal_strlit("-");
        reveal_strlit("+");
    }
    r.append("-");
    let m = zero_pad(dec_u64(d.month as u64), 2);
    r.append(m.as_str());
    r.append("-");
    let dd = zero_pad(dec_u64(d.day as u64), 2);
    r.append(dd.as_str());
    r
}

/// A date field of a request as read: not given (or given empty where
/// emptiness means not given), a valid date, or a text that is no date.
#[derive(Debug)]
pub enum DateInput {
    Absent,
    Valid(CalDate),
    Invalid,
}

/// How a date field reads: absent when `None`, or when empty and
/// `empty_is_absent` holds; otherwise chrono's reading of the text.
pub open spec fn date_input_spec(field: Option<Seq<char>>, empty_is_absent: bool) -> DateInput {
    match field {
        None => DateInput::Absent,
        Some(t) => if empty_is_absent && t.len() == 0 {
            DateInput::Absent
        } else {
            match ymd_parse(t) {
                Some((y, m, d)) => DateInput::Valid(CalDate { year: y, month: m, day: d }),
                None => DateInput::Invalid,
            }
        },
    }
}

/// Reads an optional date field of a request.
pub fn read_date(field: &Option<String>, empty_is_absent: bool) -> (r: DateInput)
    ensures
        r == date_input_spec(
            match field {
                Some(t) => Some(t@),
                None => None,
            },
            empty_is_absent,
        ),
{
    match field {
        None => DateInput::Absent,
        Some(t) => {
            if empty_is_absent && t.as_str().unicode_len() == 0 {
                DateInput::Absent
            } else {
                match parse_ymd(t.as_str()) {
                    Some(d) => DateInput::Valid(d),
                    None => DateInput::Invalid,
                }
            }
        },
    }
}

/// chrono's day count since 1 January of year 1 (`num_days_from_ce`) of
/// a year, month and day, or `None` when they form no calendar date.
pub uninterp spec fn ce_day(year: i32, month: u32, day: u32) -> Option<i32>;

/// The day count of a date with `chrono::NaiveDate::from_ymd_opt` and
/// `Datelike::num_days_from_ce`. The contract names chrono's result
/// (`ce_day`); the calendar arithmetic is not spelled out.
#[verifier::external_body]
pub(crate) fn day_number(d: &CalDate) -> (r: Option<i32>)
    ensures
        r == ce_day(d.year, d.month, d.day),
{
    chrono::NaiveDate::from_ymd_opt(d.year, d.month, d.day).map(|n| n.num_days_from_ce())
}

/// chrono's date `days` days after the given year, month and day
/// (`NaiveDate::checked_add_signed`), or `None` when they form no date or
/// the result leaves chrono's range.
pub uninterp spec fn date_plus_days(year: i32, month: u32, day: u32, days: i32) -> Option<
    (i32, u32, u32),
>;

/// Adds whole days to a date with `chrono::NaiveDate::checked_add_signed`.
/// The contract names chrono's result (`date_plus_days`) and states the
/// month and day ranges that chrono's `Datelike` documents.
#[verifier::external_body]
pub(crate) fn add_days(d: &CalDate, days: i32) -> (r: Option<CalDate>)
    ensures
        match r {
            Some(x) => date_plus_days(d.year, d.month, d.day, days) == Some((x.year, x.month, x.day))
                && 1 <= x.month <= 12 && 1 <= x.day <= 31,
            None => date_plus_days(d.year, d.month, d.day, days) is None,
        },
{
    match chrono::NaiveDate::from_ymd_opt(d.year, d.month, d.day) {
        Some(n) => match n.checked_add_signed(chrono::TimeDelta::days(days as i64)) {
            Some(x) => Some(CalDate { year: x.year(), month: x.month(), day: x.day() }),
            None => None,
        },
        None => None,
    }
}

/// Today's date in UTC (`chrono::Utc::now().date_naive()`). It depends on
/// the clock; only the month and day ranges that chrono's `Datelike`
/// documents are stated.
#[verifier::external_body]
pub(crate) fn today() -> (d: CalDate)
    ensures
        1 <= d.month <= 12,
        1 <= d.day <= 31,
{
    let n = chrono::Utc::now().date_naive();
    CalDate { year: n.year(), month: n.month(), day: n.day() }
}

} // verus!
