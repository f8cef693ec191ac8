//! The calendar month of a date.

use vstd::prelude::*;
use chrono::Datelike;
use crate::text::option_text;

verus! {

/// The year, the month and the day of the date that `chrono` reads from a
/// text written as year, month and day (such as `2024-03-09`); `None` where
/// it refuses the text.
pub uninterp spec fn calendar_date(date: Seq<char>) -> Option<(i32, u32, u32)>;

/// The text of the year and the month (such as `2024-03`) that `chrono`
/// writes for a day of the calendar; `None` where there is no such day.
pub uninterp spec fn year_month_text(year: i32, month: u32, day: u32) -> Option<Seq<char>>;

/// Calls `chrono::NaiveDate::parse_from_str` with the format `%Y-%m-%d`, and
/// hands out the year, the month and the day of the date. Beside the name of
/// the outcome the contract claims that the month is one of the twelve.
#[verifier::external_body]
fn parse_date(date: &str) -> (parts: Option<(i32, u32, u32)>)
    ensures
        parts == calendar_date(date@),
        parts matches Some(p) ==> 1 <= p.1 <= 12,
{
    match chrono::NaiveDate::parse_from_str(date, "%Y-%m-%d") {
        Ok(day) => Some((day.year(), day.month(), day.day())),
        Err(_) => None,
    }
}

/// Calls `format` with the format `%Y-%m` on the day that
/// `chrono::NaiveDate::from_ymd_opt` makes of a year, a month and a day. The
/// contract only gives the outcome its name.
#[verifier::external_body]
fn format_month(year: i32, month: u32, day: u32) -> (text: Option<String>)
    ensures
        option_text(text) == year_month_text(year, month, day),
{
    match chrono::NaiveDate::from_ymd_opt(year, month, day) {
        Some(date) => Some(date.format("%Y-%m").to_string()),
        None => None,
    }
}

/// The year, the month and the text of the two that are kept for a date;
/// `None` where the date cannot be read.
pub open spec fn calendar_month(date: Seq<char>) -> Option<(i32, i32, Seq<char>)> {
    match calendar_date(date) {
        Some(parts) => match year_month_text(parts.0, parts.1, parts.2) {
            Some(text) => Some((parts.0, parts.1 as i32, text)),
            None => None,
        },
        None => None,
    }
}

/// What is handed out for a date: its parts, with the text as characters.
pub open spec fn month_view(parts: Option<(i32, i32, String)>) -> Option<(i32, i32, Seq<char>)> {
    match parts {
        Some(p) => Some((p.0, p.1, p.2@)),
        None => None,
    }
}

/// Reads a date, and writes the text of its year and month.
pub(crate) fn parse_month(date: &str) -> (parts: Option<(i32, i32, String)>)
    ensures
        month_view(parts) == calendar_month(date@),
{
    match parse_date(date) {
        Some((year, month, day)) => match format_month(year, month, day) {
            Some(text) => Some((year, month as i32, text)),
            None => None,
        },
        None => None,
    }
}

} // verus!
