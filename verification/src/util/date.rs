//! Calendar dates written as year-month-day.
use chrono::Datelike;
use vstd::prelude::*;

verus! {

/// A calendar date: year, month and day of the month.
pub type Date = (i32, u32, u32);

/// The date that `text` spells in the form year-month-day, or `None` where
/// it spells none.
pub uninterp spec fn calendar_date(text: Seq<char>) -> Option<(i32, u32, u32)>;

/// `chrono::NaiveDate::parse_from_str` with the format `%Y-%m-%d`, and the
/// `year`, `month` and `day` of what it returned. The outcome depends on the
/// text alone; it is named `calendar_date`, and `None` stands for every
/// parse error.
#[verifier::external_body]
pub(crate) fn parse_date(text: &str) -> (date: Option<(i32, u32, u32)>)
    ensures
        date == calendar_date(text@),
{
    match chrono::NaiveDate::parse_from_str(text, "%Y-%m-%d") {
        Ok(day) => Some((day.year(), day.month(), day.day())),
        Err(_) => None,
    }
}

/// Whether `a` is the same day as `b` or an earlier one.
pub open spec fn not_after(a: (i32, u32, u32), b: (i32, u32, u32)) -> bool {
    a.0 < b.0 || (a.0 == b.0 && (a.1 < b.1 || (a.1 == b.1 && a.2 <= b.2)))
}

/// Whether both dates are known and `date` is `bound` or a later day.
pub open spec fn known_on_or_after(
    date: Option<(i32, u32, u32)>,
    bound: Option<(i32, u32, u32)>,
) -> bool {
    date is Some && bound is Some && not_after(bound->0, date->0)
}

/// Whether both dates are known and `date` is `bound` or an earlier day.
pub open spec fn known_on_or_before(
    date: Option<(i32, u32, u32)>,
    bound: Option<(i32, u32, u32)>,
) -> bool {
    date is Some && bound is Some && not_after(date->0, bound->0)
}

/// Whether `a` is the same day as `b` or an earlier one.
pub fn is_not_after(a: &Date, b: &Date) -> (r: bool)
    ensures
        r == not_after(*a, *b),
{
    a.0 < b.0 || (a.0 == b.0 && (a.1 < b.1 || (a.1 == b.1 && a.2 <= b.2)))
}

/// Whether both dates are known and `date` is `bound` or a later day. An
/// unknown date meets no bound.
pub fn on_or_after(date: &Option<Date>, bound: &Option<Date>) -> (r: bool)
    ensures
        r == known_on_or_after(*date, *bound),
{
    match (date, bound) {
        (Some(d), Some(b)) => is_not_after(b, d),
        _ => false,
    }
}

/// Whether both dates are known and `date` is `bound` or an earlier day. An
/// unknown date meets no bound.
pub fn on_or_before(date: &Option<Date>, bound: &Option<Date>) -> (r: bool)
    ensures
        r == known_on_or_before(*date, *bound),
{
    match (date, bound) {
        (Some(d), Some(b)) => is_not_after(d, b),
        _ => false,
    }
}

} // verus!
