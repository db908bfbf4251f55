//! Calendar dates. The library holds a date as its day number counted from
//! the common era (0001-01-01 is day 1), the number `chrono` gives by
//! `Datelike::num_days_from_ce`; reading dates from text and moving by
//! calendar months are left to `chrono`.
use vstd::prelude::*;
use chrono::Datelike;

verus! {

/// The day number of `chrono::NaiveDate::MIN` (-262143-01-01).
pub const MIN_DAY: i32 = -95746129i32;

/// The day number of `chrono::NaiveDate::MAX` (262142-12-31).
pub const MAX_DAY: i32 = 95745399i32;

/// A day number that `chrono` can hold as a date.
pub open spec fn valid_day(d: int) -> bool {
    MIN_DAY <= d <= MAX_DAY
}

/// What `NaiveDate::parse_from_str(s, "%Y-%m-%d")` gives: the day number, or
/// the text of the parse error.
pub uninterp spec fn ymd_parse(s: Seq<char>) -> Result<i32, Seq<char>>;

/// What `str::parse::<NaiveDate>` gives, as a day number.
pub uninterp spec fn date_parse(s: Seq<char>) -> Option<i32>;

/// What `NaiveDate::checked_sub_months` gives for a day number.
pub uninterp spec fn months_before(d: i32, months: u32) -> Option<i32>;

/// `chrono::NaiveDate::parse_from_str` with the format `%Y-%m-%d`.
/// Claims: the outcome is what `ymd_parse` names (the error as its text), and
/// a date it gives is one that `chrono` can hold.
#[verifier::external_body]
pub(crate) fn parse_ymd(s: &str) -> (r: Result<i32, String>)
    ensures
        match r {
            Ok(d) => ymd_parse(s@) == Ok::<i32, Seq<char>>(d) && valid_day(d as int),
            Err(e) => ymd_parse(s@) == Err::<i32, Seq<char>>(e@),
        },
{
    match chrono::NaiveDate::parse_from_str(s, "%Y-%m-%d") {
        Ok(d) => Ok(d.num_days_from_ce()),
        Err(e) => Err(e.to_string()),
    }
}

/// `str::parse::<chrono::NaiveDate>` (its `FromStr`). Claims: the result is
/// what `date_parse` names, and a date it gives is one `chrono` can hold.
#[verifier::external_body]
pub(crate) fn parse_date(s: &str) -> (r: Option<i32>)
    ensures
        r == date_parse(s@),
        r is Some ==> valid_day(r->0 as int),
{
    match s.parse::<chrono::NaiveDate>() {
        Ok(d) => Some(d.num_days_from_ce()),
        Err(_) => None,
    }
}

/// `chrono::NaiveDate::checked_sub_months` on the date with day number `d`.
/// Claims: the result is what `months_before` names; and, as the source's
/// `diff_months` shows (same day of the month, clamped to the month's last
/// day), three months back from a date whose 92nd day before is in range
/// lands between 92 and 89 days earlier.
#[verifier::external_body]
pub(crate) fn sub_months(d: i32, months: u32) -> (r: Option<i32>)
    requires
        valid_day(d as int),
    ensures
        r == months_before(d, months),
        r is Some ==> valid_day(r->0 as int),
        months == 3 && valid_day(d - 92) ==> r is Some && d - 92 <= r->0 <= d - 89,
{
    match chrono::NaiveDate::from_num_days_from_ce_opt(d) {
        Some(date) => match date.checked_sub_months(chrono::Months::new(months)) {
            Some(x) => Some(x.num_days_from_ce()),
            None => None,
        },
        None => None,
    }
}

/// The first day of a date range that reaches back from `today`, as the
/// list pages' `date_range` filter reads it: `7d`, `30d` or `3m`
/// (three calendar months); any other value sets no bound.
pub open spec fn range_start(range: Seq<char>, today: i32) -> Option<i32> {
    if range == "7d"@ {
        Some((today - 7) as i32)
    } else if range == "30d"@ {
        Some((today - 30) as i32)
    } else if range == "3m"@ {
        months_before(today, 3)
    } else {
        None
    }
}

/// The `(start, end)` bounds of a `date_range` filter value: a start day
/// only, reaching back from `today`.
pub fn parse_date_range(range: &str, today: i32) -> (r: (Option<i32>, Option<i32>))
    requires
        valid_day(today as int),
        valid_day(today - 92),
    ensures
        r.0 == range_start(range@, today),
        r.1 is None,
        r.0 matches Some(d) ==> today - 92 <= d <= today - 7,
{
    if crate::text::same_text(range, "7d") {
        (Some(today - 7), None)
    } else if crate::text::same_text(range, "30d") {
        (Some(today - 30), None)
    } else if crate::text::same_text(range, "3m") {
        (sub_months(today, 3), None)
    } else {
        (None, None)
    }
}

/// `today` moved forward by `n` days when the result is a date, else
/// `today` itself (`checked_add_days(..).unwrap_or(today)`).
pub open spec fn add_days_or_same(today: int, n: int) -> int {
    if valid_day(today + n) {
        today + n
    } else {
        today
    }
}

} // verus!
