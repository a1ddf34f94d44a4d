//! The time source: the current local calendar date, read once per
//! request and used for display only. Handlers take the date as a
//! parameter, so a fixed date can stand in for the clock.

use vstd::prelude::*;
use chrono::Datelike;
use crate::date::{Date, days_in_month};

verus! {

/// Relies on chrono::Local::now, chrono::DateTime::date_naive and the
/// chrono::Datelike accessors year, month and day: the current local
/// calendar date, whose month is 1..=12 and whose day is 1..=31. The
/// result depends on the clock, so nothing more holds of it.
#[verifier::external_body]
fn now_ymd() -> (r: (i32, u8, u8))
    ensures
        1 <= r.1 <= 12,
        1 <= r.2 <= 31,
{
    let d = chrono::Local::now().date_naive();
    (d.year(), d.month() as u8, d.day() as u8)
}

/// The current local date as a valid date of the canonical form. On a
/// clock whose date falls outside that form (a year past 9999) or off
/// the calendar, the epoch date stands in, so the result is always valid.
pub fn current_date() -> (r: Date)
    ensures
        r.valid(),
{
    let (y, m, d) = now_ymd();
    if 0 <= y && y <= 9999 {
        let year = y as u16;
        if d <= days_in_month(year, m) {
            return Date { year, month: m, day: d };
        }
    }
    Date { year: 1970, month: 1, day: 1 }
}

} // verus!
