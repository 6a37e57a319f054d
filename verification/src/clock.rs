//! Reading the wall clock, behind two narrow trusted calls.  Everything
//! that depends on what the clock said is a verified function over the
//! returned plain values.

use vstd::prelude::*;

use chrono::Datelike;

use crate::date::{add_days, month_days, spec_add_days, Date};

verus! {

/// Relies on `chrono::Local::now` and the `Datelike` accessors: the
/// current local calendar date.  Chrono only builds valid proleptic
/// Gregorian dates — month one to twelve, day within the month — and
/// nothing more can be promised of a clock reading.  Chrono's now-call
/// aborts if the system clock reads before the Unix epoch; no
/// precondition can exclude that environmental state.
#[verifier::external_body]
fn clock_today() -> (d: Date)
    ensures
        1 <= d.month <= 12,
        1 <= d.day <= month_days(d.year as int, d.month as int),
{
    let now = chrono::Local::now().date_naive();
    Date { year: now.year(), month: now.month(), day: now.day() }
}

/// Relies on `chrono::DateTime::timestamp`: seconds since the epoch.  Of
/// a clock reading nothing can be promised; as above, chrono's now-call
/// aborts on a system clock before the Unix epoch.
#[verifier::external_body]
fn clock_timestamp() -> (t: i64) {
    chrono::Local::now().timestamp()
}

/// Today's date when the clock reads within the supported years, or the
/// first day of 2000 otherwise — in every case a valid date.
pub fn today_or_default() -> (d: Date)
    ensures
        d.valid(),
{
    let t = clock_today();
    if t.year >= 1900 && t.year <= 2100 {
        t
    } else {
        Date { year: 2000, month: 1, day: 1 }
    }
}

/// The default due date of a fresh invoice: five days after `today`.
pub fn default_due_date(today: Date) -> (d: Date)
    requires
        today.valid(),
    ensures
        d == spec_add_days(today, 5),
        d.valid(),
{
    add_days(today, 5)
}

/// The last four digits of a timestamp, as the human-readable number of
/// a new invoice; never negative, whatever the clock said.
pub fn number_from_timestamp(t: i64) -> (n: i32)
    ensures
        0 <= n < 10000,
        n as int == (t as int) % 10000,
{
    let r = t % 10000;
    let r = if r < 0 {
        r + 10000
    } else {
        r
    };
    r as i32
}

/// A fresh invoice number drawn from the clock.
pub fn fresh_invoice_number() -> (n: i32)
    ensures
        0 <= n < 10000,
{
    let t = clock_timestamp();
    number_from_timestamp(t)
}

} // verus!
