//! The proleptic Gregorian calendar, as spec functions and the facts
//! the timestamp formatter needs. Years are astronomical (year 0 exists
//! and precedes year 1); days count from 1970-01-01.

use vstd::prelude::*;

use vstd::arithmetic::div_mod::{lemma_div_multiples_vanish, lemma_mod_multiples_vanish};

verus! {

/// Gregorian leap years: divisible by 4, except centuries not divisible
/// by 400.
pub open spec fn is_leap(y: int) -> bool {
    y % 4 == 0 && (y % 100 != 0 || y % 400 == 0)
}

/// Days in year `y`.
pub open spec fn year_len(y: int) -> int {
    if is_leap(y) {
        366
    } else {
        365
    }
}

/// Days in month `m` (1 to 12) of year `y`.
pub open spec fn month_len(y: int, m: int) -> int {
    if m == 2 {
        if is_leap(y) {
            29
        } else {
            28
        }
    } else if m == 4 || m == 6 || m == 9 || m == 11 {
        30
    } else {
        31
    }
}

/// Number of leap years among the years before `y`, up to a constant
/// (floor divisions).
pub open spec fn leaps_before(y: int) -> int {
    (y - 1) / 4 - (y - 1) / 100 + (y - 1) / 400
}

/// Days from 1970-01-01 to the first day of year `y` (negative before).
pub open spec fn days_before_year(y: int) -> int {
    365 * (y - 1970) + leaps_before(y) - leaps_before(1970)
}

/// Days from the first of year `y` to the first of month `m`.
pub open spec fn days_before_month(y: int, m: int) -> int
    decreases m,
{
    if m <= 1 {
        0
    } else {
        days_before_month(y, m - 1) + month_len(y, m - 1)
    }
}

/// Days from 1970-01-01 to the date `y-m-d`.
pub open spec fn civil_days(y: int, m: int, d: int) -> int {
    days_before_year(y) + days_before_month(y, m) + d - 1
}

/// `y-m-d` is a date of the calendar.
pub open spec fn valid_date(y: int, m: int, d: int) -> bool {
    1 <= m <= 12 && 1 <= d <= month_len(y, m)
}

/// A year is as long as the distance to the next year's first day.
pub proof fn lemma_year_step(y: int)
    ensures
        days_before_year(y + 1) == days_before_year(y) + year_len(y),
{
    assert(y / 4 - (y - 1) / 4 == if y % 4 == 0 { 1int } else { 0int });
    assert(y / 100 - (y - 1) / 100 == if y % 100 == 0 { 1int } else { 0int });
    assert(y / 400 - (y - 1) / 400 == if y % 400 == 0 { 1int } else { 0int });
}

/// The first day of year `1 + 400 q`: every 400-year cycle holds
/// 146097 days, and 0001-01-01 is 719162 days before 1970-01-01.
pub proof fn lemma_cycle_start(q: int)
    ensures
        days_before_year(1 + 400 * q) == 146097 * q - 719162,
{
    lemma_div_multiples_vanish(100 * q, 4);
    lemma_div_multiples_vanish(4 * q, 100);
    lemma_div_multiples_vanish(q, 400);
    assert(4 * (100 * q) == 400 * q);
    assert(100 * (4 * q) == 400 * q);
    assert((1 + 400 * q - 1) == 400 * q);
    assert(leaps_before(1 + 400 * q) == 97 * q);
    assert(leaps_before(1970) == 477);
}

/// The leap rule repeats every 400 years.
pub proof fn lemma_leap_periodic(y: int, q: int)
    ensures
        is_leap(y + 400 * q) == is_leap(y),
        year_len(y + 400 * q) == year_len(y),
        forall|m: int| #[trigger] month_len(y + 400 * q, m) == month_len(y, m),
{
    lemma_mod_multiples_vanish(100 * q, y, 4);
    lemma_mod_multiples_vanish(4 * q, y, 100);
    lemma_mod_multiples_vanish(q, y, 400);
    assert(4 * (100 * q) + y == y + 400 * q);
    assert(100 * (4 * q) + y == y + 400 * q);
    assert(400 * q + y == y + 400 * q);
}

/// The twelve months fill the year.
pub proof fn lemma_months_fill_year(y: int)
    ensures
        days_before_month(y, 13) == year_len(y),
{
    reveal_with_fuel(days_before_month, 13);
}

/// Later years start later.
pub proof fn lemma_days_before_year_increasing(a: int, b: int)
    requires
        a < b,
    ensures
        days_before_year(a) < days_before_year(b),
    decreases b - a,
{
    lemma_year_step(b - 1);
    if a < b - 1 {
        lemma_days_before_year_increasing(a, b - 1);
    }
}

/// A month of the year starts no later than a later one.
pub proof fn lemma_days_before_month_grows(y: int, m: int, k: int)
    requires
        1 <= m <= k,
    ensures
        days_before_month(y, m) <= days_before_month(y, k),
    decreases k - m,
{
    if m < k {
        lemma_days_before_month_grows(y, m, k - 1);
    }
}

/// A date falls within its year.
pub proof fn lemma_date_within_year(y: int, m: int, d: int)
    requires
        valid_date(y, m, d),
    ensures
        days_before_year(y) <= civil_days(y, m, d) < days_before_year(y + 1),
{
    lemma_days_before_month_grows(y, m + 1, 13);
    lemma_days_before_month_grows(y, 1, m);
    lemma_months_fill_year(y);
    lemma_year_step(y);
}

} // verus!
