//! Days since the Unix epoch as a calendar date, in the proleptic Gregorian
//! calendar.

use vstd::prelude::*;
use crate::text::{decimal, decimal_string};

verus! {

pub open spec fn is_leap(y: int) -> bool {
    (y % 4 == 0 && y % 100 != 0) || y % 400 == 0
}

pub open spec fn year_length(y: int) -> int {
    if is_leap(y) {
        366
    } else {
        365
    }
}

pub open spec fn month_length(y: int, m: int) -> int {
    if m == 2 {
        if is_leap(y) {
            29
        } else {
            28
        }
    } else if m == 4 || m == 6 || m == 9 || m == 11 {
        30
    } else {
        31
    }
}

/// The date (year, month, day) `d` days after the first of month `m` of
/// year `y`, counting month by month up to December.
pub open spec fn date_in_year(y: int, m: int, d: int) -> (int, int, int)
    decreases 12 - m,
{
    if m >= 12 || d < month_length(y, m) {
        (y, m, d + 1)
    } else {
        date_in_year(y, m + 1, d - month_length(y, m))
    }
}

/// The date `d` days after January 1 of year `y`, counting year by year.
pub open spec fn date_after(y: int, d: nat) -> (int, int, int)
    decreases d,
{
    if d < year_length(y) {
        date_in_year(y, 1, d as int)
    } else {
        date_after(y + 1, (d - year_length(y)) as nat)
    }
}

/// The date `days` days after January 1, 1970.
pub open spec fn date_of_days(days: nat) -> (int, int, int) {
    date_after(1970, days)
}

pub open spec fn month_name(m: int) -> Seq<char> {
    if m == 1 {
        "January"@
    } else if m == 2 {
        "February"@
    } else if m == 3 {
        "March"@
    } else if m == 4 {
        "April"@
    } else if m == 5 {
        "May"@
    } else if m == 6 {
        "June"@
    } else if m == 7 {
        "July"@
    } else if m == 8 {
        "August"@
    } else if m == 9 {
        "September"@
    } else if m == 10 {
        "October"@
    } else if m == 11 {
        "November"@
    } else if m == 12 {
        "December"@
    } else {
        ""@
    }
}

/// "Month D, Y".
pub open spec fn date_text(date: (int, int, int)) -> Seq<char> {
    month_name(date.1) + " "@ + decimal(date.2 as nat) + ", "@ + decimal(date.0 as nat)
}

/// The number of days in the `n` years from `y` on.
pub open spec fn years_span(y: int, n: nat) -> int
    decreases n,
{
    if n == 0 {
        0
    } else {
        year_length(y) + years_span(y + 1, (n - 1) as nat)
    }
}

proof fn lemma_year_length_period(y: int)
    ensures
        year_length(y + 400) == year_length(y),
{
    assert((y + 400) % 4 == y % 4);
    assert((y + 400) % 100 == y % 100);
    assert((y + 400) % 400 == y % 400);
}

proof fn lemma_years_span_period(y: int, n: nat)
    ensures
        years_span(y + 400, n) == years_span(y, n),
    decreases n,
{
    if n > 0 {
        lemma_year_length_period(y);
        lemma_years_span_period(y + 1, (n - 1) as nat);
    }
}

proof fn lemma_years_span_nonneg(y: int, n: nat)
    ensures
        years_span(y, n) >= 365 * n,
    decreases n,
{
    if n > 0 {
        lemma_years_span_nonneg(y + 1, (n - 1) as nat);
    }
}

/// The number of leap years in `[1, x]`.
spec fn leaps_through(x: int) -> int {
    x / 4 - x / 100 + x / 400
}

proof fn lemma_leaps_step(x: int)
    requires
        x >= 1,
    ensures
        leaps_through(x) - leaps_through(x - 1) == (if is_leap(x) { 1int } else { 0int }),
{
    assert(x / 4 - (x - 1) / 4 == (if x % 4 == 0 { 1int } else { 0int })) by (nonlinear_arith)
        requires x >= 1;
    assert(x / 100 - (x - 1) / 100 == (if x % 100 == 0 { 1int } else { 0int })) by (nonlinear_arith)
        requires x >= 1;
    assert(x / 400 - (x - 1) / 400 == (if x % 400 == 0 { 1int } else { 0int })) by (nonlinear_arith)
        requires x >= 1;
    assert(x % 400 == 0 ==> x % 100 == 0 && x % 4 == 0) by (nonlinear_arith);
    assert(x % 100 == 0 ==> x % 4 == 0) by (nonlinear_arith);
}

proof fn lemma_span_closed(y: int, n: nat)
    requires
        y >= 1,
    ensures
        years_span(y, n) == 365 * n + leaps_through(y + n - 1) - leaps_through(y - 1),
    decreases n,
{
    if n > 0 {
        lemma_span_closed(y + 1, (n - 1) as nat);
        lemma_leaps_step(y);
    }
}

proof fn lemma_cycle_from_epoch()
    ensures
        years_span(1970, 400) == 146097,
{
    lemma_span_closed(1970, 400);
}

/// Every 400 years from 1970 on span 146097 days.
proof fn lemma_cycle(k: nat)
    ensures
        years_span(1970 + 400 * k as int, 400) == 146097,
    decreases k,
{
    if k == 0 {
        lemma_cycle_from_epoch();
    } else {
        lemma_cycle((k - 1) as nat);
        lemma_years_span_period(1970 + 400 * (k - 1) as int, 400);
    }
}

/// Skipping `n` whole years.
proof fn lemma_skip_years(y: int, n: nat, d: nat)
    requires
        d >= years_span(y, n),
    ensures
        date_after(y, d) == date_after(y + n, (d - years_span(y, n)) as nat),
    decreases n,
{
    if n > 0 {
        lemma_years_span_nonneg(y + 1, (n - 1) as nat);
        assert(d >= year_length(y));
        lemma_skip_years(y + 1, (n - 1) as nat, (d - year_length(y)) as nat);
    }
}

/// Skipping `q` whole 400-year cycles from the epoch.
proof fn lemma_skip_cycles(q: nat, r: nat)
    ensures
        date_after(1970, 146097 * q + r) == date_after(1970 + 400 * q as int, r),
    decreases q,
{
    if q > 0 {
        let p = (q - 1) as nat;
        lemma_skip_cycles(p, 146097 + r);
        assert(146097 * q + r == 146097 * p + (146097 + r));
        lemma_cycle(p);
        lemma_skip_years(1970 + 400 * p as int, 400, (146097 + r) as nat);
        assert(1970 + 400 * p + 400 == 1970 + 400 * q);
    }
}

fn is_leap_exec(y: u64) -> (r: bool)
    ensures
        r == is_leap(y as int),
{
    (y % 4 == 0 && y % 100 != 0) || y % 400 == 0
}

fn year_length_exec(y: u64) -> (r: u64)
    ensures
        r == year_length(y as int),
{
    if is_leap_exec(y) {
        366
    } else {
        365
    }
}

fn month_length_exec(y: u64, m: u64) -> (r: u64)
    ensures
        r == month_length(y as int, m as int),
{
    if m == 2 {
        if is_leap_exec(y) {
            29
        } else {
            28
        }
    } else if m == 4 || m == 6 || m == 9 || m == 11 {
        30
    } else {
        31
    }
}

fn month_name_exec(m: u64) -> (r: &'static str)
    ensures
        r@ == month_name(m as int),
{
    if m == 1 {
        "January"
    } else if m == 2 {
        "February"
    } else if m == 3 {
        "March"
    } else if m == 4 {
        "April"
    } else if m == 5 {
        "May"
    } else if m == 6 {
        "June"
    } else if m == 7 {
        "July"
    } else if m == 8 {
        "August"
    } else if m == 9 {
        "September"
    } else if m == 10 {
        "October"
    } else if m == 11 {
        "November"
    } else if m == 12 {
        "December"
    } else {
        ""
    }
}

/// The date `days` days after January 1, 1970, as "Month D, Y".
pub fn days_to_date_string(days: u64) -> (r: String)
    ensures
        r@ == date_text(date_of_days(days as nat)),
{
    let q = days / 146097;
    let mut rem = days % 146097;
    assert(days == 146097 * q + rem);
    proof {
        lemma_skip_cycles(q as nat, rem as nat);
    }
    let top: u64 = 1970 + 400 * q + 146097;
    let mut y: u64 = 1970 + 400 * q;
    while rem >= year_length_exec(y)
        invariant
            y + rem < top,
            top == 1970 + 400 * q + 146097,
            q <= 126263674638832,
            date_of_days(days as nat) == date_after(y as int, rem as nat),
        decreases rem,
    {
        rem = rem - year_length_exec(y);
        y = y + 1;
    }
    let ghost start = rem as int;
    let mut m: u64 = 1;
    while m < 12 && rem >= month_length_exec(y, m)
        invariant
            1 <= m <= 12,
            rem <= start,
            date_in_year(y as int, 1, start) == date_in_year(y as int, m as int, rem as int),
        decreases 12 - m,
    {
        rem = rem - month_length_exec(y, m);
        m = m + 1;
    }
    let day = rem + 1;
    let mut r = String::from_str(month_name_exec(m));
    r.append(" ");
    r.append(decimal_string(day as u128).as_str());
    r.append(", ");
    r.append(decimal_string(y as u128).as_str());
    r
}

} // verus!
