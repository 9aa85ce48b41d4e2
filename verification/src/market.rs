use vstd::prelude::*;

use crate::constants::{MARKET_CLOSE_TIME, MARKET_OPEN_CLOSE_MARGIN, MARKET_OPEN_TIME, SECONDS_IN_A_DAY};

verus! {

/// Quotient of `a / b` rounded toward zero, as Rust's `/` on signed integers computes it.
pub open spec fn trunc_div(a: int, b: int) -> int {
    if a >= 0 {
        a / b
    } else {
        -((-a) / b)
    }
}

/// Remainder of `a / b` with the sign of `a`, as Rust's `%` on signed integers computes it.
pub open spec fn trunc_rem(a: int, b: int) -> int {
    a - b * trunc_div(a, b)
}

/// Seconds elapsed since the start of the UTC day of `t` (negative before 1970).
pub open spec fn seconds_since_midnight(t: int) -> int {
    trunc_rem(t, SECONDS_IN_A_DAY as int)
}

/// Day of the week of `t`, Monday = 0, ..., Sunday = 6
/// (1 January 1970, day 0, was a Thursday).
pub open spec fn weekday(t: int) -> int {
    trunc_rem(trunc_div(t, SECONDS_IN_A_DAY as int) + 3, 7)
}

/// The US market is open at `t`: a weekday, within the trading hours.
pub open spec fn market_open(t: int) -> bool {
    &&& 0 <= weekday(t) < 5
    &&& MARKET_OPEN_TIME <= seconds_since_midnight(t) < MARKET_CLOSE_TIME
}

/// `t` lies in the first 15 minutes after the open or after the close, whatever the day.
pub open spec fn near_open_or_close(t: int) -> bool {
    let s = seconds_since_midnight(t);
    ||| MARKET_OPEN_TIME <= s < MARKET_OPEN_TIME + MARKET_OPEN_CLOSE_MARGIN
    ||| MARKET_CLOSE_TIME <= s < MARKET_CLOSE_TIME + MARKET_OPEN_CLOSE_MARGIN
}

/// Whether the US market is open at the given Unix timestamp.
pub fn is_market_open(unix_timestamp: i64) -> (open: bool)
    ensures
        open == market_open(unix_timestamp as int),
{
    let seconds_since_midnight = unix_timestamp % SECONDS_IN_A_DAY;
    let weekday = (unix_timestamp / SECONDS_IN_A_DAY + 3) % 7;

    // Monday = 0, ..., Friday = 4: the weekend is closed.
    if weekday >= 5 {
        return false;
    }
    seconds_since_midnight >= MARKET_OPEN_TIME && seconds_since_midnight < MARKET_CLOSE_TIME
}

/// Whether the timestamp lies within 15 minutes after the market open or after the market close.
pub fn is_within_15_minutes_of_market_open_or_close(unix_timestamp: i64) -> (near: bool)
    ensures
        near == near_open_or_close(unix_timestamp as int),
{
    let seconds_since_midnight = unix_timestamp % SECONDS_IN_A_DAY;

    (seconds_since_midnight >= MARKET_OPEN_TIME && seconds_since_midnight < MARKET_OPEN_TIME
        + MARKET_OPEN_CLOSE_MARGIN) || (seconds_since_midnight >= MARKET_CLOSE_TIME
        && seconds_since_midnight < MARKET_CLOSE_TIME + MARKET_OPEN_CLOSE_MARGIN)
}

/// Before 1970 the market is never open: the seconds since midnight then count below zero.
pub proof fn law_closed_before_epoch(t: int)
    requires
        t < 0,
    ensures
        !market_open(t),
{
    assert(seconds_since_midnight(t) <= 0) by (nonlinear_arith)
        requires
            t < 0,
            seconds_since_midnight(t) == t - 86400 * trunc_div(t, 86400),
            trunc_div(t, 86400) == -((-t) / 86400),
    ;
}

/// On Saturdays and Sundays the market is closed.
pub proof fn law_closed_on_weekends(t: int)
    requires
        weekday(t) >= 5,
    ensures
        !market_open(t),
{
}

/// Opening hours repeat every week: one week later the market is open exactly when it is now.
pub proof fn law_weekly_schedule(t: int)
    requires
        t >= 0,
    ensures
        market_open(t + 7 * 86400) == market_open(t),
{
    let u = t + 7 * 86400;
    assert(u / 86400 == t / 86400 + 7) by (nonlinear_arith)
        requires
            u == t + 7 * 86400,
            t >= 0,
    ;
    assert(u % 86400 == t % 86400) by (nonlinear_arith)
        requires
            u == t + 7 * 86400,
            t >= 0,
    ;
    let d = t / 86400;
    assert(d >= 0) by (nonlinear_arith)
        requires
            t >= 0,
            d == t / 86400,
    ;
    assert((d + 7 + 3) % 7 == (d + 3) % 7) by (nonlinear_arith)
        requires
            d >= 0,
    ;
}

/// In the first 15 minutes after the open of a weekday the market is open; in the first
/// 15 minutes after the close it is closed.
pub proof fn law_windows_around_the_bell(t: int)
    requires
        near_open_or_close(t),
    ensures
        seconds_since_midnight(t) < MARKET_OPEN_TIME + MARKET_OPEN_CLOSE_MARGIN ==> (
        market_open(t) <==> 0 <= weekday(t) < 5),
        seconds_since_midnight(t) >= MARKET_CLOSE_TIME ==> !market_open(t),
{
}

/// From 1970 on, the market is open exactly on the days numbered 0 to 4 from Monday (the
/// epoch's day 0 was a Thursday, hence the 3) between 14:30 and 21:00 UTC.
pub proof fn law_market_hours(t: int)
    requires
        t >= 0,
    ensures
        market_open(t) <==> ((t / 86400 + 3) % 7 < 5 && 52200 <= t % 86400 < 75600),
{
    let d = t / 86400;
    assert(t == 86400 * d + t % 86400) by (nonlinear_arith)
        requires
            t >= 0,
            d == t / 86400,
    ;
    assert(d >= 0) by (nonlinear_arith)
        requires
            t >= 0,
            d == t / 86400,
    ;
    assert(d + 3 == 7 * ((d + 3) / 7) + (d + 3) % 7) by (nonlinear_arith)
        requires
            d >= 0,
    ;
    assert(seconds_since_midnight(t) == t % 86400);
    assert(weekday(t) == (d + 3) % 7);
}

/// From 1970 on, the window after the open or the close depends on the time of day alone:
/// 14:30 to 14:45 and 21:00 to 21:15 UTC, every day of the week.
pub proof fn law_bell_windows(t: int)
    requires
        t >= 0,
    ensures
        near_open_or_close(t) <==> (52200 <= t % 86400 < 53100 || 75600 <= t % 86400 < 76500),
        near_open_or_close(t + 86400) == near_open_or_close(t),
{
    let d = t / 86400;
    assert(t == 86400 * d + t % 86400) by (nonlinear_arith)
        requires
            t >= 0,
            d == t / 86400,
    ;
    assert(seconds_since_midnight(t) == t % 86400);
    let u = t + 86400;
    assert(u % 86400 == t % 86400) by (nonlinear_arith)
        requires
            u == t + 86400,
            t >= 0,
    ;
    let e = u / 86400;
    assert(u == 86400 * e + u % 86400) by (nonlinear_arith)
        requires
            u >= 0,
            e == u / 86400,
    ;
    assert(seconds_since_midnight(u) == u % 86400);
}

/// Before 1970 no timestamp lies in the window after the open or the close.
pub proof fn law_no_bell_window_before_epoch(t: int)
    requires
        t < 0,
    ensures
        !near_open_or_close(t),
{
    assert(seconds_since_midnight(t) <= 0) by (nonlinear_arith)
        requires
            t < 0,
            seconds_since_midnight(t) == t - 86400 * trunc_div(t, 86400),
            trunc_div(t, 86400) == -((-t) / 86400),
    ;
}

} // verus!
