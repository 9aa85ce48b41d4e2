use mpl_core_staking::market::{is_market_open, is_within_15_minutes_of_market_open_or_close};
use mpl_core_staking::{MARKET_CLOSE_TIME, MARKET_OPEN_CLOSE_MARGIN, MARKET_OPEN_TIME, SECONDS_IN_A_DAY};

// Monday, 1 January 2024, 00:00:00 UTC.
const MONDAY: i64 = 1_704_067_200;

#[test]
fn constants_describe_the_us_session() {
    assert_eq!(SECONDS_IN_A_DAY, 86_400);
    assert_eq!(MARKET_OPEN_TIME, 14 * 3600 + 30 * 60);
    assert_eq!(MARKET_CLOSE_TIME, 21 * 3600);
    assert_eq!(MARKET_OPEN_CLOSE_MARGIN, 15 * 60);
}

#[test]
fn open_during_weekday_session() {
    assert!(is_market_open(MONDAY + MARKET_OPEN_TIME));
    assert!(is_market_open(MONDAY + 18 * 3600));
    assert!(is_market_open(MONDAY + MARKET_CLOSE_TIME - 1));
}

#[test]
fn closed_outside_session_hours() {
    assert!(!is_market_open(MONDAY));
    assert!(!is_market_open(MONDAY + MARKET_OPEN_TIME - 1));
    assert!(!is_market_open(MONDAY + MARKET_CLOSE_TIME));
    assert!(!is_market_open(MONDAY + SECONDS_IN_A_DAY - 1));
}

#[test]
fn open_every_weekday_from_monday_to_friday() {
    for day in 0..5 {
        assert!(is_market_open(MONDAY + day * SECONDS_IN_A_DAY + 15 * 3600), "day {}", day);
    }
}

#[test]
fn closed_on_saturday_and_sunday() {
    assert!(!is_market_open(MONDAY + 5 * SECONDS_IN_A_DAY + 15 * 3600));
    assert!(!is_market_open(MONDAY + 6 * SECONDS_IN_A_DAY + 15 * 3600));
}

#[test]
fn schedule_repeats_weekly() {
    for hour in 0..24 {
        let t = MONDAY + 2 * SECONDS_IN_A_DAY + hour * 3600;
        assert_eq!(is_market_open(t), is_market_open(t + 7 * SECONDS_IN_A_DAY));
    }
}

#[test]
fn closed_before_the_epoch() {
    assert!(!is_market_open(-1));
    assert!(!is_market_open(-SECONDS_IN_A_DAY + MARKET_OPEN_TIME));
    assert!(!is_market_open(i64::MIN));
}

#[test]
fn epoch_was_a_thursday() {
    // 1 January 1970 was a Thursday: open during the session.
    assert!(is_market_open(MARKET_OPEN_TIME));
    // 3 January 1970 was a Saturday.
    assert!(!is_market_open(2 * SECONDS_IN_A_DAY + MARKET_OPEN_TIME));
}

#[test]
fn windows_after_open_and_close() {
    assert!(is_within_15_minutes_of_market_open_or_close(MONDAY + MARKET_OPEN_TIME));
    assert!(is_within_15_minutes_of_market_open_or_close(MONDAY + MARKET_OPEN_TIME + 899));
    assert!(!is_within_15_minutes_of_market_open_or_close(MONDAY + MARKET_OPEN_TIME + 900));
    assert!(!is_within_15_minutes_of_market_open_or_close(MONDAY + MARKET_OPEN_TIME - 1));
    assert!(is_within_15_minutes_of_market_open_or_close(MONDAY + MARKET_CLOSE_TIME));
    assert!(is_within_15_minutes_of_market_open_or_close(MONDAY + MARKET_CLOSE_TIME + 899));
    assert!(!is_within_15_minutes_of_market_open_or_close(MONDAY + MARKET_CLOSE_TIME + 900));
    // The window does not look at the day of the week.
    assert!(is_within_15_minutes_of_market_open_or_close(MONDAY + 5 * SECONDS_IN_A_DAY + MARKET_OPEN_TIME));
}

#[test]
fn bell_windows_agree_with_opening_hours() {
    let open_window = MONDAY + MARKET_OPEN_TIME + 600;
    let close_window = MONDAY + MARKET_CLOSE_TIME + 600;
    assert!(is_within_15_minutes_of_market_open_or_close(open_window) && is_market_open(open_window));
    assert!(is_within_15_minutes_of_market_open_or_close(close_window) && !is_market_open(close_window));
}

#[test]
fn negative_times_of_day_are_not_in_a_window() {
    assert!(!is_within_15_minutes_of_market_open_or_close(-SECONDS_IN_A_DAY + MARKET_OPEN_TIME));
}
