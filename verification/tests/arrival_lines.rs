use trmnl_plugin_server::arrival::{
    decimal_string, format_arrival, format_delay, format_train_line, shown_clock,
    MAX_CLOCK_SECONDS, MIN_CLOCK_SECONDS,
};
use trmnl_plugin_server::feed::StopTimeEvent;

fn event(time: Option<i64>, delay: Option<i32>) -> Option<StopTimeEvent> {
    Some(StopTimeEvent { time, delay })
}

#[test]
fn delay_of_zero_is_on_time() {
    assert_eq!(format_delay(&event(None, Some(0))), " (on time)");
}

#[test]
fn delay_of_five_seconds_is_named() {
    assert_eq!(format_delay(&event(None, Some(5))), " (5s delay)");
}

#[test]
fn absent_delay_adds_nothing() {
    assert_eq!(format_delay(&event(Some(0), None)), "");
    assert_eq!(format_delay(&None), "");
}

#[test]
fn negative_delay_is_on_time() {
    assert_eq!(format_delay(&event(None, Some(-30))), " (on time)");
    assert_eq!(format_delay(&event(None, Some(i32::MIN))), " (on time)");
}

#[test]
fn long_delays_are_written_in_full() {
    assert_eq!(format_delay(&event(None, Some(1))), " (1s delay)");
    assert_eq!(format_delay(&event(None, Some(10))), " (10s delay)");
    assert_eq!(format_delay(&event(None, Some(120))), " (120s delay)");
    assert_eq!(format_delay(&event(None, Some(i32::MAX))), " (2147483647s delay)");
}

#[test]
fn numbers_in_decimal_notation() {
    assert_eq!(decimal_string(0), "0");
    assert_eq!(decimal_string(9), "9");
    assert_eq!(decimal_string(10), "10");
    assert_eq!(decimal_string(404), "404");
    assert_eq!(decimal_string(1000), "1000");
    assert_eq!(decimal_string(u32::MAX), "4294967295");
}

#[test]
fn arrival_time_is_shown_as_utc_clock_time() {
    // 2015-05-15 00:00:00 UTC.
    assert_eq!(format_arrival(&event(Some(1431648000), None)), "Arrives at 00:00");
    // 2015-05-15 14:05:59 UTC.
    assert_eq!(format_arrival(&event(Some(1431648000 + 14 * 3600 + 5 * 60 + 59), None)), "Arrives at 14:05");
    assert_eq!(format_arrival(&event(Some(0), None)), "Arrives at 00:00");
    assert_eq!(format_arrival(&event(Some(86399), None)), "Arrives at 23:59");
    assert_eq!(format_arrival(&event(Some(3600 * 9 + 60 * 7), None)), "Arrives at 09:07");
}

#[test]
fn arrival_before_the_epoch_counts_back_from_midnight() {
    assert_eq!(shown_clock(-1), "23:59");
    assert_eq!(shown_clock(-60), "23:59");
    assert_eq!(shown_clock(-61), "23:58");
    assert_eq!(shown_clock(-86400), "00:00");
    assert_eq!(shown_clock(-3600 * 5), "19:00");
}

#[test]
fn arrival_without_calendar_date_is_shown_as_midnight() {
    assert_eq!(shown_clock(MAX_CLOCK_SECONDS), "23:59");
    assert_eq!(shown_clock(MAX_CLOCK_SECONDS + 1), "00:00");
    assert_eq!(shown_clock(MIN_CLOCK_SECONDS), "00:00");
    assert_eq!(shown_clock(MIN_CLOCK_SECONDS + 3600 + 60), "01:01");
    assert_eq!(shown_clock(MIN_CLOCK_SECONDS - 1), "00:00");
    assert_eq!(shown_clock(MAX_CLOCK_SECONDS - 59), "23:59");
    assert_eq!(shown_clock(MAX_CLOCK_SECONDS - 60), "23:58");
    assert_eq!(shown_clock(i64::MAX), "00:00");
    assert_eq!(shown_clock(i64::MIN), "00:00");
}

#[test]
fn calendar_range_is_that_of_the_clock() {
    assert!(chrono::DateTime::from_timestamp(MAX_CLOCK_SECONDS, 0).is_some());
    assert!(chrono::DateTime::from_timestamp(MAX_CLOCK_SECONDS + 1, 0).is_none());
    assert!(chrono::DateTime::from_timestamp(MIN_CLOCK_SECONDS, 0).is_some());
    assert!(chrono::DateTime::from_timestamp(MIN_CLOCK_SECONDS - 1, 0).is_none());
}

#[test]
fn missing_time_and_missing_arrival_have_their_phrases() {
    assert_eq!(format_arrival(&event(None, Some(5))), "Time unknown");
    assert_eq!(format_arrival(&None), "No arrival info");
}

#[test]
fn train_line_joins_name_arrival_and_delay() {
    assert_eq!(
        format_train_line("Walnut Creek", &event(Some(1431648000 + 8 * 3600 + 30 * 60), Some(45))),
        "Walnut Creek - Arrives at 08:30 (45s delay)"
    );
    assert_eq!(
        format_train_line("Walnut Creek", &event(Some(1431648000), Some(0))),
        "Walnut Creek - Arrives at 00:00 (on time)"
    );
    assert_eq!(
        format_train_line("Walnut Creek", &event(None, None)),
        "Walnut Creek - Time unknown"
    );
    assert_eq!(format_train_line("ZZZ-1", &None), "ZZZ-1 - No arrival info");
    assert_eq!(format_train_line("", &event(None, Some(7))), " - Time unknown (7s delay)");
}
