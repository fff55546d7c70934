//! Arrival lines: the clock time of an arrival, its delay, and the line of text
//! that names the station with both.

use vstd::prelude::*;
use vstd::string::StringExecFns;
use crate::feed::StopTimeEvent;

verus! {

/// The earliest epoch second that has a calendar date: the first second of the
/// year -262143.
pub const MIN_CLOCK_SECONDS: i64 = -8_334_601_228_800;

/// The latest epoch second that has a calendar date: the last second of the
/// year 262142.
pub const MAX_CLOCK_SECONDS: i64 = 8_210_266_876_799;

/// The character of a decimal digit.
pub open spec fn digit_char(d: int) -> char {
    if d == 0 {
        '0'
    } else if d == 1 {
        '1'
    } else if d == 2 {
        '2'
    } else if d == 3 {
        '3'
    } else if d == 4 {
        '4'
    } else if d == 5 {
        '5'
    } else if d == 6 {
        '6'
    } else if d == 7 {
        '7'
    } else if d == 8 {
        '8'
    } else {
        '9'
    }
}

/// A number in decimal notation, without sign or leading zeros.
pub open spec fn decimal_text(n: nat) -> Seq<char>
    decreases n,
{
    if n < 10 {
        seq![digit_char(n as int)]
    } else {
        decimal_text(n / 10).push(digit_char((n % 10) as int))
    }
}

/// A number below one hundred in two digits, zero-padded.
pub open spec fn two_digits(n: int) -> Seq<char> {
    seq![digit_char(n / 10), digit_char(n % 10)]
}

/// Whether an epoch second has a calendar date.
pub open spec fn has_calendar_date(secs: int) -> bool {
    MIN_CLOCK_SECONDS <= secs <= MAX_CLOCK_SECONDS
}

/// The hour of the day, in UTC, of an epoch second.
pub open spec fn clock_hour(secs: int) -> int {
    (secs % 86400) / 3600
}

/// The minute of the hour of an epoch second.
pub open spec fn clock_minute(secs: int) -> int {
    (secs % 3600) / 60
}

/// The wall-clock time of an epoch second in UTC: hour and minute, two digits
/// each, with a colon between them.
pub open spec fn clock_text(secs: int) -> Seq<char> {
    two_digits(clock_hour(secs)) + seq![':'] + two_digits(clock_minute(secs))
}

/// The wall-clock time shown for an arrival time. An epoch second without a
/// calendar date is shown as the epoch itself, midnight.
pub open spec fn shown_clock_text(secs: int) -> Seq<char> {
    if has_calendar_date(secs) {
        clock_text(secs)
    } else {
        clock_text(0)
    }
}

/// The phrase for the arrival time of a stop-time update.
pub open spec fn arrival_phrase(arrival: Option<StopTimeEvent>) -> Seq<char> {
    match arrival {
        Some(event) => match event.time {
            Some(secs) => "Arrives at "@ + shown_clock_text(secs as int),
            None => "Time unknown"@,
        },
        None => "No arrival info"@,
    }
}

/// The phrase for the delay of a stop-time update: empty where no delay is
/// given.
pub open spec fn delay_phrase(arrival: Option<StopTimeEvent>) -> Seq<char> {
    match arrival {
        Some(event) => match event.delay {
            Some(delay) => if delay > 0 {
                " ("@ + decimal_text(delay as nat) + "s delay)"@
            } else {
                " (on time)"@
            },
            None => Seq::empty(),
        },
        None => Seq::empty(),
    }
}

/// One arrival line: the station name, a dash, the arrival phrase and the
/// delay phrase.
pub open spec fn train_line(station_name: Seq<char>, arrival: Option<StopTimeEvent>) -> Seq<char> {
    station_name + " - "@ + arrival_phrase(arrival) + delay_phrase(arrival)
}

/// Formats an epoch second as `HH:MM` in UTC through chrono's
/// `DateTime::from_timestamp` and `DateTime::format` with `%H:%M`. The contract
/// claims that chrono gives a date to exactly the seconds of the years -262143
/// to 262142, and that the text is the zero-padded hour of the day, a colon,
/// and the zero-padded minute of the hour.
#[verifier::external_body]
fn utc_clock(secs: i64) -> (r: Option<String>)
    ensures
        r is Some <==> has_calendar_date(secs as int),
        r matches Some(text) ==> text@ == clock_text(secs as int),
{
    chrono::DateTime::from_timestamp(secs, 0).map(|t| t.format("%H:%M").to_string())
}

/// The text of a decimal digit.
fn digit_text(d: u32) -> (r: &'static str)
    requires
        d < 10,
    ensures
        r@ == seq![digit_char(d as int)],
{
    proof {
        reveal_strlit("0");
        reveal_strlit("1");
        reveal_strlit("2");
        reveal_strlit("3");
        reveal_strlit("4");
        reveal_strlit("5");
        reveal_strlit("6");
        reveal_strlit("7");
        reveal_strlit("8");
        reveal_strlit("9");
    }
    let r = if d == 0 {
        "0"
    } else if d == 1 {
        "1"
    } else if d == 2 {
        "2"
    } else if d == 3 {
        "3"
    } else if d == 4 {
        "4"
    } else if d == 5 {
        "5"
    } else if d == 6 {
        "6"
    } else if d == 7 {
        "7"
    } else if d == 8 {
        "8"
    } else {
        "9"
    };
    assert(r@ =~= seq![digit_char(d as int)]);
    r
}

/// A number in decimal notation.
pub fn decimal_string(n: u32) -> (r: String)
    ensures
        r@ == decimal_text(n as nat),
    decreases n,
{
    if n < 10 {
        digit_text(n).to_owned()
    } else {
        let mut text = decimal_string(n / 10);
        text.append(digit_text(n % 10));
        text
    }
}

/// The wall-clock time shown for an arrival time.
pub fn shown_clock(secs: i64) -> (r: String)
    ensures
        r@ == shown_clock_text(secs as int),
{
    match utc_clock(secs) {
        Some(text) => text,
        None => {
            proof {
                reveal_strlit("00:00");
                assert("00:00"@ =~= clock_text(0));
            }
            "00:00".to_owned()
        },
    }
}

/// The phrase for the arrival time of a stop-time update.
pub fn format_arrival(arrival: &Option<StopTimeEvent>) -> (r: String)
    ensures
        r@ == arrival_phrase(*arrival),
{
    match arrival {
        Some(event) => match event.time {
            Some(secs) => {
                let mut text = "Arrives at ".to_owned();
                let clock = shown_clock(secs);
                text.append(clock.as_str());
                text
            },
            None => "Time unknown".to_owned(),
        },
        None => "No arrival info".to_owned(),
    }
}

/// The phrase for the delay of a stop-time update.
pub fn format_delay(arrival: &Option<StopTimeEvent>) -> (r: String)
    ensures
        r@ == delay_phrase(*arrival),
{
    match arrival {
        Some(event) => match event.delay {
            Some(delay) => {
                if delay > 0 {
                    let mut text = " (".to_owned();
                    let number = decimal_string(delay as u32);
                    text.append(number.as_str());
                    text.append("s delay)");
                    text
                } else {
                    " (on time)".to_owned()
                }
            },
            None => String::new(),
        },
        None => String::new(),
    }
}

/// One arrival line for a resolved station name.
pub fn format_train_line(station_name: &str, arrival: &Option<StopTimeEvent>) -> (r: String)
    ensures
        r@ == train_line(station_name@, *arrival),
{
    let mut text = station_name.to_owned();
    text.append(" - ");
    let arrival_text = format_arrival(arrival);
    text.append(arrival_text.as_str());
    let delay_text = format_delay(arrival);
    text.append(delay_text.as_str());
    text
}

} // verus!
