//! Countdown engine: time left before a departure, its humanized text and a
//! bounded proximity gauge.
use vstd::prelude::*;
use vstd::string::*;

use humanize_duration::prelude::DurationExt;

use crate::timetable::{DepartureStatus, ScheduledDeparture};

verus! {

/// Seconds of remaining time that make one percent of the proximity gauge.
pub const SECONDS_PER_PERCENT: i64 = 36;

/// Largest magnitude, in seconds, of a duration that chrono can represent.
pub const MAX_DURATION_SECONDS: i64 = 9_223_372_036_854_775;

/// The proximity gauge for a departure `secs` seconds away: a linear map of
/// one percent per 36 seconds, clamped into `[0, 100]`.
pub open spec fn proximity_of(secs: int) -> int {
    if secs <= 0 {
        0
    } else if secs / 36 >= 100 {
        100
    } else {
        secs / 36
    }
}

/// The suffix that follows the humanized countdown.
pub open spec fn status_suffix_of(status: DepartureStatus) -> Seq<char> {
    match status {
        DepartureStatus::OnTime => "ON TIME"@,
        DepartureStatus::Delayed => "DELAYED"@,
        DepartureStatus::Other(raw) => raw@,
    }
}

/// The countdown line: the humanized duration, one space, the status suffix.
pub open spec fn countdown_text_of(human: Seq<char>, status: DepartureStatus) -> Seq<char> {
    human + " "@ + status_suffix_of(status)
}

/// A duration in whole seconds that chrono can hold.
pub open spec fn duration_in_range(secs: int) -> bool {
    -MAX_DURATION_SECONDS <= secs <= MAX_DURATION_SECONDS
}

/// What humanize_duration renders for a duration of `secs` whole seconds,
/// truncated to seconds.
pub uninterp spec fn humanized_of(secs: i64) -> Seq<char>;

/// Relies on chrono's `Duration::seconds` (which panics outside
/// `duration_in_range`) and humanize_duration's `human(Truncate::Second)`:
/// the text depends on the number of seconds alone.
#[verifier::external_body]
fn humanize_seconds(secs: i64) -> (r: String)
    requires
        duration_in_range(secs as int),
    ensures
        r@ == humanized_of(secs),
{
    chrono::Duration::seconds(secs).human(humanize_duration::Truncate::Second).to_string()
}

/// The result of the countdown engine for one departure at one instant.
pub struct Countdown {
    /// Seconds left before the departure; negative once it is overdue.
    pub remaining: i64,
    pub display_text: String,
    /// Gauge value in `[0, 100]`.
    pub proximity_ratio: u8,
}

/// The proximity gauge for a departure `remaining_secs` seconds away.
pub fn proximity_ratio(remaining_secs: i64) -> (r: u8)
    ensures
        r as int == proximity_of(remaining_secs as int),
        r <= 100,
{
    if remaining_secs <= 0 {
        0
    } else if remaining_secs / SECONDS_PER_PERCENT >= 100 {
        100
    } else {
        (remaining_secs / SECONDS_PER_PERCENT) as u8
    }
}

/// The status suffix: `ON TIME`, `DELAYED`, or the feed's raw status.
pub fn status_suffix(status: &DepartureStatus) -> (r: String)
    ensures
        r@ == status_suffix_of(*status),
{
    match status {
        DepartureStatus::OnTime => String::from_str("ON TIME"),
        DepartureStatus::Delayed => String::from_str("DELAYED"),
        DepartureStatus::Other(raw) => raw.clone(),
    }
}

/// The countdown line from an already humanized duration and a status.
pub fn countdown_text(human: &str, status: &DepartureStatus) -> (r: String)
    ensures
        r@ == countdown_text_of(human@, *status),
{
    let suffix = status_suffix(status);
    let mut text = String::from_str(human);
    text.append(" ");
    text.append(suffix.as_str());
    text
}

/// Seconds left from `now` to `departure_time`, both in seconds since the
/// Unix epoch.
pub fn remaining_seconds(departure_time: i64, now: i64) -> (r: i64)
    requires
        duration_in_range(departure_time - now),
    ensures
        r == departure_time - now,
{
    departure_time - now
}

/// The countdown for `departure` at the instant `now` (seconds since the
/// Unix epoch).
pub fn compute(departure: &ScheduledDeparture, now: i64) -> (r: Countdown)
    requires
        duration_in_range(departure.expected_departure_time - now),
    ensures
        r.remaining == departure.expected_departure_time - now,
        r.display_text@ == countdown_text_of(humanized_of(r.remaining), departure.status),
        r.proximity_ratio as int == proximity_of(r.remaining as int),
{
    let remaining = remaining_seconds(departure.expected_departure_time, now);
    let human = humanize_seconds(remaining);
    let display_text = countdown_text(human.as_str(), &departure.status);
    Countdown { remaining, display_text, proximity_ratio: proximity_ratio(remaining) }
}

/// The gauge is full for a departure at least an hour away, empty once the
/// departure is due or overdue, and never decreases as the remaining time
/// grows.
pub proof fn lemma_proximity_bounds(d: int, a: int, b: int)
    ensures
        d >= 3600 ==> proximity_of(d) == 100,
        d <= 0 ==> proximity_of(d) == 0,
        a <= b ==> proximity_of(a) <= proximity_of(b),
        0 <= proximity_of(d) <= 100,
{
    if a <= b && a > 0 {
        assert(a / 36 <= b / 36) by (nonlinear_arith)
            requires
                0 < a <= b,
        ;
    }
    if d >= 3600 {
        assert(d / 36 >= 100) by (nonlinear_arith)
            requires
                d >= 3600,
        ;
    }
}

/// The countdown line ends with exactly `ON TIME`, `DELAYED`, or the raw
/// status, after one space that follows the humanized duration.
pub proof fn lemma_countdown_suffix(human: Seq<char>, raw: String)
    ensures
        countdown_text_of(human, DepartureStatus::OnTime) == human + " "@ + "ON TIME"@,
        countdown_text_of(human, DepartureStatus::Delayed) == human + " "@ + "DELAYED"@,
        countdown_text_of(human, DepartureStatus::Other(raw)) == human + " "@ + raw@,
{
}

} // verus!
