//! What a run is configured with: the target, the number of repetitions and
//! the delay between two requests.

use vstd::prelude::*;

verus! {

/// The number of repetitions of a run for which none was asked.
pub const DEFAULT_REP: u128 = 1;

/// The longest that one request may take unless the configuration says
/// otherwise, in seconds.
pub const REQUEST_TIMEOUT_SECONDS: u64 = 300;

/// Milliseconds in one second.
pub const MILLIS_PER_SECOND: u128 = 1_000;

/// Milliseconds in one minute.
pub const MILLIS_PER_MINUTE: u128 = 60_000;

/// Milliseconds in one hour.
pub const MILLIS_PER_HOUR: u128 = 3_600_000;

/// The value of an optional amount: zero where none was given.
pub open spec fn amount(value: Option<u128>) -> nat {
    match value {
        Some(v) => v as nat,
        None => 0,
    }
}

/// The delay between two requests in milliseconds, as the sum of its four parts.
pub open spec fn delay_millis(
    millis: Option<u128>,
    seconds: Option<u128>,
    mins: Option<u128>,
    hours: Option<u128>,
) -> nat {
    (amount(millis) + amount(seconds) * MILLIS_PER_SECOND + amount(mins) * MILLIS_PER_MINUTE
        + amount(hours) * MILLIS_PER_HOUR) as nat
}

/// `value * unit + sum`, or `None` when that does not fit.
fn add_scaled(sum: u128, value: Option<u128>, unit: u128) -> (total: Option<u128>)
    ensures
        total is Some <==> sum + amount(value) * unit <= u128::MAX,
        total is Some ==> total.unwrap() == sum + amount(value) * unit,
{
    let v: u128 = match value {
        Some(v) => v,
        None => 0,
    };
    match v.checked_mul(unit) {
        Some(scaled) => sum.checked_add(scaled),
        None => None,
    }
}

/// Combines the four parts of the delay into milliseconds. Each part that is
/// absent counts as zero. The result is `None` exactly when the sum is too
/// large for a `u128`.
pub fn combined_delay(
    millis: Option<u128>,
    seconds: Option<u128>,
    mins: Option<u128>,
    hours: Option<u128>,
) -> (delay: Option<u128>)
    ensures
        delay is Some <==> delay_millis(millis, seconds, mins, hours) <= u128::MAX,
        delay is Some ==> delay.unwrap() == delay_millis(millis, seconds, mins, hours),
{
    let Some(a) = add_scaled(0, millis, 1) else {
        return None;
    };
    let Some(b) = add_scaled(a, seconds, MILLIS_PER_SECOND) else {
        return None;
    };
    let Some(c) = add_scaled(b, mins, MILLIS_PER_MINUTE) else {
        return None;
    };
    add_scaled(c, hours, MILLIS_PER_HOUR)
}

/// The configuration of one run.
pub struct Config {
    /// The address that every request goes to.
    pub url: String,
    /// How many requests are made.
    pub rep: u128,
    /// The delay before every request but the first, in milliseconds.
    pub wait_time: u128,
    /// The longest that one request may take, in seconds; `None` leaves the
    /// limit to the client.
    pub timeout: Option<u64>,
    /// Whether the distribution of the samples is drawn at the end.
    pub plot: bool,
}

impl Config {
    /// Builds the configuration from the target, the repetition count and the
    /// four parts of the delay. The target and the count are taken as they
    /// are; the result is `None` exactly when the delay is too large for a
    /// `u128`. A request may take five minutes, and the samples are drawn:
    /// both can be changed in the result.
    pub fn new(
        url: String,
        rep: u128,
        millis: Option<u128>,
        seconds: Option<u128>,
        mins: Option<u128>,
        hours: Option<u128>,
    ) -> (config: Option<Config>)
        ensures
            config is Some <==> delay_millis(millis, seconds, mins, hours) <= u128::MAX,
            config is Some ==> {
                &&& config.unwrap().url == url
                &&& config.unwrap().rep == rep
                &&& config.unwrap().wait_time == delay_millis(millis, seconds, mins, hours)
                &&& config.unwrap().timeout == Some(REQUEST_TIMEOUT_SECONDS)
                &&& config.unwrap().plot
            },
    {
        match combined_delay(millis, seconds, mins, hours) {
            Some(wait_time) => Some(
                Config { url, rep, wait_time, timeout: Some(REQUEST_TIMEOUT_SECONDS), plot: true },
            ),
            None => None,
        }
    }
}

} // verus!
