//! Units and the scaled arithmetic shared by every module.

use vstd::prelude::*;

verus! {

/// Nanoseconds in one second.
pub const NANOS_PER_SEC: u64 = 1_000_000_000;

/// Nanoseconds in one millisecond.
pub const NANOS_PER_MILLI: u64 = 1_000_000;

/// The ratio one, in parts per million.
pub const PPM: u64 = 1_000_000;

/// Bits per second in one megabit per second.
pub const BPS_PER_MBPS: u64 = 1_000_000;

/// A rate in micro-hertz times its period in nanoseconds.
pub const UHZ_NANOS: u64 = 1_000_000_000_000_000;

/// The value of `x` brought into the range of `u64`.
pub open spec fn clamp_u64(x: int) -> u64 {
    if x < 0 {
        0
    } else if x > u64::MAX {
        u64::MAX
    } else {
        x as u64
    }
}

/// `a * b / d` rounded down and saturated at `u64::MAX`.
pub open spec fn scaled(a: u64, b: u64, d: u64) -> u64
    recommends
        d > 0,
{
    clamp_u64((a as int * b as int) / (d as int))
}

/// Computes `a * b / d` without losing the high bits of the product.
pub fn mul_div(a: u64, b: u64, d: u64) -> (r: u64)
    requires
        d > 0,
    ensures
        r == scaled(a, b, d),
{
    assert(a as int * b as int <= u64::MAX as int * u64::MAX as int) by (nonlinear_arith)
        requires
            0 <= a as int <= u64::MAX as int,
            0 <= b as int <= u64::MAX as int,
    ;
    assert(0 <= a as int * b as int) by (nonlinear_arith)
        requires
            0 <= a as int,
            0 <= b as int,
    ;
    let wide: u128 = (a as u128) * (b as u128);
    let q: u128 = wide / (d as u128);
    if q > u64::MAX as u128 {
        u64::MAX
    } else {
        q as u64
    }
}

/// A bitrate given in megabits per second, in bits per second, saturated at `u64::MAX`.
pub open spec fn mbps_as_bps(mbps: u64) -> u64 {
    clamp_u64(mbps as int * BPS_PER_MBPS as int)
}

/// Converts megabits per second to bits per second.
pub fn mbps_to_bps(mbps: u64) -> (r: u64)
    ensures
        r == mbps_as_bps(mbps),
{
    if mbps <= u64::MAX / BPS_PER_MBPS {
        mbps * BPS_PER_MBPS
    } else {
        u64::MAX
    }
}

/// The rate, in micro-hertz, of an event that recurs every `interval` nanoseconds;
/// zero where the interval is zero.
pub open spec fn rate_of_interval(interval: u64) -> u64 {
    if interval == 0 {
        0
    } else {
        (UHZ_NANOS as int / interval as int) as u64
    }
}

/// Computes the rate of an interval, guarding the zero interval.
pub fn interval_to_rate(interval: u64) -> (r: u64)
    ensures
        r == rate_of_interval(interval),
        interval == 0 ==> r == 0,
{
    if interval == 0 {
        0
    } else {
        UHZ_NANOS / interval
    }
}

/// The period, in nanoseconds, of a rate in micro-hertz.
pub open spec fn period_of_rate(rate: u64) -> u64
    recommends
        rate > 0,
{
    (UHZ_NANOS as int / rate as int) as u64
}

/// Computes the period of a rate.
pub fn rate_to_interval(rate: u64) -> (r: u64)
    requires
        rate > 0,
    ensures
        r == period_of_rate(rate),
{
    UHZ_NANOS / rate
}

/// The time from `since` to `now`; zero where `now` is the earlier instant.
pub open spec fn elapsed_since(now: u64, since: u64) -> u64 {
    if now >= since {
        (now - since) as u64
    } else {
        0
    }
}

/// Computes the time from `since` to `now`, saturating at zero.
pub fn time_since(now: u64, since: u64) -> (r: u64)
    ensures
        r == elapsed_since(now, since),
{
    if now >= since {
        now - since
    } else {
        0
    }
}

} // verus!
