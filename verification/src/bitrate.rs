//! The server's bitrate manager. It takes in what is measured of frames, encoder and network,
//! and at each control tick decides the bitrate and the frame rate of the encoder.
//!
//! The manager reads no clock: every call that depends on the time takes the present instant,
//! in nanoseconds since an origin that the caller keeps fixed.

use crate::ap_stats::{APStats, Client, Interface, IpAddress};
use crate::average::{AverageModel, SlidingWindowAverage};
use crate::nestvr_profiles::{get_profile_config, profile_config, ProfileConfig};
use crate::settings::{
    AveragingStrategy, BitrateAdaptiveFramerateConfig, BitrateConfig, BitrateMode, WindowType,
};
use crate::units::{
    clamp_u64, elapsed_since, interval_to_rate, mbps_as_bps, mbps_to_bps, mul_div, period_of_rate,
    rate_of_interval, rate_to_interval, scaled, time_since, NANOS_PER_MILLI, NANOS_PER_SEC, PPM,
    UHZ_NANOS,
};
use rand::Rng;
use std::collections::VecDeque;
use vstd::prelude::*;

verus! {

/// Time between two decisions where the mode sets none.
pub const UPDATE_INTERVAL: u64 = 1_000_000_000;

/// Samples in the window of an average where the mode sets no bound.
pub const DEFAULT_HISTORY_SIZE: usize = 256;

/// Samples of the frame interval that stay when the frame rate jumps.
pub const FRAMERATE_RESET_HISTORY: usize = 5;

/// The bound on the bitrate before the decoder has ever been too slow.
pub const UNLIMITED_BITRATE: u64 = u64::MAX;

/// What the encoder is asked to do.
#[derive(Clone, Copy, PartialEq, Eq, Debug, Structural)]
pub struct EncoderParams {
    /// Whether this tick decided anything. Where it did not, the other fields are zero.
    pub updated: bool,
    pub bitrate_bps: u64,
    /// The frame rate, in micro-hertz.
    pub framerate: u64,
}

/// The bitrate that was asked for and every limit that had a say, in bits per second.
#[derive(Clone, Copy, PartialEq, Eq, Debug, Structural)]
pub struct NominalBitrateStats {
    pub requested_bps: u64,
    pub scaled_calculated_bps: Option<u64>,
    pub decoder_latency_limiter_bps: Option<u64>,
    pub network_latency_limiter_bps: Option<u64>,
    pub encoder_latency_limiter_bps: Option<u64>,
    pub manual_max_bps: Option<u64>,
    pub manual_min_bps: Option<u64>,
}

/// Every quantity that one decision of the NestVr heuristic went through. Intervals are in
/// nanoseconds, rates in micro-hertz, probabilities in parts per million.
#[derive(Clone, Copy, PartialEq, Eq, Debug, Structural)]
pub struct HeuristicStats {
    pub frame_interval: u64,
    pub server_fps: u64,
    pub steps_bps: u64,
    pub r_steps_bps: u64,
    pub network_heur_fps: u64,
    pub rtt_avg_heur: u64,
    pub random_prob: u64,
    pub threshold_fps: u64,
    pub threshold_rtt: u64,
    pub threshold_u: u64,
    pub requested_bitrate_bps: u64,
}

/// The result of a control tick.
#[derive(Clone, Copy, PartialEq, Eq, Debug, Structural)]
pub struct EncoderUpdate {
    pub params: EncoderParams,
    pub stats: Option<NominalBitrateStats>,
    /// The quantities of the NestVr heuristic, where that mode decided.
    pub heuristic: Option<HeuristicStats>,
}

/// The size of an encoded frame, with the timestamp of the frame.
#[derive(Clone, Copy, PartialEq, Eq, Debug, Structural)]
pub struct PacketSize {
    pub timestamp: u64,
    pub bits: usize,
}

/// Where the heuristic moves the bitrate.
#[derive(Clone, Copy, PartialEq, Eq, Debug, Structural)]
pub enum Direction {
    Up,
    Down,
    Hold,
}

/// How the running averages are windowed under a configuration, and how often it decides.
#[derive(Clone, Copy, PartialEq, Eq, Debug, Structural)]
pub struct WindowPolicy {
    pub max_history_size: Option<usize>,
    pub history_interval: Option<u64>,
    pub ewma_weight: Option<u64>,
    pub update_interval: u64,
}

/// The smaller of two numbers.
pub open spec fn lesser(a: u64, b: u64) -> u64 {
    if a <= b {
        a
    } else {
        b
    }
}

/// The larger of two numbers.
pub open spec fn greater(a: u64, b: u64) -> u64 {
    if a >= b {
        a
    } else {
        b
    }
}

fn least(a: u64, b: u64) -> (r: u64)
    ensures
        r == lesser(a, b),
{
    if a <= b {
        a
    } else {
        b
    }
}

fn most(a: u64, b: u64) -> (r: u64)
    ensures
        r == greater(a, b),
{
    if a >= b {
        a
    } else {
        b
    }
}

/// The frame rate asked of the encoder for a frame interval: intervals over one second count
/// as one second, and an interval of zero gives the largest rate there is.
pub open spec fn encoder_framerate(frame_interval: u64) -> u64 {
    if frame_interval == 0 {
        u64::MAX
    } else {
        (UHZ_NANOS as int / lesser(frame_interval, NANOS_PER_SEC) as int) as u64
    }
}

/// `a * b / d`, saturated; the largest number where `d` is zero.
pub open spec fn ratio_scaled(a: u64, b: u64, d: u64) -> u64 {
    if d == 0 {
        u64::MAX
    } else {
        scaled(a, b, d)
    }
}

fn ratio_scale(a: u64, b: u64, d: u64) -> (r: u64)
    ensures
        r == ratio_scaled(a, b, d),
{
    if d == 0 {
        u64::MAX
    } else {
        mul_div(a, b, d)
    }
}

/// A time in milliseconds, in nanoseconds, saturated.
pub open spec fn millis_as_nanos(millis: u64) -> u64 {
    clamp_u64(millis as int * NANOS_PER_MILLI as int)
}

fn millis_to_nanos(millis: u64) -> (r: u64)
    ensures
        r == millis_as_nanos(millis),
{
    if millis <= u64::MAX / NANOS_PER_MILLI {
        millis * NANOS_PER_MILLI
    } else {
        u64::MAX
    }
}

/// Whether `a / b` is greater than `c / d`, decided without dividing.
pub open spec fn ratio_exceeds(a: u64, b: u64, c: u64, d: u64) -> bool {
    a as int * d as int > c as int * b as int
}

fn ratio_is_over(a: u64, b: u64, c: u64, d: u64) -> (r: bool)
    ensures
        r == ratio_exceeds(a, b, c, d),
{
    assert(a as int * d as int <= u64::MAX as int * u64::MAX as int) by (nonlinear_arith)
        requires
            0 <= a as int <= u64::MAX as int,
            0 <= d as int <= u64::MAX as int,
    ;
    assert(c as int * b as int <= u64::MAX as int * u64::MAX as int) by (nonlinear_arith)
        requires
            0 <= c as int <= u64::MAX as int,
            0 <= b as int <= u64::MAX as int,
    ;
    assert(0 <= a as int * d as int) by (nonlinear_arith)
        requires
            0 <= a as int,
            0 <= d as int,
    ;
    assert(0 <= c as int * b as int) by (nonlinear_arith)
        requires
            0 <= c as int,
            0 <= b as int,
    ;
    (a as u128) * (d as u128) > (c as u128) * (b as u128)
}

/// The position of the first entry of a history with the timestamp `timestamp`; the length
/// of the history where no entry has it.
pub open spec fn first_index(history: Seq<PacketSize>, timestamp: u64) -> int
    decreases history.len(),
{
    if history.len() == 0 {
        0
    } else if history.first().timestamp == timestamp {
        0
    } else {
        1 + first_index(history.drop_first(), timestamp)
    }
}

/// The size of the first entry with the timestamp `timestamp`, where there is one.
pub open spec fn matched_bits(history: Seq<PacketSize>, timestamp: u64) -> Option<usize> {
    let index = first_index(history, timestamp);
    if index < history.len() {
        Some(history[index].bits)
    } else {
        None
    }
}

/// Whether an entry belongs to a later frame than the one with the timestamp `timestamp`.
pub open spec fn later_than(timestamp: u64) -> spec_fn(PacketSize) -> bool {
    |entry: PacketSize| entry.timestamp > timestamp
}

/// The history without its entries of the timestamp `timestamp` and of earlier ones. The
/// entries of later frames stay, in their order.
pub open spec fn drained(history: Seq<PacketSize>, timestamp: u64) -> Seq<PacketSize> {
    history.filter(later_than(timestamp))
}

/// Whether the timestamps of a history never fall from an entry to a later one.
pub open spec fn non_decreasing(history: Seq<PacketSize>) -> bool {
    forall|i: int, j: int|
        0 <= i < j < history.len() ==> (#[trigger] history[i]).timestamp <= (
        #[trigger] history[j]).timestamp
}

/// The number of entries at the front of a history whose timestamp is `timestamp` or
/// earlier.
pub open spec fn leading_up_to(history: Seq<PacketSize>, timestamp: u64) -> int
    decreases history.len(),
{
    if history.len() == 0 || history.first().timestamp > timestamp {
        0
    } else {
        1 + leading_up_to(history.drop_first(), timestamp)
    }
}

/// Whether the network delivers the share of the server's frames that the profile asks for:
/// the frame rate of the network, one over the time between two arrivals, is at least
/// `nfr_thresh` times the frame rate of the server, one over the frame interval. A rate over
/// an interval of zero counts as zero. The test is made without dividing, so that nothing
/// is rounded.
pub open spec fn network_keeps_up(
    frame_interval: u64,
    frame_interarrival: u64,
    nfr_thresh_ppm: u64,
) -> bool {
    ||| frame_interval == 0
    ||| nfr_thresh_ppm == 0
    ||| (frame_interarrival > 0 && frame_interval * PPM >= nfr_thresh_ppm * frame_interarrival)
}

/// Whether a latency report counts one more frame for which the decoder was too slow: the
/// network latency is not zero, the mode is the adaptive one with a limiter on the
/// decoder's latency, and the decoder's latency is over the limit.
pub open spec fn counts_slow_decoder(
    mode: BitrateMode,
    network_latency: u64,
    decoder_latency: u64,
) -> bool {
    &&& network_latency != 0
    &&& mode matches BitrateMode::Adaptive { decoder_latency_limiter: Some(limiter), .. }
    &&& decoder_latency > limiter.max_decoder_latency_ms * NANOS_PER_MILLI
}

/// Says whether a latency report counts one more frame for which the decoder was too slow,
/// so that the count has to have room for it.
pub fn report_counts_slow_decoder(
    config: &BitrateMode,
    network_latency: u64,
    decoder_latency: u64,
) -> (r: bool)
    ensures
        r == counts_slow_decoder(*config, network_latency, decoder_latency),
{
    if network_latency == 0 {
        return false;
    }
    match config {
        BitrateMode::Adaptive { decoder_latency_limiter: Some(limiter), .. } => {
            let millis: u64 = limiter.max_decoder_latency_ms;
            assert(0 <= millis * NANOS_PER_MILLI <= u64::MAX * 1_000_000) by (nonlinear_arith)
                requires
                    0 <= millis <= u64::MAX,
                    NANOS_PER_MILLI == 1_000_000,
            ;
            decoder_latency as u128 > millis as u128 * NANOS_PER_MILLI as u128
        },
        _ => false,
    }
}

/// The decision of the heuristic. A network that does not keep up asks for less. Otherwise
/// a round trip over its threshold asks for less unless the draw falls under the exploration
/// probability, and a round trip within it asks for more where the draw does not exceed that
/// probability.
pub open spec fn direction(
    keeps_up: bool,
    rtt: u64,
    threshold_rtt: u64,
    random_prob: u64,
    threshold_u: u64,
) -> Direction {
    if keeps_up {
        if rtt > threshold_rtt {
            if random_prob >= threshold_u {
                Direction::Down
            } else {
                Direction::Hold
            }
        } else {
            if random_prob <= threshold_u {
                Direction::Up
            } else {
                Direction::Hold
            }
        }
    } else {
        Direction::Down
    }
}

fn keeps_up(frame_interval: u64, frame_interarrival: u64, nfr_thresh_ppm: u64) -> (r: bool)
    ensures
        r == network_keeps_up(frame_interval, frame_interarrival, nfr_thresh_ppm),
{
    frame_interval == 0 || nfr_thresh_ppm == 0 || (frame_interarrival > 0 && !ratio_is_over(
        nfr_thresh_ppm,
        frame_interval,
        PPM,
        frame_interarrival,
    ))
}

/// The bitrate one step from `bitrate` in a direction, kept in the range of `u64`.
pub open spec fn stepped(bitrate: u64, to: Direction, step: u64, r_step: u64) -> u64 {
    match to {
        Direction::Up => clamp_u64(bitrate + step),
        Direction::Down => clamp_u64(bitrate - r_step),
        Direction::Hold => bitrate,
    }
}

/// A bitrate held under the capacity limit and the upper bound, then over the lower bound.
pub open spec fn bounded(bitrate: u64, capacity_limit: u64, lower: u64, upper: u64) -> u64 {
    greater(lesser(lesser(bitrate, capacity_limit), upper), lower)
}

/// `a / d` rounded up.
pub open spec fn ceil_div(a: int, d: int) -> int
    recommends
        d > 0,
{
    (a + d - 1) / d
}

/// The bitrate that lies a whole number of steps from the previous one. A value at or over
/// the previous bitrate is rounded down to a multiple of `step` over it, and never passes
/// `upper`. A value under it is rounded down to a multiple of `r_step` under it, but no
/// further than the last such multiple that is not under `lower`. A step of zero leaves
/// the previous bitrate.
pub open spec fn quantized(
    value: u64,
    r_step: u64,
    step: u64,
    prev: u64,
    upper: u64,
    lower: u64,
) -> int {
    if value >= prev {
        if step == 0 {
            prev as int
        } else {
            let steps_to_value = (value - prev) / (step as int);
            let steps_to_max = (upper - prev) / (step as int);
            prev + vstd::math::min(steps_to_value, steps_to_max) * step
        }
    } else {
        if r_step == 0 {
            prev as int
        } else {
            let steps_to_min = (prev - lower) / (r_step as int);
            let steps_to_value = ceil_div(prev - value, r_step as int);
            prev - vstd::math::min(steps_to_min, steps_to_value) * r_step
        }
    }
}

/// Dividing a negative number rounds down: it gives the negative of the quotient, rounded
/// up, of its absolute value.
pub proof fn lemma_floor_of_negative(x: int, d: int)
    requires
        x >= 0,
        d > 0,
    ensures
        (-x) / d == -ceil_div(x, d),
        ceil_div(x, d) >= 0,
        ceil_div(x, d) * d >= x,
        x > 0 ==> ceil_div(x, d) >= 1,
{
    let c = ceil_div(x, d);
    assert(c >= 0 && c * d >= x && c * d - x < d && (x > 0 ==> c >= 1)) by (nonlinear_arith)
        requires
            c == (x + d - 1) / d,
            x >= 0,
            d > 0,
    ;
    assert(-x == (-c) * d + (c * d - x)) by (nonlinear_arith);
    vstd::arithmetic::div_mod::lemma_fundamental_div_mod_converse(-x, d, -c, c * d - x);
}

fn ceil_quotient(a: u64, d: u64) -> (r: u64)
    requires
        d > 0,
    ensures
        r == ceil_div(a as int, d as int),
{
    let r: u64 = if a % d == 0 {
        a / d
    } else {
        proof {
            vstd::arithmetic::div_mod::lemma_div_is_ordered_by_denominator(a as int, 2, d as int);
        }
        a / d + 1
    };
    assert(r == ceil_div(a as int, d as int)) by (nonlinear_arith)
        requires
            d > 0,
            a >= 0,
            r == if a as int % d as int == 0 {
                a as int / d as int
            } else {
                a as int / d as int + 1
            },
    ;
    r
}

/// Brings a bitrate to a whole number of steps from the previous one; the result is kept in
/// the range of `u64`. Within ordered bounds nothing is cut off: the result lies between the
/// previous bitrate and the value going up, and between the lower bound and the previous
/// bitrate going down.
pub fn quantize_from_previous(
    value: u64,
    r_step: u64,
    step: u64,
    prev: u64,
    upper: u64,
    lower: u64,
) -> (r: u64)
    ensures
        r == clamp_u64(quantized(value, r_step, step, prev, upper, lower)),
        lower <= value <= upper ==> r == quantized(value, r_step, step, prev, upper, lower),
        lower <= value <= upper && value >= prev ==> prev <= r <= value,
        lower <= value <= upper && value < prev ==> lower <= r <= prev,
{
    if value >= prev {
        if step == 0 {
            prev
        } else if upper >= prev {
            let steps_to_value: u64 = (value - prev) / step;
            let steps_to_max: u64 = (upper - prev) / step;
            let n: u64 = least(steps_to_value, steps_to_max);
            assert(n * step <= value - prev) by (nonlinear_arith)
                requires
                    n <= (value - prev) / (step as int),
                    step > 0,
                    n >= 0,
            ;
            assert(n * step >= 0) by (nonlinear_arith)
                requires
                    step > 0,
                    n >= 0,
            ;
            prev + n * step
        } else {
            let steps: u64 = ceil_quotient(prev - upper, step);
            proof {
                lemma_floor_of_negative(prev - upper, step as int);
                assert((value - prev) / (step as int) >= 0) by (nonlinear_arith)
                    requires
                        value - prev >= 0,
                        step > 0,
                ;
                assert(0 <= steps * step <= u64::MAX * u64::MAX) by (nonlinear_arith)
                    requires
                        0 <= steps <= u64::MAX,
                        0 <= step <= u64::MAX,
                ;
            }
            let fall: u128 = steps as u128 * step as u128;
            proof {
                let to_value = (value - prev) / (step as int);
                let to_max = (upper - prev) / (step as int);
                assert(upper - prev == -(prev - upper));
                assert(to_max == -(steps as int));
                assert(vstd::math::min(to_value, to_max) == -(steps as int));
                assert((-(steps as int)) * step == -(steps * step)) by (nonlinear_arith);
                assert(quantized(value, r_step, step, prev, upper, lower) == prev - steps * step);
            }
            if fall >= prev as u128 {
                0
            } else {
                prev - fall as u64
            }
        }
    } else {
        if r_step == 0 {
            prev
        } else if lower <= prev {
            let steps_to_min: u64 = (prev - lower) / r_step;
            let steps_to_value: u64 = ceil_quotient(prev - value, r_step);
            let n: u64 = least(steps_to_min, steps_to_value);
            assert(n * r_step <= prev - lower) by (nonlinear_arith)
                requires
                    n <= (prev - lower) / (r_step as int),
                    r_step > 0,
                    n >= 0,
            ;
            assert(n * r_step >= 0) by (nonlinear_arith)
                requires
                    r_step > 0,
                    n >= 0,
            ;
            prev - n * r_step
        } else {
            let steps: u64 = ceil_quotient(lower - prev, r_step);
            proof {
                lemma_floor_of_negative(lower - prev, r_step as int);
                lemma_floor_of_negative(prev - value, r_step as int);
                assert(0 <= steps * r_step <= u64::MAX * u64::MAX) by (nonlinear_arith)
                    requires
                        0 <= steps <= u64::MAX,
                        0 <= r_step <= u64::MAX,
                ;
            }
            let rise: u128 = steps as u128 * r_step as u128;
            proof {
                let to_min = (prev - lower) / (r_step as int);
                let to_value = ceil_div(prev - value, r_step as int);
                assert(prev - lower == -(lower - prev));
                assert(to_min == -(steps as int));
                assert(to_value >= 0);
                assert(vstd::math::min(to_min, to_value) == -(steps as int));
                assert((-(steps as int)) * r_step == -(steps * r_step)) by (nonlinear_arith);
                assert(quantized(value, r_step, step, prev, upper, lower) == prev + steps
                    * r_step);
            }
            if rise > (u64::MAX - prev) as u128 {
                u64::MAX
            } else {
                prev + rise as u64
            }
        }
    }
}

/// What a bitrate manager is: every quantity that its decisions depend on.
pub struct ManagerModel {
    pub client_ip: IpAddress,
    pub nominal_frame_interval: u64,
    pub frame_interval_average: AverageModel,
    /// The sizes of the frames that were encoded and not yet matched with a latency report,
    /// oldest first.
    pub packet_sizes_bits_history: Seq<PacketSize>,
    pub encoder_latency_average: AverageModel,
    pub network_latency_average: AverageModel,
    pub bitrate_average: AverageModel,
    pub decoder_latency_overstep_count: usize,
    pub last_frame_instant: u64,
    pub last_update_instant: u64,
    pub dynamic_max_bitrate: u64,
    pub previous_config: Option<BitrateConfig>,
    pub update_needed: bool,
    pub last_target_bitrate_bps: u64,
    pub update_interval: u64,
    pub rtt_average: AverageModel,
    pub peak_throughput_average: AverageModel,
    pub frame_interarrival_average: AverageModel,
    pub ap_stats_current: Option<APStats>,
}

/// A manager and the result of a control tick.
pub struct TickOutcome {
    pub manager: ManagerModel,
    pub update: EncoderUpdate,
}

/// The profile that a configuration in NestVr mode names, with the bounds of the
/// configuration.
pub open spec fn window_profile(config: BitrateConfig) -> ProfileConfig
    recommends
        config.mode is NestVr,
{
    profile_config(
        config.mode->NestVr_max_bitrate_bps,
        config.mode->NestVr_min_bitrate_bps,
        config.mode->NestVr_initial_bitrate_bps,
        config.mode->NestVr_nest_vr_profile,
    )
}

/// The windows and the update interval that a configuration asks for. The NestVr mode takes
/// them from its averaging strategy and its profile, the adaptive mode from its history
/// size; a constant bitrate keeps the defaults.
pub open spec fn window_policy(config: BitrateConfig) -> WindowPolicy {
    match config.mode {
        BitrateMode::NestVr {
            max_bitrate_bps,
            min_bitrate_bps,
            initial_bitrate_bps,
            averaging_strategy,
            nest_vr_profile,
        } => {
            let profile = profile_config(
                max_bitrate_bps,
                min_bitrate_bps,
                initial_bitrate_bps,
                nest_vr_profile,
            );
            match averaging_strategy {
                AveragingStrategy::SimpleWindowAverage {
                    window_type: WindowType::BySeconds { sliding_window_ns },
                } => WindowPolicy {
                    max_history_size: None,
                    history_interval: Some(
                        match sliding_window_ns {
                            Some(window) => window,
                            None => profile.update_interval_nestvr_ns,
                        },
                    ),
                    ewma_weight: None,
                    update_interval: profile.update_interval_nestvr_ns,
                },
                AveragingStrategy::SimpleWindowAverage {
                    window_type: WindowType::BySamples { sliding_window_samp },
                } => WindowPolicy {
                    max_history_size: Some(sliding_window_samp),
                    history_interval: None,
                    ewma_weight: None,
                    update_interval: profile.update_interval_nestvr_ns,
                },
                AveragingStrategy::ExponentialMovingAverage { ewma_weight_ppm } => WindowPolicy {
                    max_history_size: Some(DEFAULT_HISTORY_SIZE),
                    history_interval: None,
                    ewma_weight: Some(ewma_weight_ppm),
                    update_interval: profile.update_interval_nestvr_ns,
                },
            }
        },
        BitrateMode::Adaptive { history_size, .. } => WindowPolicy {
            max_history_size: Some(history_size),
            history_interval: None,
            ewma_weight: None,
            update_interval: UPDATE_INTERVAL,
        },
        BitrateMode::ConstantMbps(_) => WindowPolicy {
            max_history_size: Some(DEFAULT_HISTORY_SIZE),
            history_interval: None,
            ewma_weight: None,
            update_interval: UPDATE_INTERVAL,
        },
    }
}

impl EncoderUpdate {
    /// The result of a tick that decides nothing.
    pub open spec fn idle() -> EncoderUpdate {
        EncoderUpdate {
            params: EncoderParams { updated: false, bitrate_bps: 0, framerate: 0 },
            stats: None,
            heuristic: None,
        }
    }
}

impl ManagerModel {
    /// A manager at the instant `now`, before anything was measured.
    pub open spec fn new(
        max_history_size: Option<usize>,
        initial_framerate: u64,
        initial_bitrate_bps: u64,
        history_interval: Option<u64>,
        ewma_weight: Option<u64>,
        client_ip: IpAddress,
        now: u64,
    ) -> ManagerModel {
        ManagerModel {
            client_ip,
            nominal_frame_interval: period_of_rate(initial_framerate),
            frame_interval_average: AverageModel::new(
                16_000_000,
                max_history_size,
                history_interval,
                ewma_weight,
            ),
            packet_sizes_bits_history: Seq::empty(),
            encoder_latency_average: AverageModel::new(
                5_000_000,
                max_history_size,
                history_interval,
                ewma_weight,
            ),
            network_latency_average: AverageModel::new(
                5_000_000,
                max_history_size,
                history_interval,
                ewma_weight,
            ),
            bitrate_average: AverageModel::new(
                initial_bitrate_bps,
                max_history_size,
                history_interval,
                ewma_weight,
            ),
            decoder_latency_overstep_count: 0,
            last_frame_instant: now,
            last_update_instant: now,
            dynamic_max_bitrate: UNLIMITED_BITRATE,
            previous_config: None,
            update_needed: true,
            last_target_bitrate_bps: initial_bitrate_bps,
            update_interval: UPDATE_INTERVAL,
            rtt_average: AverageModel::new(
                5_000_000,
                max_history_size,
                history_interval,
                ewma_weight,
            ),
            peak_throughput_average: AverageModel::new(
                300_000_000,
                max_history_size,
                history_interval,
                ewma_weight,
            ),
            frame_interarrival_average: AverageModel::new(
                period_of_rate(initial_framerate),
                max_history_size,
                history_interval,
                ewma_weight,
            ),
            ap_stats_current: None,
        }
    }

    /// Whether a frame interval is so far from the average that the history of frame
    /// intervals starts over: their ratio is over the multiplier, or under its inverse.
    pub open spec fn framerate_jumped(interval: u64, average: u64, multiplier_ppm: u64) -> bool {
        ratio_exceeds(interval, average, multiplier_ppm, PPM) || ratio_exceeds(
            PPM,
            multiplier_ppm,
            interval,
            average,
        )
    }

    /// The manager after a frame was presented at the instant `now`.
    pub open spec fn frame_present(
        self,
        config: Option<BitrateAdaptiveFramerateConfig>,
        now: u64,
    ) -> ManagerModel {
        let interval = elapsed_since(now, self.last_frame_instant);
        let submitted = self.frame_interval_average.submit(interval, now);
        let jumped = config matches Some(adaptive) && Self::framerate_jumped(
            interval,
            submitted.average(),
            adaptive.framerate_reset_threshold_multiplier_ppm,
        );
        ManagerModel {
            last_frame_instant: now,
            frame_interval_average: if jumped {
                submitted.retain(FRAMERATE_RESET_HISTORY)
            } else {
                submitted
            },
            update_needed: self.update_needed || jumped,
            ..self
        }
    }

    /// The manager after a frame of `size_bytes` bytes was encoded.
    pub open spec fn frame_encoded(
        self,
        timestamp: u64,
        encoder_latency: u64,
        size_bytes: usize,
        now: u64,
    ) -> ManagerModel {
        ManagerModel {
            encoder_latency_average: self.encoder_latency_average.submit(encoder_latency, now),
            packet_sizes_bits_history: self.packet_sizes_bits_history.push(
                PacketSize { timestamp, bits: (size_bytes * 8) as usize },
            ),
            ..self
        }
    }

    /// The manager after a report on the network.
    pub open spec fn network_statistics(
        self,
        network_rtt: u64,
        peak_throughput_bps: u64,
        frame_interarrival: u64,
        now: u64,
    ) -> ManagerModel {
        ManagerModel {
            rtt_average: self.rtt_average.submit(network_rtt, now),
            peak_throughput_average: self.peak_throughput_average.submit(peak_throughput_bps, now),
            frame_interarrival_average: self.frame_interarrival_average.submit(
                frame_interarrival,
                now,
            ),
            ..self
        }
    }

    /// The manager after the decoder's latency of one frame was held against the limiter of
    /// the adaptive mode. A latency over the limit counts; as the count reaches the number
    /// of frames that the limiter allows, the bound on the bitrate becomes the smaller of the
    /// average bitrate and the old bound, times the limiter's multiplier, and the count starts
    /// over. A latency within the limit clears the count.
    pub open spec fn limited_by_decoder(self, mode: BitrateMode, decoder_latency: u64) -> ManagerModel {
        match mode {
            BitrateMode::Adaptive { decoder_latency_limiter: Some(limiter), .. } => {
                if decoder_latency > limiter.max_decoder_latency_ms * NANOS_PER_MILLI {
                    if self.decoder_latency_overstep_count + 1 == limiter.latency_overstep_frames {
                        ManagerModel {
                            dynamic_max_bitrate: scaled(
                                lesser(self.bitrate_average.average(), self.dynamic_max_bitrate),
                                limiter.latency_overstep_multiplier_ppm,
                                PPM,
                            ),
                            update_needed: true,
                            decoder_latency_overstep_count: 0,
                            ..self
                        }
                    } else {
                        ManagerModel {
                            decoder_latency_overstep_count: (self.decoder_latency_overstep_count
                                + 1) as usize,
                            ..self
                        }
                    }
                } else {
                    ManagerModel { decoder_latency_overstep_count: 0, ..self }
                }
            },
            _ => self,
        }
    }

    /// The manager after the latencies of the frame with the timestamp `timestamp` were
    /// reported. A network latency of zero changes nothing. Otherwise the history of packet
    /// sizes loses the entries of that frame and of earlier ones, and the size of the first
    /// entry of that frame, over the network latency, is a sample of the bitrate. Where the
    /// history holds no entry of that frame, no sample is submitted.
    pub open spec fn frame_latencies(
        self,
        mode: BitrateMode,
        timestamp: u64,
        network_latency: u64,
        decoder_latency: u64,
        now: u64,
    ) -> ManagerModel {
        if network_latency == 0 {
            self
        } else {
            ManagerModel {
                network_latency_average: self.network_latency_average.submit(network_latency, now),
                bitrate_average: match matched_bits(self.packet_sizes_bits_history, timestamp) {
                    Some(bits) => self.bitrate_average.submit(
                        scaled(bits as u64, NANOS_PER_SEC, network_latency),
                        now,
                    ),
                    None => self.bitrate_average,
                },
                packet_sizes_bits_history: drained(self.packet_sizes_bits_history, timestamp),
                ..self
            }.limited_by_decoder(mode, decoder_latency)
        }
    }
}

/// The server's bitrate manager.
pub struct BitrateManager {
    client_ip: IpAddress,
    nominal_frame_interval: u64,
    frame_interval_average: SlidingWindowAverage,
    packet_sizes_bits_history: VecDeque<PacketSize>,
    encoder_latency_average: SlidingWindowAverage,
    network_latency_average: SlidingWindowAverage,
    bitrate_average: SlidingWindowAverage,
    decoder_latency_overstep_count: usize,
    last_frame_instant: u64,
    last_update_instant: u64,
    dynamic_max_bitrate: u64,
    previous_config: Option<BitrateConfig>,
    update_needed: bool,
    last_target_bitrate_bps: u64,
    update_interval: u64,
    rtt_average: SlidingWindowAverage,
    peak_throughput_average: SlidingWindowAverage,
    frame_interarrival_average: SlidingWindowAverage,
    ap_stats_current: Option<APStats>,
}

impl View for BitrateManager {
    type V = ManagerModel;

    closed spec fn view(&self) -> ManagerModel {
        ManagerModel {
            client_ip: self.client_ip,
            nominal_frame_interval: self.nominal_frame_interval,
            frame_interval_average: self.frame_interval_average@,
            packet_sizes_bits_history: self.packet_sizes_bits_history@,
            encoder_latency_average: self.encoder_latency_average@,
            network_latency_average: self.network_latency_average@,
            bitrate_average: self.bitrate_average@,
            decoder_latency_overstep_count: self.decoder_latency_overstep_count,
            last_frame_instant: self.last_frame_instant,
            last_update_instant: self.last_update_instant,
            dynamic_max_bitrate: self.dynamic_max_bitrate,
            previous_config: self.previous_config,
            update_needed: self.update_needed,
            last_target_bitrate_bps: self.last_target_bitrate_bps,
            update_interval: self.update_interval,
            rtt_average: self.rtt_average@,
            peak_throughput_average: self.peak_throughput_average@,
            frame_interarrival_average: self.frame_interarrival_average@,
            ap_stats_current: self.ap_stats_current,
        }
    }
}

impl BitrateManager {
    /// A manager at the instant `now`. The frame rate is in micro-hertz.
    pub fn new(
        max_history_size: Option<usize>,
        initial_framerate: u64,
        initial_bitrate_bps: u64,
        history_interval: Option<u64>,
        ewma_weight_val: Option<u64>,
        client_ip: IpAddress,
        now: u64,
    ) -> (r: BitrateManager)
        requires
            initial_framerate > 0,
        ensures
            r@ == ManagerModel::new(
                max_history_size,
                initial_framerate,
                initial_bitrate_bps,
                history_interval,
                ewma_weight_val,
                client_ip,
                now,
            ),
    {
        let frame_interval: u64 = rate_to_interval(initial_framerate);
        BitrateManager {
            client_ip,
            nominal_frame_interval: frame_interval,
            frame_interval_average: SlidingWindowAverage::new(
                16_000_000,
                max_history_size,
                history_interval,
                ewma_weight_val,
            ),
            packet_sizes_bits_history: VecDeque::new(),
            encoder_latency_average: SlidingWindowAverage::new(
                5_000_000,
                max_history_size,
                history_interval,
                ewma_weight_val,
            ),
            network_latency_average: SlidingWindowAverage::new(
                5_000_000,
                max_history_size,
                history_interval,
                ewma_weight_val,
            ),
            bitrate_average: SlidingWindowAverage::new(
                initial_bitrate_bps,
                max_history_size,
                history_interval,
                ewma_weight_val,
            ),
            decoder_latency_overstep_count: 0,
            last_frame_instant: now,
            last_update_instant: now,
            dynamic_max_bitrate: UNLIMITED_BITRATE,
            previous_config: None,
            update_needed: true,
            last_target_bitrate_bps: initial_bitrate_bps,
            update_interval: UPDATE_INTERVAL,
            rtt_average: SlidingWindowAverage::new(
                5_000_000,
                max_history_size,
                history_interval,
                ewma_weight_val,
            ),
            peak_throughput_average: SlidingWindowAverage::new(
                300_000_000,
                max_history_size,
                history_interval,
                ewma_weight_val,
            ),
            frame_interarrival_average: SlidingWindowAverage::new(
                frame_interval,
                max_history_size,
                history_interval,
                ewma_weight_val,
            ),
            ap_stats_current: None,
        }
    }

    /// Sets the frame interval that the encoder aims for, from a frame rate in micro-hertz.
    pub fn update_nominal_frame_interval(&mut self, fps: u64)
        requires
            fps > 0,
        ensures
            final(self)@ == (ManagerModel {
                nominal_frame_interval: period_of_rate(fps),
                ..old(self)@
            }),
    {
        self.nominal_frame_interval = rate_to_interval(fps);
    }

    /// The number of frames in a row for which the decoder was too slow.
    pub fn decoder_latency_overstep_count(&self) -> (r: usize)
        ensures
            r == self@.decoder_latency_overstep_count,
    {
        self.decoder_latency_overstep_count
    }

    /// Looks up the client with the address `client_ip`: the first interface that serves it,
    /// and its first client with that address. Both are `None` where no client has it.
    pub fn find_client_interface<'a>(&self, ap_stats: &'a APStats, client_ip: IpAddress) -> (r: (
        Option<&'a Interface>,
        Option<&'a Client>,
    ))
        ensures
            match r {
                (Some(interface), Some(client)) => exists|i: int, c: int|
                    #![trigger ap_stats.first_served_at(client_ip, i, c)]
                    {
                        &&& ap_stats.first_served_at(client_ip, i, c)
                        &&& *interface == ap_stats.interfaces@[i]
                        &&& *client == ap_stats.interfaces@[i].clients@[c]
                    },
                (None, None) => !ap_stats.serves(client_ip),
                _ => false,
            },
    {
        match ap_stats.position_of_client(client_ip) {
            Some((i, c)) => {
                assert(ap_stats.first_served_at(client_ip, i as int, c as int));
                (Some(&ap_stats.interfaces[i]), Some(&ap_stats.interfaces[i].clients[c]))
            },
            None => (None, None),
        }
    }

    /// Takes in the instant at which a frame was presented.
    pub fn report_frame_present(
        &mut self,
        config: &Option<BitrateAdaptiveFramerateConfig>,
        now: u64,
    )
        ensures
            final(self)@ == old(self)@.frame_present(*config, now),
    {
        let interval: u64 = time_since(now, self.last_frame_instant);
        self.last_frame_instant = now;
        self.frame_interval_average.submit_sample(interval, now);
        if let Some(adaptive) = config {
            let average: u64 = self.frame_interval_average.get_average();
            let multiplier: u64 = adaptive.framerate_reset_threshold_multiplier_ppm;
            if ratio_is_over(interval, average, multiplier, PPM) || ratio_is_over(
                PPM,
                multiplier,
                interval,
                average,
            ) {
                self.frame_interval_average.retain(FRAMERATE_RESET_HISTORY);
                self.update_needed = true;
            }
        }
    }

    /// Takes in the size of an encoded frame and the time that the encoder took.
    pub fn report_frame_encoded(
        &mut self,
        timestamp: u64,
        encoder_latency: u64,
        size_bytes: usize,
        now: u64,
    )
        requires
            size_bytes * 8 <= usize::MAX,
        ensures
            final(self)@ == old(self)@.frame_encoded(timestamp, encoder_latency, size_bytes, now),
    {
        self.encoder_latency_average.submit_sample(encoder_latency, now);
        self.packet_sizes_bits_history.push_back(PacketSize { timestamp, bits: size_bytes * 8 });
    }

    /// Takes in a report on the network: the round-trip time, the peak throughput and the
    /// time between the arrivals of two frames.
    pub fn report_network_statistics(
        &mut self,
        network_rtt: u64,
        peak_throughput_bps: u64,
        frame_interarrival: u64,
        now: u64,
    )
        ensures
            final(self)@ == old(self)@.network_statistics(
                network_rtt,
                peak_throughput_bps,
                frame_interarrival,
                now,
            ),
    {
        self.rtt_average.submit_sample(network_rtt, now);
        self.peak_throughput_average.submit_sample(peak_throughput_bps, now);
        self.frame_interarrival_average.submit_sample(frame_interarrival, now);
    }

    /// Keeps a snapshot of the access point's statistics and says whether the client of this
    /// manager is in it. The snapshot has no say in the bitrate.
    pub fn report_ap_statistics(&mut self, ap_stats: APStats) -> (found: bool)
        ensures
            final(self)@ == (ManagerModel { ap_stats_current: Some(ap_stats), ..old(self)@ }),
            found == ap_stats.serves(old(self)@.client_ip),
    {
        let found = ap_stats.position_of_client(self.client_ip).is_some();
        self.ap_stats_current = Some(ap_stats);
        found
    }

    fn drain_history(&mut self, timestamp: u64) -> (bits: Option<usize>)
        ensures
            bits == matched_bits(old(self)@.packet_sizes_bits_history, timestamp),
            final(self)@ == (ManagerModel {
                packet_sizes_bits_history: drained(
                    old(self)@.packet_sizes_bits_history,
                    timestamp,
                ),
                ..old(self)@
            }),
    {
        let ghost history = self.packet_sizes_bits_history@;
        let ghost mut found: int = -1;
        let n = self.packet_sizes_bits_history.len();
        let mut kept: VecDeque<PacketSize> = VecDeque::new();
        let mut bits: Option<usize> = None;
        let mut i: usize = 0;
        proof {
            reveal(Seq::filter);
        }
        while i < n
            invariant
                i <= n,
                n == history.len(),
                history == self.packet_sizes_bits_history@,
                self@ == old(self)@,
                kept@ == history.take(i as int).filter(later_than(timestamp)),
                -1 <= found < i,
                found < 0 ==> bits is None && forall|j: int|
                    0 <= j < i ==> (#[trigger] history[j]).timestamp != timestamp,
                found >= 0 ==> bits == Some(history[found].bits) && history[found].timestamp
                    == timestamp && forall|j: int|
                    0 <= j < found ==> (#[trigger] history[j]).timestamp != timestamp,
            decreases n - i,
        {
            let entry = self.packet_sizes_bits_history[i];
            proof {
                reveal(Seq::filter);
                assert(history.take(i + 1).drop_last() =~= history.take(i as int));
                assert(history.take(i + 1).last() == entry);
            }
            if entry.timestamp > timestamp {
                kept.push_back(entry);
            } else if entry.timestamp == timestamp && bits.is_none() {
                bits = Some(entry.bits);
                proof {
                    found = i as int;
                }
            }
            i = i + 1;
        }
        proof {
            assert(history.take(n as int) =~= history);
            lemma_first_index(history, timestamp);
        }
        self.packet_sizes_bits_history = kept;
        bits
    }

    /// Takes in the latencies of the frame with the timestamp `timestamp`.
    pub fn report_frame_latencies(
        &mut self,
        config: &BitrateMode,
        timestamp: u64,
        network_latency: u64,
        decoder_latency: u64,
        now: u64,
    )
        requires
            counts_slow_decoder(*config, network_latency, decoder_latency) ==> old(
                self,
            )@.decoder_latency_overstep_count < usize::MAX,
        ensures
            final(self)@ == old(self)@.frame_latencies(
                *config,
                timestamp,
                network_latency,
                decoder_latency,
                now,
            ),
            network_latency != 0 ==> final(self)@.packet_sizes_bits_history == drained(
                old(self)@.packet_sizes_bits_history,
                timestamp,
            ),
            old(self)@.packet_sizes_bits_history.len() == 0 ==> final(self)@.bitrate_average == old(
                self,
            )@.bitrate_average,
            network_latency != 0 ==> forall|i: int|
                0 <= i < final(self)@.packet_sizes_bits_history.len() ==> (
                #[trigger] final(self)@.packet_sizes_bits_history[i]).timestamp > timestamp,
            network_latency != 0 && non_decreasing(old(self)@.packet_sizes_bits_history)
                ==> final(self)@.packet_sizes_bits_history == old(
                self,
            )@.packet_sizes_bits_history.skip(
                leading_up_to(old(self)@.packet_sizes_bits_history, timestamp),
            ),
    {
        proof {
            lemma_drained_is_later(self@.packet_sizes_bits_history, timestamp);
            if non_decreasing(self@.packet_sizes_bits_history) {
                lemma_drained_of_ordered(self@.packet_sizes_bits_history, timestamp);
            }
        }
        if network_latency == 0 {
            return ;
        }
        self.network_latency_average.submit_sample(network_latency, now);
        if let Some(bits) = self.drain_history(timestamp) {
            self.bitrate_average.submit_sample(
                mul_div(bits as u64, NANOS_PER_SEC, network_latency),
                now,
            );
        }
        if let BitrateMode::Adaptive { decoder_latency_limiter: Some(limiter), .. } = config {
            if report_counts_slow_decoder(config, network_latency, decoder_latency) {
                self.decoder_latency_overstep_count = self.decoder_latency_overstep_count + 1;
                if self.decoder_latency_overstep_count == limiter.latency_overstep_frames {
                    self.dynamic_max_bitrate = mul_div(
                        least(self.bitrate_average.get_average(), self.dynamic_max_bitrate),
                        limiter.latency_overstep_multiplier_ppm,
                        PPM,
                    );
                    self.update_needed = true;
                    self.decoder_latency_overstep_count = 0;
                }
            } else {
                self.decoder_latency_overstep_count = 0;
            }
        }
    }
}

/// A bitrate held under a limit, where there is one.
pub open spec fn limited(bitrate: u64, limit: Option<u64>) -> u64 {
    match limit {
        Some(limit) => lesser(bitrate, limit),
        None => bitrate,
    }
}

/// A bitrate held over a floor, where there is one.
pub open spec fn raised(bitrate: u64, floor: Option<u64>) -> u64 {
    match floor {
        Some(floor) => greater(bitrate, floor),
        None => bitrate,
    }
}

/// A bound given in megabits per second, in bits per second.
pub open spec fn bound_as_bps(bound_mbps: Option<u64>) -> Option<u64> {
    match bound_mbps {
        Some(mbps) => Some(mbps_as_bps(mbps)),
        None => None,
    }
}

impl ManagerModel {
    /// Whether a configuration differs from the one that the manager last saw.
    pub open spec fn config_changed(self, config: BitrateConfig) -> bool {
        self.previous_config != Some(config)
    }

    /// Whether a tick at the instant `now` decides nothing: the configuration is the old
    /// one, nothing asked for a decision, and either the update interval has not passed or
    /// the bitrate is constant.
    pub open spec fn is_idle(self, config: BitrateConfig, now: u64) -> bool {
        &&& !self.config_changed(config)
        &&& !self.update_needed
        &&& (now < self.last_update_instant + self.update_interval
            || config.mode is ConstantMbps)
    }

    /// The manager after it took over a new configuration: every running average is
    /// windowed as the configuration asks.
    pub open spec fn adopted(self, config: BitrateConfig) -> ManagerModel {
        let policy = window_policy(config);
        ManagerModel {
            previous_config: Some(config),
            update_interval: policy.update_interval,
            frame_interval_average: self.frame_interval_average.reconfigured(
                policy.max_history_size,
                policy.history_interval,
                policy.ewma_weight,
            ),
            encoder_latency_average: self.encoder_latency_average.reconfigured(
                policy.max_history_size,
                policy.history_interval,
                policy.ewma_weight,
            ),
            network_latency_average: self.network_latency_average.reconfigured(
                policy.max_history_size,
                policy.history_interval,
                policy.ewma_weight,
            ),
            rtt_average: self.rtt_average.reconfigured(
                policy.max_history_size,
                policy.history_interval,
                policy.ewma_weight,
            ),
            bitrate_average: self.bitrate_average.reconfigured(
                policy.max_history_size,
                policy.history_interval,
                policy.ewma_weight,
            ),
            peak_throughput_average: self.peak_throughput_average.reconfigured(
                policy.max_history_size,
                policy.history_interval,
                policy.ewma_weight,
            ),
            frame_interarrival_average: self.frame_interarrival_average.reconfigured(
                policy.max_history_size,
                policy.history_interval,
                policy.ewma_weight,
            ),
            ..self
        }
    }

    /// The manager as a tick finds it once the configuration is taken over.
    pub open spec fn prepared(self, config: BitrateConfig) -> ManagerModel {
        if self.config_changed(config) {
            self.adopted(config)
        } else {
            self
        }
    }

    /// One decision of the NestVr heuristic for a draw `random_prob`, with every quantity
    /// that it goes through. The frame rates and their threshold are reported in whole
    /// micro-hertz; whether the network keeps up is decided on the intervals themselves. The
    /// last target moves one step, is held under the share of the
    /// peak throughput that the profile allows and within the profile's bounds, and is then
    /// brought to a whole number of steps from the last target.
    pub open spec fn heuristic(self, profile: ProfileConfig, random_prob: u64) -> HeuristicStats {
        let frame_interval = self.frame_interval_average.average();
        let server_fps = rate_of_interval(frame_interval);
        let network_heur_fps = rate_of_interval(self.frame_interarrival_average.average());
        let rtt_avg_heur = self.rtt_average.average();
        let threshold_fps = scaled(profile.nfr_thresh_ppm, server_fps, PPM);
        let threshold_rtt = scaled(frame_interval, profile.rtt_thresh_scaling_factor_ppm, PPM);
        let threshold_u = profile.rtt_explor_prob_ppm;
        let candidate = stepped(
            self.last_target_bitrate_bps,
            direction(
                network_keeps_up(
                    frame_interval,
                    self.frame_interarrival_average.average(),
                    profile.nfr_thresh_ppm,
                ),
                rtt_avg_heur,
                threshold_rtt,
                random_prob,
                threshold_u,
            ),
            profile.step_size_bps,
            profile.r_step_size_bps,
        );
        let capacity_limit = scaled(
            profile.capacity_scaling_factor_ppm,
            self.peak_throughput_average.average(),
            PPM,
        );
        let within = bounded(
            candidate,
            capacity_limit,
            profile.lower_bound(),
            profile.upper_bound(),
        );
        HeuristicStats {
            frame_interval,
            server_fps,
            steps_bps: profile.step_size_bps,
            r_steps_bps: profile.r_step_size_bps,
            network_heur_fps,
            rtt_avg_heur,
            random_prob,
            threshold_fps,
            threshold_rtt,
            threshold_u,
            requested_bitrate_bps: clamp_u64(
                quantized(
                    within,
                    profile.r_step_size_bps,
                    profile.step_size_bps,
                    self.last_target_bitrate_bps,
                    profile.upper_bound(),
                    profile.lower_bound(),
                ),
            ),
        }
    }

    /// The limit that the encoder's latency puts on the bitrate: the average bitrate times
    /// the largest saturation allowed, over the saturation measured, which is the encoder's
    /// latency over the nominal frame interval.
    pub open spec fn encoder_limit(self, max_saturation_multiplier_ppm: u64) -> u64 {
        ratio_scaled(
            scaled(self.bitrate_average.average(), max_saturation_multiplier_ppm, PPM),
            self.nominal_frame_interval,
            self.encoder_latency_average.average(),
        )
    }

    /// Whether the encoder's latency takes a larger share of the nominal frame interval
    /// than allowed.
    pub open spec fn encoder_saturated(self, max_saturation_multiplier_ppm: u64) -> bool {
        ratio_exceeds(
            self.encoder_latency_average.average(),
            self.nominal_frame_interval,
            max_saturation_multiplier_ppm,
            PPM,
        )
    }

    /// The limit that the network's latency puts on the bitrate: the average bitrate times
    /// the latency allowed over the latency measured.
    pub open spec fn network_limit(self, max_network_latency_ms: u64) -> u64 {
        ratio_scaled(
            self.bitrate_average.average(),
            millis_as_nanos(max_network_latency_ms),
            self.network_latency_average.average(),
        )
    }

    /// One decision of the adaptive mode, with every limit that had a say: the average
    /// bitrate times the saturation multiplier, held under the decoder's bound, under the
    /// limit of the network's latency, under the limit of a saturated encoder and under the
    /// manual maximum, then over the manual minimum.
    pub open spec fn adaptive(
        self,
        saturation_multiplier_ppm: u64,
        max_bitrate_mbps: Option<u64>,
        min_bitrate_mbps: Option<u64>,
        max_network_latency_ms: Option<u64>,
        encoder_latency_limiter: Option<crate::settings::EncoderLatencyLimiter>,
    ) -> NominalBitrateStats {
        let scaled_calculated = scaled(
            self.bitrate_average.average(),
            saturation_multiplier_ppm,
            PPM,
        );
        let network_latency_limiter = match max_network_latency_ms {
            Some(millis) => Some(self.network_limit(millis)),
            None => None,
        };
        let encoder_latency_limiter_bps = match encoder_latency_limiter {
            Some(limiter) => Some(self.encoder_limit(limiter.max_saturation_multiplier_ppm)),
            None => None,
        };
        let encoder_applies = encoder_latency_limiter matches Some(limiter)
            && self.encoder_saturated(limiter.max_saturation_multiplier_ppm);
        let limited_bps = limited(
            limited(
                limited(lesser(scaled_calculated, self.dynamic_max_bitrate), network_latency_limiter),
                if encoder_applies {
                    encoder_latency_limiter_bps
                } else {
                    None
                },
            ),
            bound_as_bps(max_bitrate_mbps),
        );
        NominalBitrateStats {
            requested_bps: raised(limited_bps, bound_as_bps(min_bitrate_mbps)),
            scaled_calculated_bps: Some(scaled_calculated),
            decoder_latency_limiter_bps: Some(self.dynamic_max_bitrate),
            network_latency_limiter_bps: network_latency_limiter,
            encoder_latency_limiter_bps,
            manual_max_bps: bound_as_bps(max_bitrate_mbps),
            manual_min_bps: bound_as_bps(min_bitrate_mbps),
        }
    }

    /// The statistics of a decision that only names the bitrate and the manual bounds.
    pub open spec fn plain_stats(
        requested_bps: u64,
        manual_max_bps: Option<u64>,
        manual_min_bps: Option<u64>,
    ) -> NominalBitrateStats {
        NominalBitrateStats {
            requested_bps,
            scaled_calculated_bps: None,
            decoder_latency_limiter_bps: None,
            network_latency_limiter_bps: None,
            encoder_latency_limiter_bps: None,
            manual_max_bps,
            manual_min_bps,
        }
    }

    /// The frame interval that the encoder's frame rate follows: the average that was
    /// measured where the configuration adapts to it, else the nominal one.
    pub open spec fn frame_interval(self, config: BitrateConfig) -> u64 {
        if config.adapt_to_framerate is Some {
            self.frame_interval_average.average()
        } else {
            self.nominal_frame_interval
        }
    }

    /// What a tick that decides asks of the encoder, for a draw `random_prob`.
    pub open spec fn decided(self, config: BitrateConfig, random_prob: u64) -> EncoderUpdate {
        let framerate = encoder_framerate(self.frame_interval(config));
        match config.mode {
            BitrateMode::ConstantMbps(mbps) => EncoderUpdate {
                params: EncoderParams { updated: true, bitrate_bps: mbps_as_bps(mbps), framerate },
                stats: Some(Self::plain_stats(mbps_as_bps(mbps), None, None)),
                heuristic: None,
            },
            BitrateMode::NestVr {
                max_bitrate_bps,
                min_bitrate_bps,
                initial_bitrate_bps,
                nest_vr_profile,
                ..
            } => {
                let profile = profile_config(
                    max_bitrate_bps,
                    min_bitrate_bps,
                    initial_bitrate_bps,
                    nest_vr_profile,
                );
                let heuristic = self.heuristic(profile, random_prob);
                EncoderUpdate {
                    params: EncoderParams {
                        updated: true,
                        bitrate_bps: heuristic.requested_bitrate_bps,
                        framerate,
                    },
                    stats: Some(
                        Self::plain_stats(
                            heuristic.requested_bitrate_bps,
                            profile.max_bitrate_bps,
                            profile.min_bitrate_bps,
                        ),
                    ),
                    heuristic: Some(heuristic),
                }
            },
            BitrateMode::Adaptive {
                saturation_multiplier_ppm,
                max_bitrate_mbps,
                min_bitrate_mbps,
                max_network_latency_ms,
                encoder_latency_limiter,
                ..
            } => {
                let stats = self.adaptive(
                    saturation_multiplier_ppm,
                    max_bitrate_mbps,
                    min_bitrate_mbps,
                    max_network_latency_ms,
                    encoder_latency_limiter,
                );
                EncoderUpdate {
                    params: EncoderParams {
                        updated: true,
                        bitrate_bps: stats.requested_bps,
                        framerate,
                    },
                    stats: Some(stats),
                    heuristic: None,
                }
            },
        }
    }

    /// A control tick at the instant `now`, for a draw `random_prob`. An idle tick changes
    /// nothing and reports no update. Any other tick takes over the configuration where it
    /// is new, decides, and remembers the instant and the bitrate that it decided.
    pub open spec fn tick(self, config: BitrateConfig, now: u64, random_prob: u64) -> TickOutcome {
        if self.is_idle(config, now) {
            TickOutcome { manager: self, update: EncoderUpdate::idle() }
        } else {
            let ready = self.prepared(config);
            let update = ready.decided(config, random_prob);
            TickOutcome {
                manager: ManagerModel {
                    last_update_instant: now,
                    update_needed: false,
                    last_target_bitrate_bps: update.params.bitrate_bps,
                    ..ready
                },
                update,
            }
        }
    }
}

fn policy_for(config: &BitrateConfig) -> (r: WindowPolicy)
    ensures
        r == window_policy(*config),
{
    match config.mode {
        BitrateMode::NestVr {
            max_bitrate_bps,
            min_bitrate_bps,
            initial_bitrate_bps,
            averaging_strategy,
            nest_vr_profile,
        } => {
            let profile = get_profile_config(
                &max_bitrate_bps,
                &min_bitrate_bps,
                &initial_bitrate_bps,
                &nest_vr_profile,
            );
            match averaging_strategy {
                AveragingStrategy::SimpleWindowAverage {
                    window_type: WindowType::BySeconds { sliding_window_ns },
                } => WindowPolicy {
                    max_history_size: None,
                    history_interval: Some(
                        match sliding_window_ns {
                            Some(window) => window,
                            None => profile.update_interval_nestvr_ns,
                        },
                    ),
                    ewma_weight: None,
                    update_interval: profile.update_interval_nestvr_ns,
                },
                AveragingStrategy::SimpleWindowAverage {
                    window_type: WindowType::BySamples { sliding_window_samp },
                } => WindowPolicy {
                    max_history_size: Some(sliding_window_samp),
                    history_interval: None,
                    ewma_weight: None,
                    update_interval: profile.update_interval_nestvr_ns,
                },
                AveragingStrategy::ExponentialMovingAverage { ewma_weight_ppm } => WindowPolicy {
                    max_history_size: Some(DEFAULT_HISTORY_SIZE),
                    history_interval: None,
                    ewma_weight: Some(ewma_weight_ppm),
                    update_interval: profile.update_interval_nestvr_ns,
                },
            }
        },
        BitrateMode::Adaptive { history_size, .. } => WindowPolicy {
            max_history_size: Some(history_size),
            history_interval: None,
            ewma_weight: None,
            update_interval: UPDATE_INTERVAL,
        },
        BitrateMode::ConstantMbps(_) => WindowPolicy {
            max_history_size: Some(DEFAULT_HISTORY_SIZE),
            history_interval: None,
            ewma_weight: None,
            update_interval: UPDATE_INTERVAL,
        },
    }
}

fn reconfigure(average: &mut SlidingWindowAverage, policy: &WindowPolicy)
    ensures
        final(average)@ == old(average)@.reconfigured(
            policy.max_history_size,
            policy.history_interval,
            policy.ewma_weight,
        ),
{
    average.update_max_history_size(policy.max_history_size);
    average.update_history_interval(policy.history_interval);
    average.update_ewma_weight(policy.ewma_weight);
}

fn framerate_for(frame_interval: u64) -> (r: u64)
    ensures
        r == encoder_framerate(frame_interval),
{
    if frame_interval == 0 {
        u64::MAX
    } else {
        UHZ_NANOS / least(frame_interval, NANOS_PER_SEC)
    }
}

fn limit_to(bitrate: u64, limit: Option<u64>) -> (r: u64)
    ensures
        r == limited(bitrate, limit),
{
    match limit {
        Some(limit) => least(bitrate, limit),
        None => bitrate,
    }
}

fn bound_to_bps(bound_mbps: Option<u64>) -> (r: Option<u64>)
    ensures
        r == bound_as_bps(bound_mbps),
{
    match bound_mbps {
        Some(mbps) => Some(mbps_to_bps(mbps)),
        None => None,
    }
}

fn plain(requested_bps: u64, manual_max_bps: Option<u64>, manual_min_bps: Option<u64>) -> (r:
    NominalBitrateStats)
    ensures
        r == ManagerModel::plain_stats(requested_bps, manual_max_bps, manual_min_bps),
{
    NominalBitrateStats {
        requested_bps,
        scaled_calculated_bps: None,
        decoder_latency_limiter_bps: None,
        network_latency_limiter_bps: None,
        encoder_latency_limiter_bps: None,
        manual_max_bps,
        manual_min_bps,
    }
}

/// Draws a number below `bound` with `rand::Rng::gen_range` on the generator of the thread,
/// `rand::thread_rng`. The draw is uniform over the numbers from zero up to, and without,
/// `bound`; all that is stated of it is that range. The outside function panics on an empty
/// range, which the precondition leaves out.
#[verifier::external_body]
fn draw_below(bound: u64) -> (r: u64)
    requires
        bound > 0,
    ensures
        r < bound,
{
    rand::thread_rng().gen_range(0..bound)
}

impl BitrateManager {
    fn adopt(&mut self, config: &BitrateConfig)
        ensures
            final(self)@ == old(self)@.adopted(*config),
    {
        let policy = policy_for(config);
        self.previous_config = Some(*config);
        self.update_interval = policy.update_interval;
        reconfigure(&mut self.frame_interval_average, &policy);
        reconfigure(&mut self.encoder_latency_average, &policy);
        reconfigure(&mut self.network_latency_average, &policy);
        reconfigure(&mut self.rtt_average, &policy);
        reconfigure(&mut self.bitrate_average, &policy);
        reconfigure(&mut self.peak_throughput_average, &policy);
        reconfigure(&mut self.frame_interarrival_average, &policy);
    }

    fn decide_nestvr(&self, profile: &ProfileConfig, random_prob: u64) -> (r: HeuristicStats)
        ensures
            r == self@.heuristic(*profile, random_prob),
    {
        let frame_interval: u64 = self.frame_interval_average.get_average();
        let server_fps: u64 = interval_to_rate(frame_interval);
        let network_heur_fps: u64 = interval_to_rate(
            self.frame_interarrival_average.get_average(),
        );
        let rtt_avg_heur: u64 = self.rtt_average.get_average();
        let threshold_fps: u64 = mul_div(profile.nfr_thresh_ppm, server_fps, PPM);
        let threshold_rtt: u64 = mul_div(
            frame_interval,
            profile.rtt_thresh_scaling_factor_ppm,
            PPM,
        );
        let threshold_u: u64 = profile.rtt_explor_prob_ppm;
        let last: u64 = self.last_target_bitrate_bps;
        let candidate: u64 = if keeps_up(
            frame_interval,
            self.frame_interarrival_average.get_average(),
            profile.nfr_thresh_ppm,
        ) {
            if rtt_avg_heur > threshold_rtt {
                if random_prob >= threshold_u {
                    last.saturating_sub(profile.r_step_size_bps)
                } else {
                    last
                }
            } else {
                if random_prob <= threshold_u {
                    last.saturating_add(profile.step_size_bps)
                } else {
                    last
                }
            }
        } else {
            last.saturating_sub(profile.r_step_size_bps)
        };
        let capacity_limit: u64 = mul_div(
            profile.capacity_scaling_factor_ppm,
            self.peak_throughput_average.get_average(),
            PPM,
        );
        let upper: u64 = match profile.max_bitrate_bps {
            Some(max) => max,
            None => u64::MAX,
        };
        let lower: u64 = match profile.min_bitrate_bps {
            Some(min) => min,
            None => 0,
        };
        let within: u64 = most(least(least(candidate, capacity_limit), upper), lower);
        let requested: u64 = quantize_from_previous(
            within,
            profile.r_step_size_bps,
            profile.step_size_bps,
            last,
            upper,
            lower,
        );
        HeuristicStats {
            frame_interval,
            server_fps,
            steps_bps: profile.step_size_bps,
            r_steps_bps: profile.r_step_size_bps,
            network_heur_fps,
            rtt_avg_heur,
            random_prob,
            threshold_fps,
            threshold_rtt,
            threshold_u,
            requested_bitrate_bps: requested,
        }
    }

    fn decide_adaptive(
        &self,
        saturation_multiplier_ppm: u64,
        max_bitrate_mbps: Option<u64>,
        min_bitrate_mbps: Option<u64>,
        max_network_latency_ms: Option<u64>,
        encoder_latency_limiter: Option<crate::settings::EncoderLatencyLimiter>,
    ) -> (r: NominalBitrateStats)
        ensures
            r == self@.adaptive(
                saturation_multiplier_ppm,
                max_bitrate_mbps,
                min_bitrate_mbps,
                max_network_latency_ms,
                encoder_latency_limiter,
            ),
    {
        let average: u64 = self.bitrate_average.get_average();
        let scaled_calculated: u64 = mul_div(average, saturation_multiplier_ppm, PPM);
        let mut bitrate: u64 = least(scaled_calculated, self.dynamic_max_bitrate);
        let network_latency_limiter = match max_network_latency_ms {
            Some(millis) => Some(
                ratio_scale(
                    average,
                    millis_to_nanos(millis),
                    self.network_latency_average.get_average(),
                ),
            ),
            None => None,
        };
        bitrate = limit_to(bitrate, network_latency_limiter);
        let mut encoder_latency_limiter_bps: Option<u64> = None;
        if let Some(limiter) = encoder_latency_limiter {
            let encoder_latency: u64 = self.encoder_latency_average.get_average();
            let limit: u64 = ratio_scale(
                mul_div(average, limiter.max_saturation_multiplier_ppm, PPM),
                self.nominal_frame_interval,
                encoder_latency,
            );
            encoder_latency_limiter_bps = Some(limit);
            if ratio_is_over(
                encoder_latency,
                self.nominal_frame_interval,
                limiter.max_saturation_multiplier_ppm,
                PPM,
            ) {
                bitrate = least(bitrate, limit);
            }
        }
        let manual_max = bound_to_bps(max_bitrate_mbps);
        bitrate = limit_to(bitrate, manual_max);
        let manual_min = bound_to_bps(min_bitrate_mbps);
        if let Some(floor) = manual_min {
            bitrate = most(bitrate, floor);
        }
        NominalBitrateStats {
            requested_bps: bitrate,
            scaled_calculated_bps: Some(scaled_calculated),
            decoder_latency_limiter_bps: Some(self.dynamic_max_bitrate),
            network_latency_limiter_bps: network_latency_limiter,
            encoder_latency_limiter_bps,
            manual_max_bps: manual_max,
            manual_min_bps: manual_min,
        }
    }

    fn decide(&self, config: &BitrateConfig, random_prob: u64) -> (r: EncoderUpdate)
        ensures
            r == self@.decided(*config, random_prob),
    {
        let frame_interval: u64 = if config.adapt_to_framerate.is_some() {
            self.frame_interval_average.get_average()
        } else {
            self.nominal_frame_interval
        };
        let framerate: u64 = framerate_for(frame_interval);
        match config.mode {
            BitrateMode::ConstantMbps(mbps) => {
                let bitrate_bps: u64 = mbps_to_bps(mbps);
                EncoderUpdate {
                    params: EncoderParams { updated: true, bitrate_bps, framerate },
                    stats: Some(plain(bitrate_bps, None, None)),
                    heuristic: None,
                }
            },
            BitrateMode::NestVr {
                max_bitrate_bps,
                min_bitrate_bps,
                initial_bitrate_bps,
                nest_vr_profile,
                ..
            } => {
                let profile = get_profile_config(
                    &max_bitrate_bps,
                    &min_bitrate_bps,
                    &initial_bitrate_bps,
                    &nest_vr_profile,
                );
                let heuristic = self.decide_nestvr(&profile, random_prob);
                EncoderUpdate {
                    params: EncoderParams {
                        updated: true,
                        bitrate_bps: heuristic.requested_bitrate_bps,
                        framerate,
                    },
                    stats: Some(
                        plain(
                            heuristic.requested_bitrate_bps,
                            profile.max_bitrate_bps,
                            profile.min_bitrate_bps,
                        ),
                    ),
                    heuristic: Some(heuristic),
                }
            },
            BitrateMode::Adaptive {
                saturation_multiplier_ppm,
                max_bitrate_mbps,
                min_bitrate_mbps,
                max_network_latency_ms,
                encoder_latency_limiter,
                ..
            } => {
                let stats = self.decide_adaptive(
                    saturation_multiplier_ppm,
                    max_bitrate_mbps,
                    min_bitrate_mbps,
                    max_network_latency_ms,
                    encoder_latency_limiter,
                );
                EncoderUpdate {
                    params: EncoderParams {
                        updated: true,
                        bitrate_bps: stats.requested_bps,
                        framerate,
                    },
                    stats: Some(stats),
                    heuristic: None,
                }
            },
        }
    }

    fn config_changed(&self, config: &BitrateConfig) -> (r: bool)
        ensures
            r == self@.config_changed(*config),
    {
        match self.previous_config {
            Some(previous) => *config != previous,
            None => true,
        }
    }

    fn is_idle(&self, config: &BitrateConfig, now: u64) -> (r: bool)
        ensures
            r == self@.is_idle(*config, now),
    {
        !self.config_changed(config) && !self.update_needed && ((now as u128)
            < self.last_update_instant as u128 + self.update_interval as u128 || matches!(
            config.mode,
            BitrateMode::ConstantMbps(_)
        ))
    }

    /// Runs a control tick at the instant `now` with a given draw for the exploration of the
    /// NestVr heuristic, in parts per million.
    pub fn encoder_params_for_draw(
        &mut self,
        config: &BitrateConfig,
        now: u64,
        random_prob: u64,
    ) -> (r: EncoderUpdate)
        ensures
            final(self)@ == old(self)@.tick(*config, now, random_prob).manager,
            r == old(self)@.tick(*config, now, random_prob).update,
            r.params.updated <==> !old(self)@.is_idle(*config, now),
    {
        if self.is_idle(config, now) {
            return EncoderUpdate {
                params: EncoderParams { updated: false, bitrate_bps: 0, framerate: 0 },
                stats: None,
                heuristic: None,
            };
        }
        if self.config_changed(config) {
            self.adopt(config);
        }
        self.last_update_instant = now;
        self.update_needed = false;
        let update = self.decide(config, random_prob);
        self.last_target_bitrate_bps = update.params.bitrate_bps;
        update
    }

    /// Runs a control tick at the instant `now`. The NestVr heuristic explores by a draw
    /// that is uniform over the parts per million below one. The draw is made only by a tick
    /// that decides in NestVr mode: no other tick makes use of it.
    pub fn get_encoder_params(&mut self, config: &BitrateConfig, now: u64) -> (r: EncoderUpdate)
        ensures
            exists|random_prob: u64|
                #![trigger old(self)@.tick(*config, now, random_prob)]
                {
                    &&& random_prob < PPM
                    &&& final(self)@ == old(self)@.tick(*config, now, random_prob).manager
                    &&& r == old(self)@.tick(*config, now, random_prob).update
                },
            r.params.updated <==> !old(self)@.is_idle(*config, now),
    {
        let explores = matches!(config.mode, BitrateMode::NestVr { .. }) && !self.is_idle(
            config,
            now,
        );
        let random_prob: u64 = if explores {
            draw_below(PPM)
        } else {
            0
        };
        self.encoder_params_for_draw(config, now, random_prob)
    }
}

impl BitrateManager {
    /// The frame interval that the encoder aims for.
    pub fn nominal_frame_interval(&self) -> (r: u64)
        ensures
            r == self@.nominal_frame_interval,
    {
        self.nominal_frame_interval
    }

    /// The average time between two presented frames.
    pub fn frame_interval_average(&self) -> (r: u64)
        ensures
            r == self@.frame_interval_average.average(),
    {
        self.frame_interval_average.get_average()
    }

    /// The average time that the encoder takes for a frame.
    pub fn encoder_latency_average(&self) -> (r: u64)
        ensures
            r == self@.encoder_latency_average.average(),
    {
        self.encoder_latency_average.get_average()
    }

    /// The average time that a frame takes over the network.
    pub fn network_latency_average(&self) -> (r: u64)
        ensures
            r == self@.network_latency_average.average(),
    {
        self.network_latency_average.get_average()
    }

    /// The average bitrate that the network carried.
    pub fn bitrate_average(&self) -> (r: u64)
        ensures
            r == self@.bitrate_average.average(),
    {
        self.bitrate_average.get_average()
    }

    /// The average round-trip time.
    pub fn rtt_average(&self) -> (r: u64)
        ensures
            r == self@.rtt_average.average(),
    {
        self.rtt_average.get_average()
    }

    /// The average peak throughput.
    pub fn peak_throughput_average(&self) -> (r: u64)
        ensures
            r == self@.peak_throughput_average.average(),
    {
        self.peak_throughput_average.get_average()
    }

    /// The average time between the arrivals of two frames at the client.
    pub fn frame_interarrival_average(&self) -> (r: u64)
        ensures
            r == self@.frame_interarrival_average.average(),
    {
        self.frame_interarrival_average.get_average()
    }

    /// The bound that the decoder's latency has put on the bitrate.
    pub fn dynamic_max_bitrate(&self) -> (r: u64)
        ensures
            r == self@.dynamic_max_bitrate,
    {
        self.dynamic_max_bitrate
    }

    /// The bitrate that the last deciding tick asked for.
    pub fn last_target_bitrate_bps(&self) -> (r: u64)
        ensures
            r == self@.last_target_bitrate_bps,
    {
        self.last_target_bitrate_bps
    }

    /// Whether the next tick decides even before the update interval has passed.
    pub fn update_needed(&self) -> (r: bool)
        ensures
            r == self@.update_needed,
    {
        self.update_needed
    }

    /// The time between two decisions.
    pub fn update_interval(&self) -> (r: u64)
        ensures
            r == self@.update_interval,
    {
        self.update_interval
    }

    /// The sizes of the frames that wait for their latency report, oldest first.
    pub fn pending_packet_sizes(&self) -> (r: Vec<PacketSize>)
        ensures
            r@ == self@.packet_sizes_bits_history,
    {
        let mut sizes: Vec<PacketSize> = Vec::new();
        let n = self.packet_sizes_bits_history.len();
        let mut i: usize = 0;
        while i < n
            invariant
                i <= n,
                n == self.packet_sizes_bits_history@.len(),
                sizes@ == self.packet_sizes_bits_history@.take(i as int),
            decreases n - i,
        {
            sizes.push(self.packet_sizes_bits_history[i]);
            assert(sizes@ =~= self.packet_sizes_bits_history@.take(i + 1));
            i = i + 1;
        }
        assert(self.packet_sizes_bits_history@.take(n as int) =~= self.packet_sizes_bits_history@);
        sizes
    }

    /// The last snapshot of the access point's statistics.
    pub fn ap_stats_current(&self) -> (r: &Option<APStats>)
        ensures
            *r == self@.ap_stats_current,
    {
        &self.ap_stats_current
    }
}

/// The first entry with a timestamp is where `first_index` says, and no entry before it
/// has that timestamp.
pub proof fn lemma_first_index(history: Seq<PacketSize>, timestamp: u64)
    ensures
        0 <= first_index(history, timestamp) <= history.len(),
        first_index(history, timestamp) < history.len() ==> history[first_index(
            history,
            timestamp,
        )].timestamp == timestamp,
        forall|i: int|
            0 <= i < first_index(history, timestamp) ==> (#[trigger] history[i]).timestamp
                != timestamp,
    decreases history.len(),
{
    if history.len() > 0 && history.first().timestamp != timestamp {
        let rest = history.drop_first();
        lemma_first_index(rest, timestamp);
        assert forall|i: int| 0 <= i < first_index(history, timestamp) implies (
        #[trigger] history[i]).timestamp != timestamp by {
            if i > 0 {
                assert(history[i] == rest[i - 1]);
            }
        }
    }
}

/// After the latencies of a frame were reported with a network latency over zero, the
/// history of a manager holds no entry with that frame's timestamp or an earlier one,
/// whatever its mode and its counters.
pub proof fn lemma_latency_report_clears_up_to(
    manager: ManagerModel,
    mode: BitrateMode,
    timestamp: u64,
    network_latency: u64,
    decoder_latency: u64,
    now: u64,
)
    requires
        network_latency != 0,
    ensures
        ({
            let after = manager.frame_latencies(
                mode,
                timestamp,
                network_latency,
                decoder_latency,
                now,
            );
            &&& after.packet_sizes_bits_history == drained(
                manager.packet_sizes_bits_history,
                timestamp,
            )
            &&& forall|i: int|
                0 <= i < after.packet_sizes_bits_history.len() ==> (
                #[trigger] after.packet_sizes_bits_history[i]).timestamp > timestamp
        }),
{
    lemma_drained_is_later(manager.packet_sizes_bits_history, timestamp);
}

/// With an empty history a latency report submits no sample of the bitrate: the average
/// bitrate is as it was and the history is still empty, whatever the latencies, the mode
/// and the counters.
pub proof fn lemma_empty_history_gives_no_sample(
    manager: ManagerModel,
    mode: BitrateMode,
    timestamp: u64,
    network_latency: u64,
    decoder_latency: u64,
    now: u64,
)
    requires
        manager.packet_sizes_bits_history.len() == 0,
    ensures
        ({
            let after = manager.frame_latencies(
                mode,
                timestamp,
                network_latency,
                decoder_latency,
                now,
            );
            &&& after.bitrate_average == manager.bitrate_average
            &&& after.packet_sizes_bits_history.len() == 0
        }),
{
    manager.packet_sizes_bits_history.lemma_filter_len(later_than(timestamp));
}

/// A latency report finds a size exactly where some entry of the history has the frame's
/// timestamp.
pub proof fn lemma_matched_exactly(history: Seq<PacketSize>, timestamp: u64)
    ensures
        matched_bits(history, timestamp) is Some <==> exists|i: int|
            0 <= i < history.len() && (#[trigger] history[i]).timestamp == timestamp,
{
    lemma_first_index(history, timestamp);
    let index = first_index(history, timestamp);
    if index < history.len() {
        assert(history[index].timestamp == timestamp);
    }
}

/// Once the latencies of a frame are reported, the history holds no entry with that frame's
/// timestamp or an earlier one, and every entry of a later frame is still in it.
pub proof fn lemma_drained_is_later(history: Seq<PacketSize>, timestamp: u64)
    ensures
        forall|i: int|
            0 <= i < drained(history, timestamp).len() ==> (#[trigger] drained(
                history,
                timestamp,
            )[i]).timestamp > timestamp,
        forall|i: int|
            0 <= i < history.len() && (#[trigger] history[i]).timestamp > timestamp ==> drained(
                history,
                timestamp,
            ).contains(history[i]),
{
    let rest = drained(history, timestamp);
    assert forall|i: int| 0 <= i < rest.len() implies (#[trigger] rest[i]).timestamp
        > timestamp by {
        history.lemma_filter_pred(later_than(timestamp), i);
    }
    assert forall|i: int|
        0 <= i < history.len() && (#[trigger] history[i]).timestamp > timestamp implies rest.contains(
        history[i],
    ) by {
        history.lemma_filter_contains(later_than(timestamp), i);
    }
}

/// The entries at the front of a history that `leading_up_to` counts have the timestamp or
/// an earlier one, and the entry after them, if any, has a later one.
pub proof fn lemma_leading_up_to(history: Seq<PacketSize>, timestamp: u64)
    ensures
        0 <= leading_up_to(history, timestamp) <= history.len(),
        forall|i: int|
            0 <= i < leading_up_to(history, timestamp) ==> (#[trigger] history[i]).timestamp
                <= timestamp,
        leading_up_to(history, timestamp) < history.len() ==> history[leading_up_to(
            history,
            timestamp,
        )].timestamp > timestamp,
    decreases history.len(),
{
    if history.len() > 0 && history.first().timestamp <= timestamp {
        let rest = history.drop_first();
        lemma_leading_up_to(rest, timestamp);
        assert forall|i: int| 0 <= i < leading_up_to(history, timestamp) implies (
        #[trigger] history[i]).timestamp <= timestamp by {
            if i > 0 {
                assert(history[i] == rest[i - 1]);
            }
        }
        if leading_up_to(history, timestamp) < history.len() {
            assert(history[leading_up_to(history, timestamp)] == rest[leading_up_to(
                rest,
                timestamp,
            )]);
        }
    }
}

proof fn lemma_later_entries_all_stay(entries: Seq<PacketSize>, timestamp: u64)
    requires
        forall|i: int| 0 <= i < entries.len() ==> (#[trigger] entries[i]).timestamp > timestamp,
    ensures
        entries.filter(later_than(timestamp)) == entries,
    decreases entries.len(),
{
    reveal(Seq::filter);
    if entries.len() > 0 {
        let rest = entries.drop_last();
        assert forall|i: int| 0 <= i < rest.len() implies (#[trigger] rest[i]).timestamp
            > timestamp by {
            assert(rest[i] == entries[i]);
        }
        lemma_later_entries_all_stay(rest, timestamp);
        assert(entries[entries.len() - 1].timestamp > timestamp);
        assert(rest.push(entries.last()) =~= entries);
    }
}

proof fn lemma_earlier_entries_all_go(entries: Seq<PacketSize>, timestamp: u64)
    requires
        forall|i: int| 0 <= i < entries.len() ==> (#[trigger] entries[i]).timestamp <= timestamp,
    ensures
        entries.filter(later_than(timestamp)) == Seq::<PacketSize>::empty(),
    decreases entries.len(),
{
    reveal(Seq::filter);
    if entries.len() > 0 {
        let rest = entries.drop_last();
        assert forall|i: int| 0 <= i < rest.len() implies (#[trigger] rest[i]).timestamp
            <= timestamp by {
            assert(rest[i] == entries[i]);
        }
        lemma_earlier_entries_all_go(rest, timestamp);
        assert(entries[entries.len() - 1].timestamp <= timestamp);
    } else {
        assert(entries =~= Seq::<PacketSize>::empty());
    }
}

proof fn lemma_later_from_the_count(history: Seq<PacketSize>, timestamp: u64)
    requires
        non_decreasing(history),
    ensures
        forall|i: int|
            leading_up_to(history, timestamp) <= i < history.len() ==> (
            #[trigger] history[i]).timestamp > timestamp,
{
    lemma_leading_up_to(history, timestamp);
    let count = leading_up_to(history, timestamp);
    assert forall|i: int| count <= i < history.len() implies (#[trigger] history[i]).timestamp
        > timestamp by {
        if i > count {
            assert(history[count].timestamp <= history[i].timestamp);
        }
    }
}

proof fn lemma_rest_keeps_order(history: Seq<PacketSize>, count: int)
    requires
        non_decreasing(history),
        0 <= count <= history.len(),
    ensures
        non_decreasing(history.skip(count)),
{
    let back = history.skip(count);
    assert forall|i: int, j: int| 0 <= i < j < back.len() implies (#[trigger] back[i]).timestamp
        <= (#[trigger] back[j]).timestamp by {
        assert(back[i] == history[count + i]);
        assert(back[j] == history[count + j]);
    }
}

proof fn lemma_drained_by_parts(history: Seq<PacketSize>, timestamp: u64, count: int)
    requires
        0 <= count <= history.len(),
        forall|i: int| 0 <= i < count ==> (#[trigger] history[i]).timestamp <= timestamp,
        forall|i: int| count <= i < history.len() ==> (#[trigger] history[i]).timestamp > timestamp,
    ensures
        drained(history, timestamp) == history.skip(count),
{
    let front = history.take(count);
    let back = history.skip(count);
    assert forall|i: int| 0 <= i < back.len() implies (#[trigger] back[i]).timestamp
        > timestamp by {
        assert(back[i] == history[count + i]);
    }
    assert forall|i: int| 0 <= i < front.len() implies (#[trigger] front[i]).timestamp
        <= timestamp by {
        assert(front[i] == history[i]);
    }
    lemma_later_entries_all_stay(back, timestamp);
    lemma_earlier_entries_all_go(front, timestamp);
    assert(history =~= front + back);
    Seq::filter_distributes_over_add(front, back, later_than(timestamp));
    assert(Seq::<PacketSize>::empty() + back =~= back);
}

/// Of a history whose timestamps never fall, a latency report takes the entries at the
/// front, up to the last one of the reported frame, and nothing else: the entries of later
/// frames stay as they are, in their order, and the timestamps still never fall.
pub proof fn lemma_drained_of_ordered(history: Seq<PacketSize>, timestamp: u64)
    requires
        non_decreasing(history),
    ensures
        drained(history, timestamp) == history.skip(leading_up_to(history, timestamp)),
        forall|i: int|
            leading_up_to(history, timestamp) <= i < history.len() ==> (
            #[trigger] history[i]).timestamp > timestamp,
        non_decreasing(drained(history, timestamp)),
{
    lemma_leading_up_to(history, timestamp);
    lemma_later_from_the_count(history, timestamp);
    lemma_drained_by_parts(history, timestamp, leading_up_to(history, timestamp));
    lemma_rest_keeps_order(history, leading_up_to(history, timestamp));
}

/// A frame that is not earlier than the last frame in the history keeps its timestamps
/// from falling.
pub proof fn lemma_encoded_keeps_order(history: Seq<PacketSize>, entry: PacketSize)
    requires
        non_decreasing(history),
        history.len() > 0 ==> history.last().timestamp <= entry.timestamp,
    ensures
        non_decreasing(history.push(entry)),
{
    let longer = history.push(entry);
    assert forall|i: int, j: int| 0 <= i < j < longer.len() implies (#[trigger] longer[i]).timestamp
        <= (#[trigger] longer[j]).timestamp by {
        if j < history.len() {
            assert(longer[i] == history[i]);
            assert(longer[j] == history[j]);
        } else {
            assert(longer[i] == history[i]);
            if i < history.len() - 1 {
                assert(history[i].timestamp <= history[history.len() - 1].timestamp);
            }
        }
    }
}

/// What quantising does to a value within the bounds: a value at or over the previous
/// bitrate stays between the two; a value under it goes to between the lower bound and the
/// previous bitrate, and not over the value itself where the previous bitrate lies a whole
/// number of steps over the lower bound.
pub proof fn lemma_quantized_range(
    value: u64,
    r_step: u64,
    step: u64,
    prev: u64,
    upper: u64,
    lower: u64,
)
    requires
        lower <= value <= upper,
    ensures
        value >= prev ==> prev <= quantized(value, r_step, step, prev, upper, lower) <= value,
        value < prev ==> lower <= quantized(value, r_step, step, prev, upper, lower) <= prev,
        value < prev && r_step > 0 && (prev - lower) % (r_step as int) == 0 ==> quantized(
            value,
            r_step,
            step,
            prev,
            upper,
            lower,
        ) <= value,
{
    if value >= prev {
        if step > 0 {
            let a = (value - prev) / (step as int);
            let b = (upper - prev) / (step as int);
            let n = vstd::math::min(a, b);
            assert(0 <= n * step <= value - prev) by (nonlinear_arith)
                requires
                    n <= (value - prev) / (step as int),
                    n >= 0,
                    step > 0,
                    value - prev >= 0,
            ;
        }
    } else {
        if r_step > 0 {
            let a = (prev - lower) / (r_step as int);
            let b = ceil_div(prev - value, r_step as int);
            let n = vstd::math::min(a, b);
            assert(b >= 0 && b * r_step >= prev - value) by (nonlinear_arith)
                requires
                    b == (prev - value + r_step - 1) / (r_step as int),
                    r_step > 0,
                    prev - value >= 0,
            ;
            assert(0 <= n * r_step <= prev - lower) by (nonlinear_arith)
                requires
                    n <= (prev - lower) / (r_step as int),
                    n >= 0,
                    r_step > 0,
                    prev - lower >= 0,
            ;
            if (prev - lower) % (r_step as int) == 0 {
                assert(b <= a) by (nonlinear_arith)
                    requires
                        a == (prev - lower) / (r_step as int),
                        (prev - lower) % (r_step as int) == 0,
                        b == (prev - value + r_step - 1) / (r_step as int),
                        r_step > 0,
                        0 <= prev - value <= prev - lower,
                ;
            }
        }
    }
}

/// The bitrate that the NestVr heuristic asks for stays within the bounds of its profile,
/// whatever was measured and drawn, as long as the last target lies within them.
pub proof fn lemma_nestvr_within_bounds(
    manager: ManagerModel,
    profile: ProfileConfig,
    random_prob: u64,
)
    requires
        profile.lower_bound() <= manager.last_target_bitrate_bps <= profile.upper_bound(),
    ensures
        profile.lower_bound() <= manager.heuristic(profile, random_prob).requested_bitrate_bps
            <= profile.upper_bound(),
{
    let stats = manager.heuristic(profile, random_prob);
    let candidate = stepped(
        manager.last_target_bitrate_bps,
        direction(
            network_keeps_up(
                stats.frame_interval,
                manager.frame_interarrival_average.average(),
                profile.nfr_thresh_ppm,
            ),
            stats.rtt_avg_heur,
            stats.threshold_rtt,
            random_prob,
            stats.threshold_u,
        ),
        profile.step_size_bps,
        profile.r_step_size_bps,
    );
    let capacity_limit = scaled(
        profile.capacity_scaling_factor_ppm,
        manager.peak_throughput_average.average(),
        PPM,
    );
    let within = bounded(candidate, capacity_limit, profile.lower_bound(), profile.upper_bound());
    lemma_quantized_range(
        within,
        profile.r_step_size_bps,
        profile.step_size_bps,
        manager.last_target_bitrate_bps,
        profile.upper_bound(),
        profile.lower_bound(),
    );
}

/// The share of the peak throughput that a profile lets the bitrate take.
pub open spec fn capacity_limit(manager: ManagerModel, profile: ProfileConfig) -> u64 {
    scaled(profile.capacity_scaling_factor_ppm, manager.peak_throughput_average.average(), PPM)
}

/// The bitrate that the NestVr heuristic asks for stays under the share of the peak
/// throughput that its profile allows, where that share is not under the lower bound and the
/// last target either lies under that share too or lies a whole number of steps down over
/// the lower bound.
pub proof fn lemma_nestvr_under_capacity(
    manager: ManagerModel,
    profile: ProfileConfig,
    random_prob: u64,
)
    requires
        profile.lower_bound() <= manager.last_target_bitrate_bps <= profile.upper_bound(),
        profile.lower_bound() <= capacity_limit(manager, profile),
        manager.last_target_bitrate_bps <= capacity_limit(manager, profile) || (
        profile.r_step_size_bps > 0 && (manager.last_target_bitrate_bps - profile.lower_bound())
            % (profile.r_step_size_bps as int) == 0),
    ensures
        manager.heuristic(profile, random_prob).requested_bitrate_bps <= capacity_limit(
            manager,
            profile,
        ),
{
    let stats = manager.heuristic(profile, random_prob);
    let candidate = stepped(
        manager.last_target_bitrate_bps,
        direction(
            network_keeps_up(
                stats.frame_interval,
                manager.frame_interarrival_average.average(),
                profile.nfr_thresh_ppm,
            ),
            stats.rtt_avg_heur,
            stats.threshold_rtt,
            random_prob,
            stats.threshold_u,
        ),
        profile.step_size_bps,
        profile.r_step_size_bps,
    );
    let within = bounded(
        candidate,
        capacity_limit(manager, profile),
        profile.lower_bound(),
        profile.upper_bound(),
    );
    lemma_quantized_range(
        within,
        profile.r_step_size_bps,
        profile.step_size_bps,
        manager.last_target_bitrate_bps,
        profile.upper_bound(),
        profile.lower_bound(),
    );
}

/// In NestVr mode a tick that decides asks for a bitrate within the bounds of the
/// configuration and leaves the last target within them, as long as the last target lay
/// within them before: once within its bounds, the bitrate stays there tick after tick.
pub proof fn lemma_nestvr_ticks_stay_within_bounds(
    manager: ManagerModel,
    config: BitrateConfig,
    now: u64,
    random_prob: u64,
)
    requires
        config.mode is NestVr,
        window_profile(config).lower_bound() <= manager.last_target_bitrate_bps
            <= window_profile(config).upper_bound(),
    ensures
        ({
            let outcome = manager.tick(config, now, random_prob);
            let profile = window_profile(config);
            &&& profile.lower_bound() <= outcome.manager.last_target_bitrate_bps
                <= profile.upper_bound()
            &&& outcome.update.params.updated ==> profile.lower_bound()
                <= outcome.update.params.bitrate_bps <= profile.upper_bound()
        }),
{
    if !manager.is_idle(config, now) {
        lemma_nestvr_within_bounds(manager.prepared(config), window_profile(config), random_prob);
    }
}

/// With a frame interval of zero the server's frame rate counts as zero, and with a time of
/// zero between arrivals the frame rate of the network counts as zero: the heuristic never
/// divides by zero.
pub proof fn lemma_zero_intervals_give_zero_rates(
    manager: ManagerModel,
    profile: ProfileConfig,
    random_prob: u64,
)
    ensures
        manager.frame_interval_average.average() == 0 ==> manager.heuristic(
            profile,
            random_prob,
        ).server_fps == 0,
        manager.frame_interarrival_average.average() == 0 ==> manager.heuristic(
            profile,
            random_prob,
        ).network_heur_fps == 0,
{
}

/// Holding the round trip against its threshold loses nothing by rounding: the round trip
/// is over the rounded threshold exactly where it is over the frame interval times the
/// scaling factor.
pub proof fn lemma_rtt_test_is_exact(rtt: u64, frame_interval: u64, factor_ppm: u64)
    ensures
        rtt > scaled(frame_interval, factor_ppm, PPM) <==> rtt * PPM > frame_interval * factor_ppm,
{
    let product = frame_interval as int * factor_ppm as int;
    let quotient = product / 1_000_000;
    assert(quotient * 1_000_000 <= product < (quotient + 1) * 1_000_000 && quotient >= 0)
        by (nonlinear_arith)
        requires
            quotient == product / 1_000_000,
            product >= 0,
    ;
    assert(product >= 0) by (nonlinear_arith)
        requires
            product == frame_interval as int * factor_ppm as int,
    ;
    if rtt > quotient {
        assert(rtt * 1_000_000 >= (quotient + 1) * 1_000_000) by (nonlinear_arith)
            requires
                rtt >= quotient + 1,
        ;
    } else {
        assert(rtt * 1_000_000 <= quotient * 1_000_000) by (nonlinear_arith)
            requires
                rtt <= quotient,
        ;
    }
}

/// A network that delivers no frames does not keep up with any server that presents
/// frames, whatever share of them the profile asks for, as long as it asks for some.
pub proof fn lemma_stalled_network_does_not_keep_up(frame_interval: u64, nfr_thresh_ppm: u64)
    requires
        frame_interval > 0,
        nfr_thresh_ppm > 0,
    ensures
        !network_keeps_up(frame_interval, 0, nfr_thresh_ppm),
{
}

/// Where the network does not keep up, the heuristic steps down whatever the round trip and
/// the draw: it asks for no more than the last target, as long as the last target is not
/// under the lower bound.
pub proof fn lemma_lagging_network_steps_down(
    manager: ManagerModel,
    profile: ProfileConfig,
    random_prob: u64,
)
    requires
        !network_keeps_up(
            manager.frame_interval_average.average(),
            manager.frame_interarrival_average.average(),
            profile.nfr_thresh_ppm,
        ),
        profile.lower_bound() <= manager.last_target_bitrate_bps,
    ensures
        manager.heuristic(profile, random_prob).requested_bitrate_bps
            <= manager.last_target_bitrate_bps,
{
    let prev = manager.last_target_bitrate_bps;
    let step = profile.step_size_bps;
    let r_step = profile.r_step_size_bps;
    let upper = profile.upper_bound();
    let lower = profile.lower_bound();
    let candidate = stepped(prev, Direction::Down, step, r_step);
    let within = bounded(candidate, capacity_limit(manager, profile), lower, upper);
    assert(within <= prev);
    let quantum = quantized(within, r_step, step, prev, upper, lower);
    if within >= prev {
        if step > 0 {
            let to_value = (within - prev) / (step as int);
            let to_max = (upper - prev) / (step as int);
            let n = vstd::math::min(to_value, to_max);
            assert(to_value == 0);
            assert(n * step <= 0) by (nonlinear_arith)
                requires
                    n <= 0,
                    step > 0,
            ;
        }
    } else {
        if r_step > 0 {
            lemma_floor_of_negative(prev - within, r_step as int);
            let to_min = (prev - lower) / (r_step as int);
            let to_value = ceil_div(prev - within, r_step as int);
            let n = vstd::math::min(to_min, to_value);
            assert(to_min >= 0) by (nonlinear_arith)
                requires
                    to_min == (prev - lower) / (r_step as int),
                    prev - lower >= 0,
                    r_step > 0,
            ;
            assert(n * r_step >= 0) by (nonlinear_arith)
                requires
                    n >= 0,
                    r_step > 0,
            ;
        }
    }
    assert(quantum <= prev);
}

/// A tick that decides in NestVr mode while no frame arrives at the client never raises
/// the bitrate: with an average time between arrivals of zero, an average frame interval
/// over zero, a share of frames asked for over zero and a last target not under the lower
/// bound, the frame rate of the network counts as zero and the bitrate that is asked for is
/// no higher than the last target, whatever the round trip and the draw.
pub proof fn lemma_stalled_network_never_raises(
    manager: ManagerModel,
    config: BitrateConfig,
    now: u64,
    random_prob: u64,
)
    requires
        config.mode is NestVr,
        !manager.is_idle(config, now),
        manager.prepared(config).frame_interarrival_average.average() == 0,
        manager.prepared(config).frame_interval_average.average() > 0,
        window_profile(config).nfr_thresh_ppm > 0,
        window_profile(config).lower_bound() <= manager.last_target_bitrate_bps,
    ensures
        ({
            let outcome = manager.tick(config, now, random_prob);
            &&& outcome.update.params.updated
            &&& outcome.update.heuristic is Some
            &&& outcome.update.heuristic->0.network_heur_fps == 0
            &&& outcome.update.params.bitrate_bps <= manager.last_target_bitrate_bps
            &&& outcome.manager.last_target_bitrate_bps <= manager.last_target_bitrate_bps
        }),
{
    let ready = manager.prepared(config);
    lemma_stalled_network_does_not_keep_up(
        ready.frame_interval_average.average(),
        window_profile(config).nfr_thresh_ppm,
    );
    lemma_lagging_network_steps_down(ready, window_profile(config), random_prob);
}

/// Under a constant bitrate the first tick after a change of configuration asks for exactly
/// that bitrate, at the frame rate that the configuration follows, and the tick after it
/// decides nothing and leaves the manager as it is, at whatever instant it comes.
pub proof fn lemma_constant_bitrate_ticks(
    manager: ManagerModel,
    config: BitrateConfig,
    now: u64,
    later: u64,
    first_draw: u64,
    second_draw: u64,
)
    requires
        config.mode is ConstantMbps,
        manager.config_changed(config),
    ensures
        ({
            let first = manager.tick(config, now, first_draw);
            let second = first.manager.tick(config, later, second_draw);
            &&& first.update.params.updated
            &&& first.update.params.bitrate_bps == mbps_as_bps(config.mode->ConstantMbps_0)
            &&& config.mode->ConstantMbps_0 * 1_000_000 <= u64::MAX
                ==> first.update.params.bitrate_bps == config.mode->ConstantMbps_0 * 1_000_000
            &&& config.adapt_to_framerate is None ==> first.update.params.framerate
                == encoder_framerate(manager.nominal_frame_interval)
            &&& config.adapt_to_framerate is Some ==> first.update.params.framerate
                == encoder_framerate(manager.adopted(config).frame_interval_average.average())
            &&& second.update == EncoderUpdate::idle()
            &&& second.manager == first.manager
        }),
{
}

/// A tick that decides clears the request for a decision and remembers its instant and the
/// bitrate that it asked for; an idle tick changes nothing.
pub proof fn lemma_tick_remembers(
    manager: ManagerModel,
    config: BitrateConfig,
    now: u64,
    random_prob: u64,
)
    ensures
        ({
            let outcome = manager.tick(config, now, random_prob);
            &&& outcome.update.params.updated <==> !manager.is_idle(config, now)
            &&& outcome.update.params.updated ==> {
                &&& !outcome.manager.update_needed
                &&& outcome.manager.last_update_instant == now
                &&& outcome.manager.last_target_bitrate_bps == outcome.update.params.bitrate_bps
                &&& outcome.manager.previous_config == Some(config)
                &&& outcome.update.stats is Some
                &&& outcome.update.stats->0.requested_bps == outcome.update.params.bitrate_bps
            }
            &&& !outcome.update.params.updated ==> outcome.manager == manager
        }),
{
}

} // verus!
