//! The settings that steer the bitrate manager.

use crate::nestvr_profiles::NestVrProfile;
use vstd::prelude::*;

verus! {

/// How the window of a simple average is bounded.
#[derive(Clone, Copy, PartialEq, Eq, Debug, Structural)]
pub enum WindowType {
    /// By age. Without a length the window is as long as the profile's update interval.
    BySeconds { sliding_window_ns: Option<u64> },
    /// By the number of samples.
    BySamples { sliding_window_samp: usize },
}

/// How the running averages are formed.
#[derive(Clone, Copy, PartialEq, Eq, Debug, Structural)]
pub enum AveragingStrategy {
    SimpleWindowAverage { window_type: WindowType },
    ExponentialMovingAverage { ewma_weight_ppm: u64 },
}

/// Limits the bitrate where the encoder takes too large a share of the frame interval.
#[derive(Clone, Copy, PartialEq, Eq, Debug, Structural)]
pub struct EncoderLatencyLimiter {
    pub max_saturation_multiplier_ppm: u64,
}

/// Limits the bitrate where the decoder is too slow for several frames in a row.
#[derive(Clone, Copy, PartialEq, Eq, Debug, Structural)]
pub struct DecoderLatencyLimiter {
    pub max_decoder_latency_ms: u64,
    pub latency_overstep_frames: usize,
    pub latency_overstep_multiplier_ppm: u64,
}

/// Lets the frame rate of the encoder follow the frame rate that is measured.
#[derive(Clone, Copy, PartialEq, Eq, Debug, Structural)]
pub struct BitrateAdaptiveFramerateConfig {
    pub framerate_reset_threshold_multiplier_ppm: u64,
}

/// The law by which the bitrate is chosen.
#[derive(Clone, Copy, PartialEq, Eq, Debug, Structural)]
pub enum BitrateMode {
    /// A fixed bitrate, in megabits per second.
    ConstantMbps(u64),
    /// The NestVr heuristic.
    NestVr {
        max_bitrate_bps: Option<u64>,
        min_bitrate_bps: Option<u64>,
        initial_bitrate_bps: u64,
        averaging_strategy: AveragingStrategy,
        nest_vr_profile: NestVrProfile,
    },
    /// The measured bitrate, scaled and held under a set of limits.
    Adaptive {
        saturation_multiplier_ppm: u64,
        max_bitrate_mbps: Option<u64>,
        min_bitrate_mbps: Option<u64>,
        max_network_latency_ms: Option<u64>,
        encoder_latency_limiter: Option<EncoderLatencyLimiter>,
        decoder_latency_limiter: Option<DecoderLatencyLimiter>,
        history_size: usize,
    },
}

/// The settings of the bitrate manager.
#[derive(Clone, Copy, PartialEq, Eq, Debug, Structural)]
pub struct BitrateConfig {
    pub mode: BitrateMode,
    pub adapt_to_framerate: Option<BitrateAdaptiveFramerateConfig>,
}

impl BitrateConfig {
    /// In NestVr mode the bounds that are set are ordered: lowest, initial, highest.
    pub open spec fn well_formed(self) -> bool {
        match self.mode {
            BitrateMode::NestVr { max_bitrate_bps, min_bitrate_bps, initial_bitrate_bps, .. } => {
                &&& min_bitrate_bps matches Some(min) ==> min <= initial_bitrate_bps
                &&& max_bitrate_bps matches Some(max) ==> initial_bitrate_bps <= max
            },
            _ => true,
        }
    }

    /// Checks that the bounds of a NestVr configuration are ordered.
    pub fn is_well_formed(&self) -> (r: bool)
        ensures
            r == self.well_formed(),
    {
        match self.mode {
            BitrateMode::NestVr { max_bitrate_bps, min_bitrate_bps, initial_bitrate_bps, .. } => {
                let low = match min_bitrate_bps {
                    Some(min) => min <= initial_bitrate_bps,
                    None => true,
                };
                let high = match max_bitrate_bps {
                    Some(max) => initial_bitrate_bps <= max,
                    None => true,
                };
                low && high
            },
            _ => true,
        }
    }
}

} // verus!
