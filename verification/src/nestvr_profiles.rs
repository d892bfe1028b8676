//! The tuning profiles of the NestVr controller.

use vstd::prelude::*;

verus! {

/// A named set of tuning constants, or a set of the caller's own.
#[derive(Clone, Copy, PartialEq, Eq, Debug, Structural)]
pub enum NestVrProfile {
    Custom {
        update_interval_nestvr_ns: u64,
        step_size_bps: u64,
        r_step_size_bps: u64,
        capacity_scaling_factor_ppm: u64,
        rtt_explor_prob_ppm: u64,
        nfr_thresh_ppm: u64,
        rtt_thresh_scaling_factor_ppm: u64,
    },
    Generic,
    MinMax,
    Drop,
    SwiftDecline,
    Mobility,
    Dense,
}

/// The constants that steer the NestVr controller. Bitrates are in bits per second, the
/// interval in nanoseconds, factors and probabilities in parts per million.
#[derive(Clone, Copy, PartialEq, Eq, Debug, Structural)]
pub struct ProfileConfig {
    /// The highest bitrate allowed, if one is set.
    pub max_bitrate_bps: Option<u64>,
    /// The lowest bitrate allowed, if one is set.
    pub min_bitrate_bps: Option<u64>,
    pub initial_bitrate_bps: u64,
    /// Time between two decisions of the controller.
    pub update_interval_nestvr_ns: u64,
    /// Size of one step up.
    pub step_size_bps: u64,
    /// Size of one step down.
    pub r_step_size_bps: u64,
    /// Share of the estimated capacity that the bitrate may take.
    pub capacity_scaling_factor_ppm: u64,
    /// Probability with which the controller explores a higher bitrate.
    pub rtt_explor_prob_ppm: u64,
    /// Share of the server's frame rate that must arrive for the network to count as healthy.
    pub nfr_thresh_ppm: u64,
    /// Number of frame intervals that a round trip may take.
    pub rtt_thresh_scaling_factor_ppm: u64,
}

impl ProfileConfig {
    /// The bounds that are set are ordered: lowest, initial, highest.
    pub open spec fn well_formed(self) -> bool {
        &&& self.min_bitrate_bps matches Some(min) ==> min <= self.initial_bitrate_bps
        &&& self.max_bitrate_bps matches Some(max) ==> self.initial_bitrate_bps <= max
    }

    /// The highest bitrate allowed; without a bound, the largest number.
    pub open spec fn upper_bound(self) -> u64 {
        match self.max_bitrate_bps {
            Some(max) => max,
            None => u64::MAX,
        }
    }

    /// The lowest bitrate allowed; without a bound, zero.
    pub open spec fn lower_bound(self) -> u64 {
        match self.min_bitrate_bps {
            Some(min) => min,
            None => 0,
        }
    }
}

/// The configuration with the caller's bounds and the given tuning constants.
pub open spec fn tuned(
    max_bitrate_bps: Option<u64>,
    min_bitrate_bps: Option<u64>,
    initial_bitrate_bps: u64,
    update_interval_nestvr_ns: u64,
    step_size_bps: u64,
    r_step_size_bps: u64,
    rtt_explor_prob_ppm: u64,
    rtt_thresh_scaling_factor_ppm: u64,
) -> ProfileConfig {
    ProfileConfig {
        max_bitrate_bps,
        min_bitrate_bps,
        initial_bitrate_bps,
        update_interval_nestvr_ns,
        step_size_bps,
        r_step_size_bps,
        capacity_scaling_factor_ppm: 900_000,
        rtt_explor_prob_ppm,
        nfr_thresh_ppm: 950_000,
        rtt_thresh_scaling_factor_ppm,
    }
}

/// The table of profiles. Every built-in profile takes nine tenths of the capacity and asks
/// for 95 % of the frames; a custom profile hands back the caller's constants.
pub open spec fn profile_config(
    max_bitrate_bps: Option<u64>,
    min_bitrate_bps: Option<u64>,
    initial_bitrate_bps: u64,
    nest_vr_profile: NestVrProfile,
) -> ProfileConfig {
    match nest_vr_profile {
        NestVrProfile::Custom {
            update_interval_nestvr_ns,
            step_size_bps,
            r_step_size_bps,
            capacity_scaling_factor_ppm,
            rtt_explor_prob_ppm,
            nfr_thresh_ppm,
            rtt_thresh_scaling_factor_ppm,
        } => ProfileConfig {
            max_bitrate_bps,
            min_bitrate_bps,
            initial_bitrate_bps,
            update_interval_nestvr_ns,
            step_size_bps,
            r_step_size_bps,
            capacity_scaling_factor_ppm,
            rtt_explor_prob_ppm,
            nfr_thresh_ppm,
            rtt_thresh_scaling_factor_ppm,
        },
        NestVrProfile::Generic => tuned(
            max_bitrate_bps,
            min_bitrate_bps,
            initial_bitrate_bps,
            1_000_000_000,
            10_000_000,
            10_000_000,
            250_000,
            2_000_000,
        ),
        NestVrProfile::MinMax => tuned(
            max_bitrate_bps,
            min_bitrate_bps,
            initial_bitrate_bps,
            1_000_000_000,
            100_000_000,
            100_000_000,
            250_000,
            2_000_000,
        ),
        NestVrProfile::Drop => tuned(
            max_bitrate_bps,
            min_bitrate_bps,
            initial_bitrate_bps,
            1_000_000_000,
            10_000_000,
            100_000_000,
            250_000,
            2_000_000,
        ),
        NestVrProfile::SwiftDecline => tuned(
            max_bitrate_bps,
            min_bitrate_bps,
            initial_bitrate_bps,
            1_000_000_000,
            10_000_000,
            20_000_000,
            250_000,
            2_000_000,
        ),
        NestVrProfile::Mobility => tuned(
            max_bitrate_bps,
            min_bitrate_bps,
            initial_bitrate_bps,
            500_000_000,
            5_000_000,
            15_000_000,
            200_000,
            1_500_000,
        ),
        NestVrProfile::Dense => tuned(
            max_bitrate_bps,
            min_bitrate_bps,
            initial_bitrate_bps,
            1_000_000_000,
            20_000_000,
            25_000_000,
            500_000,
            3_000_000,
        ),
    }
}

fn tune(
    max_bitrate_bps: Option<u64>,
    min_bitrate_bps: Option<u64>,
    initial_bitrate_bps: u64,
    update_interval_nestvr_ns: u64,
    step_size_bps: u64,
    r_step_size_bps: u64,
    rtt_explor_prob_ppm: u64,
    rtt_thresh_scaling_factor_ppm: u64,
) -> (r: ProfileConfig)
    ensures
        r == tuned(
            max_bitrate_bps,
            min_bitrate_bps,
            initial_bitrate_bps,
            update_interval_nestvr_ns,
            step_size_bps,
            r_step_size_bps,
            rtt_explor_prob_ppm,
            rtt_thresh_scaling_factor_ppm,
        ),
{
    ProfileConfig {
        max_bitrate_bps,
        min_bitrate_bps,
        initial_bitrate_bps,
        update_interval_nestvr_ns,
        step_size_bps,
        r_step_size_bps,
        capacity_scaling_factor_ppm: 900_000,
        rtt_explor_prob_ppm,
        nfr_thresh_ppm: 950_000,
        rtt_thresh_scaling_factor_ppm,
    }
}

/// Looks up the constants of a profile. The bounds and the initial bitrate are the caller's.
pub fn get_profile_config(
    max_bitrate_bps: &Option<u64>,
    min_bitrate_bps: &Option<u64>,
    initial_bitrate_bps: &u64,
    nest_vr_profile: &NestVrProfile,
) -> (r: ProfileConfig)
    ensures
        r == profile_config(
            *max_bitrate_bps,
            *min_bitrate_bps,
            *initial_bitrate_bps,
            *nest_vr_profile,
        ),
        r.max_bitrate_bps == *max_bitrate_bps,
        r.min_bitrate_bps == *min_bitrate_bps,
        r.initial_bitrate_bps == *initial_bitrate_bps,
        r.well_formed() <==> {
            &&& *min_bitrate_bps matches Some(min) ==> min <= *initial_bitrate_bps
            &&& *max_bitrate_bps matches Some(max) ==> *initial_bitrate_bps <= max
        },
{
    let max = *max_bitrate_bps;
    let min = *min_bitrate_bps;
    let initial: u64 = *initial_bitrate_bps;
    match *nest_vr_profile {
        NestVrProfile::Custom {
            update_interval_nestvr_ns,
            step_size_bps,
            r_step_size_bps,
            capacity_scaling_factor_ppm,
            rtt_explor_prob_ppm,
            nfr_thresh_ppm,
            rtt_thresh_scaling_factor_ppm,
        } => ProfileConfig {
            max_bitrate_bps: max,
            min_bitrate_bps: min,
            initial_bitrate_bps: initial,
            update_interval_nestvr_ns,
            step_size_bps,
            r_step_size_bps,
            capacity_scaling_factor_ppm,
            rtt_explor_prob_ppm,
            nfr_thresh_ppm,
            rtt_thresh_scaling_factor_ppm,
        },
        NestVrProfile::Generic => tune(
            max,
            min,
            initial,
            1_000_000_000,
            10_000_000,
            10_000_000,
            250_000,
            2_000_000,
        ),
        NestVrProfile::MinMax => tune(
            max,
            min,
            initial,
            1_000_000_000,
            100_000_000,
            100_000_000,
            250_000,
            2_000_000,
        ),
        NestVrProfile::Drop => tune(
            max,
            min,
            initial,
            1_000_000_000,
            10_000_000,
            100_000_000,
            250_000,
            2_000_000,
        ),
        NestVrProfile::SwiftDecline => tune(
            max,
            min,
            initial,
            1_000_000_000,
            10_000_000,
            20_000_000,
            250_000,
            2_000_000,
        ),
        NestVrProfile::Mobility => tune(
            max,
            min,
            initial,
            500_000_000,
            5_000_000,
            15_000_000,
            200_000,
            1_500_000,
        ),
        NestVrProfile::Dense => tune(
            max,
            min,
            initial,
            1_000_000_000,
            20_000_000,
            25_000_000,
            500_000,
            3_000_000,
        ),
    }
}

/// A built-in profile never steps by nothing, and never takes more than the whole capacity.
pub proof fn lemma_builtin_profiles_step(
    max_bitrate_bps: Option<u64>,
    min_bitrate_bps: Option<u64>,
    initial_bitrate_bps: u64,
    nest_vr_profile: NestVrProfile,
)
    requires
        !(nest_vr_profile is Custom),
    ensures
        ({
            let config = profile_config(
                max_bitrate_bps,
                min_bitrate_bps,
                initial_bitrate_bps,
                nest_vr_profile,
            );
            &&& config.step_size_bps > 0
            &&& config.r_step_size_bps >= config.step_size_bps
            &&& config.capacity_scaling_factor_ppm <= 1_000_000
            &&& config.rtt_explor_prob_ppm <= 1_000_000
            &&& config.update_interval_nestvr_ns > 0
        }),
{
}

} // verus!
