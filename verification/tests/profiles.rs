use nestvr_core::nestvr_profiles::{get_profile_config, NestVrProfile, ProfileConfig};
use nestvr_core::response_handler::{handle_ap_response, response_is_success};
use nestvr_core::settings::{AveragingStrategy, BitrateConfig, BitrateMode, WindowType};

fn builtin(
    update_interval_nestvr_ns: u64,
    step_size_bps: u64,
    r_step_size_bps: u64,
    rtt_explor_prob_ppm: u64,
    rtt_thresh_scaling_factor_ppm: u64,
) -> ProfileConfig {
    ProfileConfig {
        max_bitrate_bps: Some(200_000_000),
        min_bitrate_bps: Some(5_000_000),
        initial_bitrate_bps: 30_000_000,
        update_interval_nestvr_ns,
        step_size_bps,
        r_step_size_bps,
        capacity_scaling_factor_ppm: 900_000,
        rtt_explor_prob_ppm,
        nfr_thresh_ppm: 950_000,
        rtt_thresh_scaling_factor_ppm,
    }
}

fn lookup(profile: NestVrProfile) -> ProfileConfig {
    get_profile_config(&Some(200_000_000), &Some(5_000_000), &30_000_000, &profile)
}

#[test]
fn builtin_profiles_hold_the_table() {
    assert_eq!(
        lookup(NestVrProfile::Generic),
        builtin(1_000_000_000, 10_000_000, 10_000_000, 250_000, 2_000_000)
    );
    assert_eq!(
        lookup(NestVrProfile::MinMax),
        builtin(1_000_000_000, 100_000_000, 100_000_000, 250_000, 2_000_000)
    );
    assert_eq!(
        lookup(NestVrProfile::Drop),
        builtin(1_000_000_000, 10_000_000, 100_000_000, 250_000, 2_000_000)
    );
    assert_eq!(
        lookup(NestVrProfile::SwiftDecline),
        builtin(1_000_000_000, 10_000_000, 20_000_000, 250_000, 2_000_000)
    );
    assert_eq!(
        lookup(NestVrProfile::Mobility),
        builtin(500_000_000, 5_000_000, 15_000_000, 200_000, 1_500_000)
    );
    assert_eq!(
        lookup(NestVrProfile::Dense),
        builtin(1_000_000_000, 20_000_000, 25_000_000, 500_000, 3_000_000)
    );
}

#[test]
fn custom_profile_echoes_the_caller() {
    let custom = NestVrProfile::Custom {
        update_interval_nestvr_ns: 1,
        step_size_bps: 2,
        r_step_size_bps: 3,
        capacity_scaling_factor_ppm: 4,
        rtt_explor_prob_ppm: 5,
        nfr_thresh_ppm: 6,
        rtt_thresh_scaling_factor_ppm: 7,
    };
    assert_eq!(
        get_profile_config(&None, &Some(8), &9, &custom),
        ProfileConfig {
            max_bitrate_bps: None,
            min_bitrate_bps: Some(8),
            initial_bitrate_bps: 9,
            update_interval_nestvr_ns: 1,
            step_size_bps: 2,
            r_step_size_bps: 3,
            capacity_scaling_factor_ppm: 4,
            rtt_explor_prob_ppm: 5,
            nfr_thresh_ppm: 6,
            rtt_thresh_scaling_factor_ppm: 7,
        }
    );
}

#[test]
fn bounds_are_the_callers() {
    let config = get_profile_config(&None, &None, &77, &NestVrProfile::Dense);
    assert_eq!(config.max_bitrate_bps, None);
    assert_eq!(config.min_bitrate_bps, None);
    assert_eq!(config.initial_bitrate_bps, 77);
    let config = get_profile_config(&Some(1), &Some(2), &3, &NestVrProfile::Mobility);
    assert_eq!(config.max_bitrate_bps, Some(1));
    assert_eq!(config.min_bitrate_bps, Some(2));
    assert_eq!(config.initial_bitrate_bps, 3);
}

#[test]
fn configuration_is_well_formed_when_its_bounds_are_ordered() {
    let nestvr = |min, initial, max| BitrateConfig {
        mode: BitrateMode::NestVr {
            max_bitrate_bps: max,
            min_bitrate_bps: min,
            initial_bitrate_bps: initial,
            averaging_strategy: AveragingStrategy::SimpleWindowAverage {
                window_type: WindowType::BySeconds { sliding_window_ns: None },
            },
            nest_vr_profile: NestVrProfile::Generic,
        },
        adapt_to_framerate: None,
    };
    assert!(nestvr(Some(1), 2, Some(3)).is_well_formed());
    assert!(nestvr(Some(2), 2, Some(2)).is_well_formed());
    assert!(nestvr(None, 2, None).is_well_formed());
    assert!(nestvr(None, 2, Some(2)).is_well_formed());
    assert!(!nestvr(Some(3), 2, Some(4)).is_well_formed());
    assert!(!nestvr(Some(1), 5, Some(4)).is_well_formed());
    assert!(!nestvr(None, 5, Some(4)).is_well_formed());
    let constant = BitrateConfig { mode: BitrateMode::ConstantMbps(1), adapt_to_framerate: None };
    assert!(constant.is_well_formed());
}

#[test]
fn successful_response_gives_its_body() {
    assert_eq!(
        handle_ap_response(200, "200 OK", Ok(String::from("{\"interfaces\":[]}"))),
        Ok(String::from("{\"interfaces\":[]}"))
    );
    assert_eq!(handle_ap_response(299, "299 <unknown status code>", Ok(String::new())), Ok(String::new()));
}

#[test]
fn unreadable_body_gives_its_cause() {
    assert_eq!(
        handle_ap_response(200, "200 OK", Err(String::from("error decoding response body"))),
        Err(String::from("Failed to read response body: error decoding response body"))
    );
}

#[test]
fn unsuccessful_status_gives_the_status() {
    assert_eq!(
        handle_ap_response(404, "404 Not Found", Ok(String::from("ignored"))),
        Err(String::from("Failed to get a successful response: 404 Not Found"))
    );
    assert_eq!(
        handle_ap_response(500, "500 Internal Server Error", Err(String::from("ignored"))),
        Err(String::from("Failed to get a successful response: 500 Internal Server Error"))
    );
    assert_eq!(
        handle_ap_response(300, "300 Multiple Choices", Ok(String::new())),
        Err(String::from("Failed to get a successful response: 300 Multiple Choices"))
    );
    assert_eq!(
        handle_ap_response(199, "199 <unknown status code>", Ok(String::new())),
        Err(String::from("Failed to get a successful response: 199 <unknown status code>"))
    );
}

#[test]
fn success_is_the_two_hundreds() {
    assert!(!response_is_success(0));
    assert!(!response_is_success(199));
    assert!(response_is_success(200));
    assert!(response_is_success(204));
    assert!(response_is_success(299));
    assert!(!response_is_success(300));
    assert!(!response_is_success(u16::MAX));
}
