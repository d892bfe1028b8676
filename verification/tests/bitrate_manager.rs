use nestvr_core::ap_stats::IpAddress;
use nestvr_core::bitrate::{
    quantize_from_previous, report_counts_slow_decoder, BitrateManager, EncoderParams,
    HeuristicStats, NominalBitrateStats, PacketSize,
};
use nestvr_core::nestvr_profiles::NestVrProfile;
use nestvr_core::settings::{
    AveragingStrategy, BitrateAdaptiveFramerateConfig, BitrateConfig, BitrateMode,
    DecoderLatencyLimiter, EncoderLatencyLimiter, WindowType,
};

const MBPS: u64 = 1_000_000;
const MS: u64 = 1_000_000;
const FPS_90: u64 = 90_000_000;
const FRAME_11_1_MS: u64 = 11_111_111;

fn nestvr(min_mbps: u64, max_mbps: u64, profile: NestVrProfile) -> BitrateConfig {
    BitrateConfig {
        mode: BitrateMode::NestVr {
            max_bitrate_bps: Some(max_mbps * MBPS),
            min_bitrate_bps: Some(min_mbps * MBPS),
            initial_bitrate_bps: 100 * MBPS,
            averaging_strategy: AveragingStrategy::SimpleWindowAverage {
                window_type: WindowType::BySamples { sliding_window_samp: 256 },
            },
            nest_vr_profile: profile,
        },
        adapt_to_framerate: None,
    }
}

fn adaptive(saturation_multiplier_ppm: u64) -> BitrateConfig {
    BitrateConfig {
        mode: BitrateMode::Adaptive {
            saturation_multiplier_ppm,
            max_bitrate_mbps: None,
            min_bitrate_mbps: None,
            max_network_latency_ms: None,
            encoder_latency_limiter: None,
            decoder_latency_limiter: None,
            history_size: 256,
        },
        adapt_to_framerate: None,
    }
}

fn constant(mbps: u64) -> BitrateConfig {
    BitrateConfig { mode: BitrateMode::ConstantMbps(mbps), adapt_to_framerate: None }
}

/// A manager whose last target is 100 Mbps, with a frame interval of 11.1 ms and a peak
/// throughput of `peak` behind it.
fn manager(rtt: u64, frame_interarrival: u64, peak: u64) -> BitrateManager {
    let mut manager =
        BitrateManager::new(Some(256), FPS_90, 100 * MBPS, None, None, IpAddress::V4(0), 0);
    manager.report_network_statistics(rtt, peak, frame_interarrival, 0);
    manager.report_frame_present(&None, FRAME_11_1_MS);
    manager
}

#[test]
fn new_manager_holds_the_initial_values() {
    let manager =
        BitrateManager::new(Some(256), FPS_90, 30 * MBPS, None, None, IpAddress::V4(7), 42);
    assert_eq!(manager.nominal_frame_interval(), FRAME_11_1_MS);
    assert_eq!(manager.frame_interval_average(), 16 * MS);
    assert_eq!(manager.encoder_latency_average(), 5 * MS);
    assert_eq!(manager.network_latency_average(), 5 * MS);
    assert_eq!(manager.rtt_average(), 5 * MS);
    assert_eq!(manager.bitrate_average(), 30 * MBPS);
    assert_eq!(manager.peak_throughput_average(), 300 * MBPS);
    assert_eq!(manager.frame_interarrival_average(), FRAME_11_1_MS);
    assert_eq!(manager.dynamic_max_bitrate(), u64::MAX);
    assert_eq!(manager.last_target_bitrate_bps(), 30 * MBPS);
    assert_eq!(manager.update_interval(), 1_000_000_000);
    assert!(manager.update_needed());
    assert_eq!(manager.decoder_latency_overstep_count(), 0);
    assert!(manager.pending_packet_sizes().is_empty());
    assert!(manager.ap_stats_current().is_none());
}

#[test]
fn update_nominal_frame_interval_sets_the_period() {
    let mut manager =
        BitrateManager::new(Some(256), FPS_90, 30 * MBPS, None, None, IpAddress::V4(7), 0);
    manager.update_nominal_frame_interval(60_000_000);
    assert_eq!(manager.nominal_frame_interval(), 16_666_666);
    manager.update_nominal_frame_interval(120_000_000);
    assert_eq!(manager.nominal_frame_interval(), 8_333_333);
}

#[test]
fn nestvr_steps_up_when_rtt_is_low_and_the_draw_explores() {
    let mut manager = manager(5 * MS, FRAME_11_1_MS, 500 * MBPS);
    let update = manager.encoder_params_for_draw(
        &nestvr(10, 1000, NestVrProfile::Generic),
        FRAME_11_1_MS,
        100_000,
    );
    assert_eq!(
        update.params,
        EncoderParams { updated: true, bitrate_bps: 110 * MBPS, framerate: FPS_90 }
    );
    assert_eq!(
        update.heuristic,
        Some(HeuristicStats {
            frame_interval: FRAME_11_1_MS,
            server_fps: FPS_90,
            steps_bps: 10 * MBPS,
            r_steps_bps: 10 * MBPS,
            network_heur_fps: FPS_90,
            rtt_avg_heur: 5 * MS,
            random_prob: 100_000,
            threshold_fps: 85_500_000,
            threshold_rtt: 22_222_222,
            threshold_u: 250_000,
            requested_bitrate_bps: 110 * MBPS,
        })
    );
    assert_eq!(
        update.stats,
        Some(NominalBitrateStats {
            requested_bps: 110 * MBPS,
            scaled_calculated_bps: None,
            decoder_latency_limiter_bps: None,
            network_latency_limiter_bps: None,
            encoder_latency_limiter_bps: None,
            manual_max_bps: Some(1000 * MBPS),
            manual_min_bps: Some(10 * MBPS),
        })
    );
    assert_eq!(manager.last_target_bitrate_bps(), 110 * MBPS);
    assert!(!manager.update_needed());
}

#[test]
fn nestvr_steps_down_when_rtt_is_high() {
    let mut manager = manager(40 * MS, FRAME_11_1_MS, 500 * MBPS);
    let update = manager.encoder_params_for_draw(
        &nestvr(10, 1000, NestVrProfile::Generic),
        FRAME_11_1_MS,
        900_000,
    );
    assert!(update.params.updated);
    assert_eq!(update.params.bitrate_bps, 90 * MBPS);
}

#[test]
fn nestvr_steps_down_when_the_network_loses_frames() {
    let mut manager = manager(5 * MS, 20 * MS, 500 * MBPS);
    let update = manager.encoder_params_for_draw(
        &nestvr(10, 1000, NestVrProfile::Generic),
        FRAME_11_1_MS,
        100_000,
    );
    assert_eq!(update.heuristic.unwrap().network_heur_fps, 50_000_000);
    assert_eq!(update.params.bitrate_bps, 90 * MBPS);
}

#[test]
fn nestvr_holds_when_the_draw_does_not_explore() {
    let config = nestvr(10, 1000, NestVrProfile::Generic);
    let mut low_rtt = manager(5 * MS, FRAME_11_1_MS, 500 * MBPS);
    assert_eq!(
        low_rtt.encoder_params_for_draw(&config, FRAME_11_1_MS, 250_001).params.bitrate_bps,
        100 * MBPS
    );
    let mut high_rtt = manager(40 * MS, FRAME_11_1_MS, 500 * MBPS);
    assert_eq!(
        high_rtt.encoder_params_for_draw(&config, FRAME_11_1_MS, 249_999).params.bitrate_bps,
        100 * MBPS
    );
}

#[test]
fn nestvr_draw_at_the_threshold_moves_both_ways() {
    let config = nestvr(10, 1000, NestVrProfile::Generic);
    let mut low_rtt = manager(5 * MS, FRAME_11_1_MS, 500 * MBPS);
    assert_eq!(
        low_rtt.encoder_params_for_draw(&config, FRAME_11_1_MS, 250_000).params.bitrate_bps,
        110 * MBPS
    );
    let mut high_rtt = manager(40 * MS, FRAME_11_1_MS, 500 * MBPS);
    assert_eq!(
        high_rtt.encoder_params_for_draw(&config, FRAME_11_1_MS, 250_000).params.bitrate_bps,
        90 * MBPS
    );
}

#[test]
fn nestvr_is_capped_by_the_capacity() {
    let mut manager = manager(5 * MS, FRAME_11_1_MS, 100 * MBPS);
    let update = manager.encoder_params_for_draw(
        &nestvr(10, 1000, NestVrProfile::Generic),
        FRAME_11_1_MS,
        100_000,
    );
    assert_eq!(update.params.bitrate_bps, 90 * MBPS);
}

#[test]
fn nestvr_stays_within_the_bounds() {
    let mut at_max = manager(5 * MS, FRAME_11_1_MS, 500 * MBPS);
    let update =
        at_max.encoder_params_for_draw(&nestvr(10, 100, NestVrProfile::Generic), 0, 100_000);
    assert_eq!(update.params.bitrate_bps, 100 * MBPS);
    let mut at_min = manager(40 * MS, FRAME_11_1_MS, 500 * MBPS);
    let update =
        at_min.encoder_params_for_draw(&nestvr(100, 1000, NestVrProfile::Generic), 0, 900_000);
    assert_eq!(update.params.bitrate_bps, 100 * MBPS);
}

#[test]
fn nestvr_keeps_the_target_where_no_whole_step_fits() {
    // The capacity allows 96 Mbps, the lower bound is 95 Mbps and a step down is 10 Mbps:
    // no whole step down from 100 Mbps stays over the lower bound.
    let mut manager = manager(5 * MS, FRAME_11_1_MS, 106_666_667);
    let update = manager.encoder_params_for_draw(
        &nestvr(95, 1000, NestVrProfile::Generic),
        FRAME_11_1_MS,
        100_000,
    );
    assert_eq!(update.params.bitrate_bps, 100 * MBPS);
}

#[test]
fn nestvr_profiles_step_by_their_own_sizes() {
    let mut drop = manager(40 * MS, FRAME_11_1_MS, 2000 * MBPS);
    assert_eq!(
        drop.encoder_params_for_draw(&nestvr(0, 1000, NestVrProfile::Drop), 0, 900_000)
            .params
            .bitrate_bps,
        0
    );
    let mut swift = manager(40 * MS, FRAME_11_1_MS, 2000 * MBPS);
    assert_eq!(
        swift
            .encoder_params_for_draw(&nestvr(0, 1000, NestVrProfile::SwiftDecline), 0, 900_000)
            .params
            .bitrate_bps,
        80 * MBPS
    );
    let mut mobility = manager(5 * MS, FRAME_11_1_MS, 2000 * MBPS);
    assert_eq!(
        mobility
            .encoder_params_for_draw(&nestvr(0, 1000, NestVrProfile::Mobility), 0, 200_000)
            .params
            .bitrate_bps,
        105 * MBPS
    );
    let mut dense = manager(30 * MS, FRAME_11_1_MS, 2000 * MBPS);
    assert_eq!(
        dense
            .encoder_params_for_draw(&nestvr(0, 1000, NestVrProfile::Dense), 0, 500_000)
            .params
            .bitrate_bps,
        120 * MBPS
    );
}

#[test]
fn nestvr_update_interval_gates_the_ticks() {
    let config = nestvr(10, 1000, NestVrProfile::Mobility);
    let mut manager = manager(5 * MS, FRAME_11_1_MS, 500 * MBPS);
    assert!(manager.encoder_params_for_draw(&config, 1000 * MS, 0).params.updated);
    assert_eq!(manager.update_interval(), 500 * MS);
    let idle = manager.encoder_params_for_draw(&config, 1499 * MS, 0);
    assert_eq!(idle.params, EncoderParams { updated: false, bitrate_bps: 0, framerate: 0 });
    assert_eq!(idle.stats, None);
    assert_eq!(idle.heuristic, None);
    assert_eq!(manager.last_target_bitrate_bps(), 105 * MBPS);
    let next = manager.encoder_params_for_draw(&config, 1500 * MS, 0);
    assert!(next.params.updated);
    assert_eq!(next.params.bitrate_bps, 110 * MBPS);
}

#[test]
fn zero_frame_interval_gives_zero_server_fps() {
    let mut manager =
        BitrateManager::new(Some(256), FPS_90, 100 * MBPS, None, None, IpAddress::V4(0), 0);
    manager.report_frame_present(&None, 0);
    assert_eq!(manager.frame_interval_average(), 0);
    let update =
        manager.encoder_params_for_draw(&nestvr(10, 1000, NestVrProfile::Generic), 0, 100_000);
    let heuristic = update.heuristic.unwrap();
    assert_eq!(heuristic.server_fps, 0);
    assert_eq!(heuristic.threshold_fps, 0);
    assert_eq!(heuristic.threshold_rtt, 0);
    // The round trip of 5 ms is over a threshold of zero; the draw is under the exploration
    // probability, so the bitrate holds.
    assert_eq!(update.params.bitrate_bps, 100 * MBPS);
}

#[test]
fn zero_frame_interarrival_gives_zero_heur_fps() {
    let mut manager = manager(5 * MS, 0, 500 * MBPS);
    let update = manager.encoder_params_for_draw(
        &nestvr(10, 1000, NestVrProfile::Generic),
        FRAME_11_1_MS,
        100_000,
    );
    assert_eq!(update.heuristic.unwrap().network_heur_fps, 0);
    assert_eq!(update.params.bitrate_bps, 90 * MBPS);
}

#[test]
fn constant_bitrate_updates_once() {
    let mut manager =
        BitrateManager::new(Some(256), FPS_90, 30 * MBPS, None, None, IpAddress::V4(0), 0);
    let first = manager.get_encoder_params(&constant(50), 0);
    assert_eq!(
        first.params,
        EncoderParams { updated: true, bitrate_bps: 50_000_000, framerate: FPS_90 }
    );
    assert_eq!(first.stats.unwrap().requested_bps, 50_000_000);
    let second = manager.get_encoder_params(&constant(50), 100 * MS);
    assert_eq!(second.params, EncoderParams { updated: false, bitrate_bps: 0, framerate: 0 });
    let much_later = manager.get_encoder_params(&constant(50), 100_000 * MS);
    assert!(!much_later.params.updated);
    let changed = manager.get_encoder_params(&constant(60), 100_001 * MS);
    assert_eq!(
        changed.params,
        EncoderParams { updated: true, bitrate_bps: 60_000_000, framerate: FPS_90 }
    );
}

#[test]
fn constant_bitrate_saturates() {
    let mut manager =
        BitrateManager::new(Some(256), FPS_90, 30 * MBPS, None, None, IpAddress::V4(0), 0);
    let update = manager.get_encoder_params(&constant(u64::MAX), 0);
    assert_eq!(update.params.bitrate_bps, u64::MAX);
}

#[test]
fn adaptive_scales_the_average_bitrate() {
    let mut manager =
        BitrateManager::new(Some(256), FPS_90, 30 * MBPS, None, None, IpAddress::V4(0), 0);
    let update = manager.get_encoder_params(&adaptive(1_200_000), 0);
    assert_eq!(
        update.params,
        EncoderParams { updated: true, bitrate_bps: 36 * MBPS, framerate: FPS_90 }
    );
    assert_eq!(
        update.stats,
        Some(NominalBitrateStats {
            requested_bps: 36 * MBPS,
            scaled_calculated_bps: Some(36 * MBPS),
            decoder_latency_limiter_bps: Some(u64::MAX),
            network_latency_limiter_bps: None,
            encoder_latency_limiter_bps: None,
            manual_max_bps: None,
            manual_min_bps: None,
        })
    );
    assert_eq!(update.heuristic, None);
}

#[test]
fn adaptive_limiters_hold_the_bitrate() {
    let limited = |max_mbps, min_mbps, latency_ms, saturation| BitrateConfig {
        mode: BitrateMode::Adaptive {
            saturation_multiplier_ppm: 1_200_000,
            max_bitrate_mbps: max_mbps,
            min_bitrate_mbps: min_mbps,
            max_network_latency_ms: latency_ms,
            encoder_latency_limiter: saturation,
            decoder_latency_limiter: None,
            history_size: 256,
        },
        adapt_to_framerate: None,
    };
    let fresh =
        || BitrateManager::new(Some(256), FPS_90, 30 * MBPS, None, None, IpAddress::V4(0), 0);

    // The network may take 8 ms and takes 5 ms: the limit of 48 Mbps has no say.
    let update = fresh().get_encoder_params(&limited(None, None, Some(8), None), 0);
    assert_eq!(update.params.bitrate_bps, 36 * MBPS);
    assert_eq!(update.stats.unwrap().network_latency_limiter_bps, Some(48 * MBPS));
    // The network may take 4 ms and takes 5 ms.
    let update = fresh().get_encoder_params(&limited(None, None, Some(4), None), 0);
    assert_eq!(update.params.bitrate_bps, 24 * MBPS);
    // The encoder takes 5 ms of 11.1 ms, and may take four tenths of the interval.
    let limiter = EncoderLatencyLimiter { max_saturation_multiplier_ppm: 400_000 };
    let update = fresh().get_encoder_params(&limited(None, None, None, Some(limiter)), 0);
    assert_eq!(update.params.bitrate_bps, 26_666_666);
    assert_eq!(update.stats.unwrap().encoder_latency_limiter_bps, Some(26_666_666));
    // The encoder may take half of the interval: the limit is reported, not applied.
    let limiter = EncoderLatencyLimiter { max_saturation_multiplier_ppm: 500_000 };
    let update = fresh().get_encoder_params(&limited(None, None, None, Some(limiter)), 0);
    assert_eq!(update.params.bitrate_bps, 36 * MBPS);
    assert_eq!(update.stats.unwrap().encoder_latency_limiter_bps, Some(33_333_333));
    let update = fresh().get_encoder_params(&limited(Some(20), None, None, None), 0);
    assert_eq!(update.params.bitrate_bps, 20 * MBPS);
    assert_eq!(update.stats.unwrap().manual_max_bps, Some(20 * MBPS));
    let update = fresh().get_encoder_params(&limited(None, Some(40), None, None), 0);
    assert_eq!(update.params.bitrate_bps, 40 * MBPS);
    assert_eq!(update.stats.unwrap().manual_min_bps, Some(40 * MBPS));
    // The minimum is applied last.
    let update = fresh().get_encoder_params(&limited(Some(20), Some(40), None, None), 0);
    assert_eq!(update.params.bitrate_bps, 40 * MBPS);
}

#[test]
fn get_encoder_params_draws_a_probability() {
    let config = nestvr(10, 1000, NestVrProfile::Generic);
    let mut now: u64 = 0;
    let mut manager = manager(5 * MS, FRAME_11_1_MS, 500 * MBPS);
    for _ in 0..200 {
        now += 1000 * MS;
        let before = manager.last_target_bitrate_bps();
        let update = manager.get_encoder_params(&config, now);
        let heuristic = update
            .heuristic
            .unwrap_or_else(|| panic!("the heuristic decides every second"));
        assert!(heuristic.random_prob < 1_000_000);
        let expected = if heuristic.random_prob <= 250_000 { before + 10 * MBPS } else { before };
        assert_eq!(update.params.bitrate_bps, expected.min(450 * MBPS));
    }
}

#[test]
fn framerate_follows_the_measured_interval_when_adaptive() {
    let adaptive_framerate =
        Some(BitrateAdaptiveFramerateConfig { framerate_reset_threshold_multiplier_ppm: 2_000_000 });
    let config = BitrateConfig { mode: BitrateMode::ConstantMbps(50), adapt_to_framerate: adaptive_framerate };
    let mut manager =
        BitrateManager::new(Some(256), FPS_90, 30 * MBPS, None, None, IpAddress::V4(0), 0);
    manager.report_frame_present(&adaptive_framerate, 20 * MS);
    assert_eq!(manager.get_encoder_params(&config, 20 * MS).params.framerate, 50_000_000);

    // Intervals over one second count as one second.
    let mut slow =
        BitrateManager::new(Some(256), FPS_90, 30 * MBPS, None, None, IpAddress::V4(0), 0);
    slow.report_frame_present(&adaptive_framerate, 2000 * MS);
    assert_eq!(slow.get_encoder_params(&config, 2000 * MS).params.framerate, 1_000_000);

    // An interval of zero gives the largest rate.
    let mut stuck =
        BitrateManager::new(Some(256), FPS_90, 30 * MBPS, None, None, IpAddress::V4(0), 0);
    stuck.report_frame_present(&adaptive_framerate, 0);
    assert_eq!(stuck.get_encoder_params(&config, 0).params.framerate, u64::MAX);
}

#[test]
fn frame_present_resets_the_history_on_a_jump() {
    let adaptive_framerate =
        Some(BitrateAdaptiveFramerateConfig { framerate_reset_threshold_multiplier_ppm: 2_000_000 });
    let config = BitrateConfig { mode: BitrateMode::ConstantMbps(50), adapt_to_framerate: adaptive_framerate };
    let mut manager =
        BitrateManager::new(Some(256), FPS_90, 30 * MBPS, None, None, IpAddress::V4(0), 0);
    for frame in 1..=8u64 {
        manager.report_frame_present(&adaptive_framerate, frame * 10 * MS);
    }
    assert_eq!(manager.frame_interval_average(), 10 * MS);
    assert!(manager.get_encoder_params(&config, 80 * MS).params.updated);
    assert!(!manager.update_needed());
    // A frame within the threshold changes the average only.
    manager.report_frame_present(&adaptive_framerate, 95 * MS);
    assert_eq!(manager.frame_interval_average(), 10_555_555);
    assert!(!manager.update_needed());
    // A frame after 30 ms is over twice the average: five samples stay.
    manager.report_frame_present(&adaptive_framerate, 125 * MS);
    assert_eq!(manager.frame_interval_average(), 15 * MS);
    assert!(manager.update_needed());
    // The request makes a constant bitrate decide again.
    assert!(manager.get_encoder_params(&config, 125 * MS).params.updated);
    // Without the adaptive frame rate nothing is reset.
    manager.report_frame_present(&None, 1125 * MS);
    assert!(!manager.update_needed());
}

#[test]
fn frame_present_resets_on_a_short_interval_too() {
    let adaptive_framerate =
        Some(BitrateAdaptiveFramerateConfig { framerate_reset_threshold_multiplier_ppm: 2_000_000 });
    let mut manager =
        BitrateManager::new(Some(256), FPS_90, 30 * MBPS, None, None, IpAddress::V4(0), 0);
    for frame in 1..=8u64 {
        manager.report_frame_present(&adaptive_framerate, frame * 10 * MS);
    }
    let config = BitrateConfig { mode: BitrateMode::ConstantMbps(50), adapt_to_framerate: adaptive_framerate };
    manager.get_encoder_params(&config, 80 * MS);
    manager.report_frame_present(&adaptive_framerate, 82 * MS);
    // 2 ms against an average of 9.1 ms: four tens and a two stay.
    assert_eq!(manager.frame_interval_average(), 8_400_000);
    assert!(manager.update_needed());
}

#[test]
fn frame_present_saturates_when_the_clock_steps_back() {
    let mut manager =
        BitrateManager::new(Some(256), FPS_90, 30 * MBPS, None, None, IpAddress::V4(0), 100);
    manager.report_frame_present(&None, 50);
    assert_eq!(manager.frame_interval_average(), 0);
}

#[test]
fn frame_encoded_queues_the_size_in_bits() {
    let mut manager =
        BitrateManager::new(Some(256), FPS_90, 30 * MBPS, None, None, IpAddress::V4(0), 0);
    manager.report_frame_encoded(7, 3 * MS, 1000, 0);
    manager.report_frame_encoded(8, 5 * MS, 2000, 0);
    assert_eq!(
        manager.pending_packet_sizes(),
        vec![PacketSize { timestamp: 7, bits: 8000 }, PacketSize { timestamp: 8, bits: 16000 }]
    );
    assert_eq!(manager.encoder_latency_average(), 4 * MS);
}

#[test]
fn network_statistics_feed_three_averages() {
    let mut manager =
        BitrateManager::new(Some(256), FPS_90, 30 * MBPS, None, None, IpAddress::V4(0), 0);
    manager.report_network_statistics(10 * MS, 400 * MBPS, 12 * MS, 0);
    manager.report_network_statistics(20 * MS, 200 * MBPS, 14 * MS, 1);
    assert_eq!(manager.rtt_average(), 15 * MS);
    assert_eq!(manager.peak_throughput_average(), 300 * MBPS);
    assert_eq!(manager.frame_interarrival_average(), 13 * MS);
}

#[test]
fn frame_latencies_drain_the_history_up_to_the_frame() {
    let mut manager =
        BitrateManager::new(Some(256), FPS_90, 30 * MBPS, None, None, IpAddress::V4(0), 0);
    for timestamp in 1..=4u64 {
        manager.report_frame_encoded(timestamp, MS, 125_000 * timestamp as usize, 0);
    }
    manager.report_frame_latencies(&adaptive(1_000_000).mode, 2, 10 * MS, MS, 0);
    assert_eq!(
        manager.pending_packet_sizes(),
        vec![
            PacketSize { timestamp: 3, bits: 3_000_000 },
            PacketSize { timestamp: 4, bits: 4_000_000 }
        ]
    );
    // Two million bits in ten milliseconds.
    assert_eq!(manager.bitrate_average(), 200 * MBPS);
    assert_eq!(manager.network_latency_average(), 10 * MS);
    for entry in manager.pending_packet_sizes() {
        assert!(entry.timestamp > 2);
    }
}

#[test]
fn frame_latencies_of_an_unknown_frame_drop_the_earlier_frames_only() {
    let mut manager =
        BitrateManager::new(Some(256), FPS_90, 30 * MBPS, None, None, IpAddress::V4(0), 0);
    manager.report_frame_encoded(1, MS, 1000, 0);
    manager.report_frame_encoded(2, MS, 1000, 0);
    manager.report_frame_encoded(7, MS, 3000, 0);
    manager.report_frame_encoded(9, MS, 4000, 0);
    // No frame has the timestamp 5: the earlier frames go, the later ones wait on.
    manager.report_frame_latencies(&adaptive(1_000_000).mode, 5, 10 * MS, MS, 0);
    assert_eq!(
        manager.pending_packet_sizes(),
        vec![PacketSize { timestamp: 7, bits: 24000 }, PacketSize { timestamp: 9, bits: 32000 }]
    );
    assert_eq!(manager.bitrate_average(), 30 * MBPS);
    assert_eq!(manager.network_latency_average(), 10 * MS);
    // The later frame still finds its size: 24000 bits in ten milliseconds.
    manager.report_frame_latencies(&adaptive(1_000_000).mode, 7, 10 * MS, MS, 0);
    assert_eq!(manager.pending_packet_sizes(), vec![PacketSize { timestamp: 9, bits: 32000 }]);
    assert_eq!(manager.bitrate_average(), 2_400_000);
    // A report for a frame later than all of them empties the history.
    manager.report_frame_latencies(&adaptive(1_000_000).mode, 10, 10 * MS, MS, 0);
    assert!(manager.pending_packet_sizes().is_empty());
    assert_eq!(manager.bitrate_average(), 2_400_000);
}

#[test]
fn frame_latencies_with_repeated_timestamps_take_the_first_and_drop_both() {
    let mut manager =
        BitrateManager::new(Some(256), FPS_90, 30 * MBPS, None, None, IpAddress::V4(0), 0);
    manager.report_frame_encoded(5, MS, 1000, 0);
    manager.report_frame_encoded(5, MS, 2000, 0);
    manager.report_frame_encoded(6, MS, 3000, 0);
    manager.report_frame_latencies(&adaptive(1_000_000).mode, 5, 10 * MS, MS, 0);
    assert_eq!(manager.pending_packet_sizes(), vec![PacketSize { timestamp: 6, bits: 24000 }]);
    // One sample, from the first of the two: 8000 bits in ten milliseconds.
    assert_eq!(manager.bitrate_average(), 800_000);
}

#[test]
fn frame_latencies_leave_no_entry_up_to_the_frame_in_any_order() {
    let mut manager =
        BitrateManager::new(Some(256), FPS_90, 30 * MBPS, None, None, IpAddress::V4(0), 0);
    for timestamp in [8u64, 3, 9, 5, 4, 12, 5] {
        manager.report_frame_encoded(timestamp, MS, timestamp as usize * 1000, 0);
    }
    manager.report_frame_latencies(&adaptive(1_000_000).mode, 5, 10 * MS, MS, 0);
    assert_eq!(
        manager.pending_packet_sizes(),
        vec![
            PacketSize { timestamp: 8, bits: 64000 },
            PacketSize { timestamp: 9, bits: 72000 },
            PacketSize { timestamp: 12, bits: 96000 }
        ]
    );
    assert_eq!(manager.bitrate_average(), 4_000_000);
}

#[test]
fn frame_latencies_with_an_empty_history_submit_no_bitrate() {
    let mut manager =
        BitrateManager::new(Some(256), FPS_90, 30 * MBPS, None, None, IpAddress::V4(0), 0);
    manager.report_frame_latencies(&adaptive(1_000_000).mode, 1, 10 * MS, MS, 0);
    assert_eq!(manager.bitrate_average(), 30 * MBPS);
    assert_eq!(manager.network_latency_average(), 10 * MS);
    // A sample would have replaced the initial value in the adaptive decision too.
    assert_eq!(manager.get_encoder_params(&adaptive(1_200_000), 0).params.bitrate_bps, 36 * MBPS);
}

#[test]
fn frame_latencies_with_zero_network_latency_are_ignored() {
    let limiter = DecoderLatencyLimiter {
        max_decoder_latency_ms: 20,
        latency_overstep_frames: 1,
        latency_overstep_multiplier_ppm: 900_000,
    };
    let mode = BitrateMode::Adaptive {
        saturation_multiplier_ppm: 1_000_000,
        max_bitrate_mbps: None,
        min_bitrate_mbps: None,
        max_network_latency_ms: None,
        encoder_latency_limiter: None,
        decoder_latency_limiter: Some(limiter),
        history_size: 256,
    };
    let mut manager =
        BitrateManager::new(Some(256), FPS_90, 30 * MBPS, None, None, IpAddress::V4(0), 0);
    manager.report_frame_encoded(1, MS, 1000, 0);
    manager.report_frame_latencies(&mode, 1, 0, 50 * MS, 0);
    assert_eq!(manager.pending_packet_sizes().len(), 1);
    assert_eq!(manager.network_latency_average(), 5 * MS);
    assert_eq!(manager.dynamic_max_bitrate(), u64::MAX);
    assert_eq!(manager.decoder_latency_overstep_count(), 0);
}

#[test]
fn decoder_latency_limiter_lowers_the_bound_after_enough_frames() {
    let limiter = DecoderLatencyLimiter {
        max_decoder_latency_ms: 20,
        latency_overstep_frames: 2,
        latency_overstep_multiplier_ppm: 900_000,
    };
    let config = BitrateConfig {
        mode: BitrateMode::Adaptive {
            saturation_multiplier_ppm: 1_000_000,
            max_bitrate_mbps: None,
            min_bitrate_mbps: None,
            max_network_latency_ms: None,
            encoder_latency_limiter: None,
            decoder_latency_limiter: Some(limiter),
            history_size: 256,
        },
        adapt_to_framerate: None,
    };
    let mut manager =
        BitrateManager::new(Some(256), FPS_90, 30 * MBPS, None, None, IpAddress::V4(0), 0);
    assert!(manager.get_encoder_params(&config, 0).params.updated);
    for timestamp in 1..=5u64 {
        manager.report_frame_encoded(timestamp, MS, 125_000, 0);
    }
    // One frame over the limit, then one exactly at it: the count starts over.
    manager.report_frame_latencies(&config.mode, 1, 10 * MS, 30 * MS, 0);
    assert_eq!(manager.decoder_latency_overstep_count(), 1);
    manager.report_frame_latencies(&config.mode, 2, 10 * MS, 20 * MS, 0);
    assert_eq!(manager.decoder_latency_overstep_count(), 0);
    assert_eq!(manager.dynamic_max_bitrate(), u64::MAX);
    assert!(!manager.update_needed());
    // Two frames over the limit in a row.
    manager.report_frame_latencies(&config.mode, 3, 10 * MS, 21 * MS, 0);
    manager.report_frame_latencies(&config.mode, 4, 10 * MS, 21 * MS, 0);
    assert_eq!(manager.bitrate_average(), 100 * MBPS);
    assert_eq!(manager.dynamic_max_bitrate(), 90 * MBPS);
    assert_eq!(manager.decoder_latency_overstep_count(), 0);
    assert!(manager.update_needed());
    // The request makes the next tick decide at once, under the new bound.
    let update = manager.get_encoder_params(&config, 1);
    assert!(update.params.updated);
    assert_eq!(update.params.bitrate_bps, 90 * MBPS);
    assert_eq!(update.stats.unwrap().decoder_latency_limiter_bps, Some(90 * MBPS));
    // Other modes leave the count alone.
    manager.report_frame_latencies(&BitrateMode::ConstantMbps(5), 5, 10 * MS, 50 * MS, 0);
    assert_eq!(manager.decoder_latency_overstep_count(), 0);
    assert_eq!(manager.dynamic_max_bitrate(), 90 * MBPS);
}

#[test]
fn a_new_configuration_rewindows_the_averages() {
    let mut manager =
        BitrateManager::new(Some(256), FPS_90, 30 * MBPS, None, None, IpAddress::V4(0), 0);
    for sample in 1..=6u64 {
        manager.report_network_statistics(sample * MS, 0, 0, sample);
    }
    assert_eq!(manager.rtt_average(), 3_500_000);
    let by_samples = BitrateConfig {
        mode: BitrateMode::NestVr {
            max_bitrate_bps: None,
            min_bitrate_bps: None,
            initial_bitrate_bps: 30 * MBPS,
            averaging_strategy: AveragingStrategy::SimpleWindowAverage {
                window_type: WindowType::BySamples { sliding_window_samp: 2 },
            },
            nest_vr_profile: NestVrProfile::Generic,
        },
        adapt_to_framerate: None,
    };
    manager.get_encoder_params(&by_samples, 10);
    assert_eq!(manager.rtt_average(), 5_500_000);

    let by_seconds = BitrateConfig {
        mode: BitrateMode::NestVr {
            max_bitrate_bps: None,
            min_bitrate_bps: None,
            initial_bitrate_bps: 30 * MBPS,
            averaging_strategy: AveragingStrategy::SimpleWindowAverage {
                window_type: WindowType::BySeconds { sliding_window_ns: Some(100) },
            },
            nest_vr_profile: NestVrProfile::Generic,
        },
        adapt_to_framerate: None,
    };
    manager.get_encoder_params(&by_seconds, 11);
    manager.report_network_statistics(9 * MS, 0, 0, 50);
    assert_eq!(manager.rtt_average(), 6_666_666);
    // At 106 the samples of the instants 5 and 6 are too old.
    manager.report_network_statistics(11 * MS, 0, 0, 106);
    assert_eq!(manager.rtt_average(), 10 * MS);

    let weighted = BitrateConfig {
        mode: BitrateMode::NestVr {
            max_bitrate_bps: None,
            min_bitrate_bps: None,
            initial_bitrate_bps: 30 * MBPS,
            averaging_strategy: AveragingStrategy::ExponentialMovingAverage {
                ewma_weight_ppm: 250_000,
            },
            nest_vr_profile: NestVrProfile::Generic,
        },
        adapt_to_framerate: None,
    };
    manager.get_encoder_params(&weighted, 107);
    assert_eq!(manager.rtt_average(), 10 * MS);
    manager.report_network_statistics(18 * MS, 0, 0, 108);
    assert_eq!(manager.rtt_average(), 12 * MS);
}

#[test]
fn quantize_rounds_towards_the_previous_bitrate_going_up() {
    assert_eq!(quantize_from_previous(125, 7, 10, 100, 1000, 0), 120);
    assert_eq!(quantize_from_previous(130, 7, 10, 100, 1000, 0), 130);
    assert_eq!(quantize_from_previous(100, 7, 10, 100, 1000, 0), 100);
    assert_eq!(quantize_from_previous(109, 7, 10, 100, 1000, 0), 100);
    assert_eq!(quantize_from_previous(125, 7, 10, 100, 125, 0), 120);
}

#[test]
fn quantize_rounds_away_from_the_previous_bitrate_going_down() {
    assert_eq!(quantize_from_previous(95, 10, 7, 100, 1000, 0), 90);
    assert_eq!(quantize_from_previous(90, 10, 7, 100, 1000, 0), 90);
    assert_eq!(quantize_from_previous(89, 10, 7, 100, 1000, 0), 80);
    // No further than the last whole step over the lower bound.
    assert_eq!(quantize_from_previous(85, 10, 7, 100, 1000, 85), 90);
    assert_eq!(quantize_from_previous(1, 30, 7, 100, 1000, 1), 10);
}

#[test]
fn quantize_with_a_step_of_zero_keeps_the_previous_bitrate() {
    assert_eq!(quantize_from_previous(150, 10, 0, 100, 1000, 0), 100);
    assert_eq!(quantize_from_previous(50, 0, 10, 100, 1000, 0), 100);
}

#[test]
fn quantize_with_disordered_bounds_follows_the_same_rule() {
    // The previous bitrate lies over the upper bound: going up counts steps back to it.
    assert_eq!(quantize_from_previous(120, 10, 10, 100, 50, 120), 50);
    assert_eq!(quantize_from_previous(120, 10, 30, 100, 50, 120), 40);
    assert_eq!(quantize_from_previous(120, 10, 200, 100, 50, 120), 0);
    // The previous bitrate lies under the lower bound: going down counts steps up to it.
    assert_eq!(quantize_from_previous(50, 10, 10, 100, 1000, 125), 130);
    assert_eq!(quantize_from_previous(0, 10, 1, u64::MAX - 5, u64::MAX, u64::MAX), u64::MAX);
}

#[test]
fn nestvr_with_disordered_bounds_still_decides() {
    let config = BitrateConfig {
        mode: BitrateMode::NestVr {
            max_bitrate_bps: Some(50 * MBPS),
            min_bitrate_bps: Some(120 * MBPS),
            initial_bitrate_bps: 100 * MBPS,
            averaging_strategy: AveragingStrategy::SimpleWindowAverage {
                window_type: WindowType::BySamples { sliding_window_samp: 256 },
            },
            nest_vr_profile: NestVrProfile::Generic,
        },
        adapt_to_framerate: None,
    };
    assert!(!config.is_well_formed());
    let mut manager = manager(5 * MS, FRAME_11_1_MS, 500 * MBPS);
    let update = manager.encoder_params_for_draw(&config, 0, 100_000);
    assert!(update.params.updated);
    assert_eq!(update.params.bitrate_bps, 50 * MBPS);
}

#[test]
fn idle_and_constant_ticks_need_no_draw() {
    // A constant bitrate and an idle tick give the same result through both entries.
    let mut drawn =
        BitrateManager::new(Some(256), FPS_90, 30 * MBPS, None, None, IpAddress::V4(0), 0);
    let mut given =
        BitrateManager::new(Some(256), FPS_90, 30 * MBPS, None, None, IpAddress::V4(0), 0);
    for (config, now) in [
        (constant(50), 0u64),
        (constant(50), 5),
        (adaptive(1_200_000), 6),
        (adaptive(1_200_000), 7),
        (nestvr(10, 1000, NestVrProfile::Generic), 8),
        (nestvr(10, 1000, NestVrProfile::Generic), 9),
    ] {
        let deciding_nestvr = now == 8;
        let left = drawn.get_encoder_params(&config, now);
        if deciding_nestvr {
            let draw = left.heuristic.unwrap().random_prob;
            assert!(draw < 1_000_000);
            assert_eq!(left, given.encoder_params_for_draw(&config, now, draw));
        } else {
            assert_eq!(left, given.encoder_params_for_draw(&config, now, 999_999));
        }
    }
}

#[test]
fn a_network_without_frames_steps_down_at_any_threshold() {
    // The profile asks for one frame in a million; the frame rate of the server is half a
    // hertz. In whole micro-hertz the threshold is zero, and still the network lags.
    let config = BitrateConfig {
        mode: BitrateMode::NestVr {
            max_bitrate_bps: Some(200 * MBPS),
            min_bitrate_bps: Some(10 * MBPS),
            initial_bitrate_bps: 100 * MBPS,
            averaging_strategy: AveragingStrategy::SimpleWindowAverage {
                window_type: WindowType::BySamples { sliding_window_samp: 256 },
            },
            nest_vr_profile: NestVrProfile::Custom {
                update_interval_nestvr_ns: 1_000_000_000,
                step_size_bps: 10 * MBPS,
                r_step_size_bps: 10 * MBPS,
                capacity_scaling_factor_ppm: 900_000,
                rtt_explor_prob_ppm: 250_000,
                nfr_thresh_ppm: 1,
                rtt_thresh_scaling_factor_ppm: 2_000_000,
            },
        },
        adapt_to_framerate: None,
    };
    let mut manager =
        BitrateManager::new(Some(256), FPS_90, 100 * MBPS, None, None, IpAddress::V4(0), 0);
    manager.report_network_statistics(5 * MS, 500 * MBPS, 0, 0);
    manager.report_frame_present(&None, 2000 * MS);
    assert_eq!(manager.frame_interval_average(), 2000 * MS);
    assert_eq!(manager.frame_interarrival_average(), 0);
    let update = manager.encoder_params_for_draw(&config, 2000 * MS, 100_000);
    let heuristic = update.heuristic.unwrap();
    assert_eq!(heuristic.server_fps, 500_000);
    assert_eq!(heuristic.network_heur_fps, 0);
    assert_eq!(heuristic.threshold_fps, 0);
    assert_eq!(update.params.bitrate_bps, 90 * MBPS);
    // Every draw gives the same.
    for draw in [0u64, 250_000, 250_001, 999_999] {
        let mut other =
            BitrateManager::new(Some(256), FPS_90, 100 * MBPS, None, None, IpAddress::V4(0), 0);
        other.report_network_statistics(5 * MS, 500 * MBPS, 0, 0);
        other.report_frame_present(&None, 2000 * MS);
        assert_eq!(
            other.encoder_params_for_draw(&config, 2000 * MS, draw).params.bitrate_bps,
            90 * MBPS
        );
    }
}

#[test]
fn a_slow_network_is_judged_on_the_intervals() {
    // Frames arrive every 3 s and a nanosecond, the server presents every 3 s, and the
    // profile asks for all of them: the network lags, though both rates are the same number
    // of whole micro-hertz.
    let custom = |nfr_thresh_ppm| BitrateConfig {
        mode: BitrateMode::NestVr {
            max_bitrate_bps: Some(200 * MBPS),
            min_bitrate_bps: Some(10 * MBPS),
            initial_bitrate_bps: 100 * MBPS,
            averaging_strategy: AveragingStrategy::SimpleWindowAverage {
                window_type: WindowType::BySamples { sliding_window_samp: 256 },
            },
            nest_vr_profile: NestVrProfile::Custom {
                update_interval_nestvr_ns: 1_000_000_000,
                step_size_bps: 10 * MBPS,
                r_step_size_bps: 10 * MBPS,
                capacity_scaling_factor_ppm: 900_000,
                rtt_explor_prob_ppm: 250_000,
                nfr_thresh_ppm,
                rtt_thresh_scaling_factor_ppm: 2_000_000,
            },
        },
        adapt_to_framerate: None,
    };
    let fresh = |frame_interarrival| {
        let mut manager =
            BitrateManager::new(Some(256), FPS_90, 100 * MBPS, None, None, IpAddress::V4(0), 0);
        manager.report_network_statistics(5 * MS, 500 * MBPS, frame_interarrival, 0);
        manager.report_frame_present(&None, 3000 * MS);
        manager
    };
    let lagging = fresh(3000 * MS + 1).encoder_params_for_draw(&custom(1_000_000), 0, 100_000);
    assert_eq!(lagging.heuristic.unwrap().server_fps, 333_333);
    assert_eq!(lagging.heuristic.unwrap().network_heur_fps, 333_333);
    assert_eq!(lagging.heuristic.unwrap().threshold_fps, 333_333);
    assert_eq!(lagging.params.bitrate_bps, 90 * MBPS);
    let level = fresh(3000 * MS).encoder_params_for_draw(&custom(1_000_000), 0, 100_000);
    assert_eq!(level.params.bitrate_bps, 110 * MBPS);
    // A share of zero is met by any network.
    let undemanding = fresh(0).encoder_params_for_draw(&custom(0), 0, 100_000);
    assert_eq!(undemanding.params.bitrate_bps, 110 * MBPS);
}

#[test]
fn slow_decoder_counts_only_in_adaptive_mode_with_a_limiter() {
    let limiter = DecoderLatencyLimiter {
        max_decoder_latency_ms: 20,
        latency_overstep_frames: 2,
        latency_overstep_multiplier_ppm: 900_000,
    };
    let limited = BitrateMode::Adaptive {
        saturation_multiplier_ppm: 1_000_000,
        max_bitrate_mbps: None,
        min_bitrate_mbps: None,
        max_network_latency_ms: None,
        encoder_latency_limiter: None,
        decoder_latency_limiter: Some(limiter),
        history_size: 256,
    };
    assert!(report_counts_slow_decoder(&limited, 1, 20 * MS + 1));
    assert!(!report_counts_slow_decoder(&limited, 1, 20 * MS));
    assert!(!report_counts_slow_decoder(&limited, 0, 20 * MS + 1));
    assert!(!report_counts_slow_decoder(&adaptive(1_000_000).mode, 1, u64::MAX));
    assert!(!report_counts_slow_decoder(&BitrateMode::ConstantMbps(5), 1, u64::MAX));
    let huge = BitrateMode::Adaptive {
        saturation_multiplier_ppm: 1_000_000,
        max_bitrate_mbps: None,
        min_bitrate_mbps: None,
        max_network_latency_ms: None,
        encoder_latency_limiter: None,
        decoder_latency_limiter: Some(DecoderLatencyLimiter {
            max_decoder_latency_ms: u64::MAX,
            ..limiter
        }),
        history_size: 256,
    };
    assert!(!report_counts_slow_decoder(&huge, 1, u64::MAX));
}
