use ghost_hand_client::adaptive_bitrate::{
    AdaptiveBitrateConfig, AdaptiveBitrateController, AdaptiveBitrateStats,
};
use std::time::Duration;

#[test]
fn test_controller_creation() {
    let controller = AdaptiveBitrateController::new();
    assert!(controller.get_quality() > 0);
    assert!(controller.get_bitrate() > 0);
}

#[test]
fn test_rtt_update() {
    let mut controller = AdaptiveBitrateController::new();
    let initial_quality = controller.get_quality();

    for _ in 0..5 {
        controller.update_rtt(Duration::from_millis(200));
    }

    assert!(controller.get_quality() <= initial_quality);
}

#[test]
fn test_packet_loss_update() {
    let config = AdaptiveBitrateConfig { adjustment_interval_ms: 0, ..Default::default() };

    let mut controller = AdaptiveBitrateController::with_config(config);
    let initial_quality = controller.get_quality();

    // A loss of 10 %, in parts per million.
    for _ in 0..5 {
        controller.update_packet_loss(100_000);
    }

    assert!(
        controller.get_quality() < initial_quality,
        "Expected quality < {} but got {}",
        initial_quality,
        controller.get_quality()
    );
}

#[test]
fn test_quality_improvement() {
    // Bounds of 5 and 95 make the controller start at quality 50.
    let config = AdaptiveBitrateConfig { min_quality: 5, ..Default::default() };
    let mut controller = AdaptiveBitrateController::with_config(config);
    assert_eq!(controller.get_quality(), 50);

    for _ in 0..5 {
        controller.update_rtt(Duration::from_millis(20));
        controller.update_packet_loss(0);
    }

    assert!(controller.get_quality() >= 50);
}

#[test]
fn test_quality_bounds() {
    let config = AdaptiveBitrateConfig { min_quality: 40, max_quality: 95, ..Default::default() };

    let mut controller = AdaptiveBitrateController::with_config(config);

    for _ in 0..20 {
        controller.update_rtt(Duration::from_millis(500));
        controller.update_packet_loss(500_000);
    }

    assert!(controller.get_quality() >= 40);

    for _ in 0..20 {
        controller.update_rtt(Duration::from_millis(10));
        controller.update_packet_loss(0);
    }

    assert!(controller.get_quality() <= 95);
}

#[test]
fn test_stats() {
    let mut controller = AdaptiveBitrateController::new();

    controller.update_rtt(Duration::from_millis(200));
    controller.update_rtt(Duration::from_millis(200));

    let stats = controller.get_stats();
    assert!(stats.average_rtt_ms > 0);
}

#[test]
fn test_reset() {
    let mut controller = AdaptiveBitrateController::new();

    controller.update_rtt(Duration::from_millis(300));

    controller.reset();

    assert!(controller.get_quality() > 30);
    assert_eq!(controller.get_stats().total_adjustments, 0);
}

fn quick_config() -> AdaptiveBitrateConfig {
    AdaptiveBitrateConfig { adjustment_interval_ms: 0, ..Default::default() }
}

#[test]
fn default_configuration_and_starting_point() {
    let config = AdaptiveBitrateConfig::default();
    assert!(config.is_valid());
    assert_eq!(config.min_bitrate, 500);
    assert_eq!(config.max_bitrate, 8000);
    assert_eq!(config.high_packet_loss_threshold_ppm, 50_000);
    assert_eq!(config.degradation_factor_permille, 850);
    assert_eq!(config.improvement_factor_permille, 1050);
    let controller = AdaptiveBitrateController::with_config_at(config, 0);
    assert_eq!(controller.get_quality(), 67);
    assert_eq!(controller.get_bitrate(), 4250);
    assert_eq!(*controller.get_stats(), AdaptiveBitrateStats::default());
}

#[test]
fn high_rtt_reduces_by_the_degradation_factor() {
    let mut controller = AdaptiveBitrateController::with_config_at(quick_config(), 0);
    controller.update_rtt_at(200, 1_000);
    // 67 * 0.85 = 56.95 and 4250 * 0.85 = 3612.5, both rounded down.
    assert_eq!(controller.get_quality(), 56);
    assert_eq!(controller.get_bitrate(), 3612);
    let stats = controller.get_stats();
    assert_eq!(stats.average_rtt_ms, 200);
    assert_eq!(stats.total_adjustments, 1);
    assert_eq!(stats.quality_reductions, 1);
    assert_eq!(stats.quality_increases, 0);

    let mut quality = controller.get_quality();
    for step in 0..5u64 {
        controller.update_rtt_at(200, 2_000 + step);
        assert!(controller.get_quality() <= quality);
        quality = controller.get_quality();
    }
    // 56 -> 47 -> 40 (39.95 kept at the minimum) and no lower; the bitrate
    // goes 3612 -> 3070 -> 2609 -> 2217 -> 1884 -> 1601.
    assert_eq!(controller.get_quality(), 40);
    assert_eq!(controller.get_bitrate(), 1601);
}

#[test]
fn good_conditions_improve_up_to_the_maximum() {
    let mut controller = AdaptiveBitrateController::with_config_at(quick_config(), 0);
    controller.update_rtt_at(20, 10);
    // 67 * 1.05 = 70.35 and 4250 * 1.05 = 4462.5, both rounded down.
    assert_eq!(controller.get_quality(), 70);
    assert_eq!(controller.get_bitrate(), 4462);
    assert_eq!(controller.get_stats().quality_increases, 1);
    for step in 0..40u64 {
        controller.update_rtt_at(20, 20 + step);
        controller.update_packet_loss_at(0, 20 + step);
    }
    assert_eq!(controller.get_quality(), 95);
    assert_eq!(controller.get_bitrate(), 8000);
    // At the maximum nothing changes any more, and nothing is counted.
    let adjustments = controller.get_stats().total_adjustments;
    controller.update_packet_loss_at(0, 100);
    assert_eq!(controller.get_stats().total_adjustments, adjustments);
}

#[test]
fn a_sample_adjusts_once_the_interval_has_passed_since_the_measurement_before() {
    let mut controller =
        AdaptiveBitrateController::with_config_at(AdaptiveBitrateConfig::default(), 0);
    // Less than two seconds after the start nothing is adjusted.
    controller.update_rtt_at(400, 1_999);
    assert_eq!(controller.get_quality(), 67);
    assert_eq!(controller.get_bitrate(), 4250);
    assert_eq!(controller.get_stats().total_adjustments, 0);
    assert_eq!(controller.get_stats().average_rtt_ms, 400);
    // Two seconds after that measurement the high average takes effect:
    // 67 * 0.85 = 56.95 and 4250 * 0.85 = 3612.5, both rounded down.
    controller.update_rtt_at(400, 3_999);
    assert_eq!(controller.get_quality(), 56);
    assert_eq!(controller.get_bitrate(), 3612);
    assert_eq!(controller.get_stats().total_adjustments, 1);
    assert_eq!(controller.get_stats().quality_reductions, 1);
    assert_eq!(controller.get_stats().quality_increases, 0);
}

#[test]
fn adjustments_are_rate_limited_against_each_other() {
    let mut controller =
        AdaptiveBitrateController::with_config_at(AdaptiveBitrateConfig::default(), 0);
    controller.update_packet_loss_at(500_000, 2_000);
    assert_eq!(controller.get_quality(), 56);
    assert_eq!(controller.get_stats().total_adjustments, 1);
    // High loss one millisecond, and again two, after the adjustment: only
    // the window and its average change.
    controller.update_packet_loss_at(500_000, 2_001);
    controller.update_rtt_at(900, 2_002);
    assert_eq!(controller.get_quality(), 56);
    assert_eq!(controller.get_bitrate(), 3612);
    assert_eq!(controller.get_stats().total_adjustments, 1);
    assert_eq!(controller.get_stats().quality_reductions, 1);
    assert_eq!(controller.get_stats().average_packet_loss_ppm, 500_000);
    assert_eq!(controller.get_stats().average_rtt_ms, 900);
    // Each sample renews the time: 1 999 ms after the last one is too soon.
    controller.update_packet_loss_at(500_000, 4_001);
    assert_eq!(controller.get_stats().total_adjustments, 1);
    // Two seconds after the last one the next reduction follows:
    // 56 * 0.85 = 47.6 and 3612 * 0.85 = 3070.2, both rounded down.
    controller.update_packet_loss_at(500_000, 6_001);
    assert_eq!(controller.get_quality(), 47);
    assert_eq!(controller.get_bitrate(), 3070);
    assert_eq!(controller.get_stats().total_adjustments, 2);
    assert_eq!(controller.get_stats().quality_reductions, 2);
}

#[test]
fn windows_keep_the_ten_newest_samples() {
    let mut controller =
        AdaptiveBitrateController::with_config_at(AdaptiveBitrateConfig::default(), 0);
    for sample in 1..=10u64 {
        controller.update_rtt_at(sample * 10, sample);
    }
    // The average of 10, 20, ..., 100.
    assert_eq!(controller.get_stats().average_rtt_ms, 55);
    controller.update_rtt_at(210, 11);
    // 10 has left: the average of 20, ..., 100, 210 is 75.
    assert_eq!(controller.get_stats().average_rtt_ms, 75);

    controller.update_packet_loss_at(2_000_000, 11);
    // A loss above 100 % counts as 100 %.
    assert_eq!(controller.get_stats().average_packet_loss_ppm, 1_000_000);
    controller.update_packet_loss_at(0, 11);
    assert_eq!(controller.get_stats().average_packet_loss_ppm, 500_000);
}

#[test]
fn extreme_samples_never_leave_the_bounds() {
    let config = quick_config();
    let mut controller = AdaptiveBitrateController::with_config_at(config, 0);
    let samples: [(u64, u32); 6] = [
        (u64::MAX, u32::MAX),
        (0, 0),
        (1, 1_000_000),
        (u64::MAX, 0),
        (149, 49_999),
        (151, 50_001),
    ];
    for round in 0..200u64 {
        let (rtt, loss) = samples[(round % 6) as usize];
        controller.update_rtt_at(rtt, round);
        controller.update_packet_loss_at(loss, round);
        assert!(controller.get_quality() >= config.min_quality);
        assert!(controller.get_quality() <= config.max_quality);
        assert!(controller.get_bitrate() >= config.min_bitrate);
        assert!(controller.get_bitrate() <= config.max_bitrate);
    }
}

#[test]
fn reset_returns_to_the_starting_point() {
    let mut controller = AdaptiveBitrateController::with_config_at(quick_config(), 0);
    controller.update_rtt_at(500, 1);
    controller.update_packet_loss_at(300_000, 2);
    assert!(controller.get_quality() < 67);
    controller.reset();
    assert_eq!(controller.get_quality(), 67);
    assert_eq!(controller.get_bitrate(), 4250);
    assert_eq!(*controller.get_stats(), AdaptiveBitrateStats::default());
    // The windows are empty again: one calm sample decides alone.
    controller.update_packet_loss_at(0, 3);
    assert_eq!(controller.get_stats().average_packet_loss_ppm, 0);
}
