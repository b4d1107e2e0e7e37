use alvr_streaming::bitrate::{AdaptiveBitrateConfig, BitrateConfig, FrameTimeTarget};
use alvr_streaming::VideoBitrateManager;
use settings_schema::Switch;

const MS: u64 = 1_000_000;

fn adaptive(target: u64, threshold: u64) -> AdaptiveBitrateConfig {
    AdaptiveBitrateConfig {
        latency_use_frametime: Switch::Disabled,
        latency_target: target,
        latency_threshold: threshold,
        bitrate_down_rate: 2,
        bitrate_up_rate: 3,
        bitrate_maximum: 100,
    }
}

fn config(bitrate: u64, history: usize, adaptive: Switch<AdaptiveBitrateConfig>) -> BitrateConfig {
    BitrateConfig {
        encode_bitrate_mbs: bitrate,
        statistics_history_size: history,
        adaptive_bitrate: adaptive,
    }
}

/// A controller whose latency history holds `history` samples of `latency_ns`.
fn warmed(cfg: &BitrateConfig, latency_ns: u64) -> VideoBitrateManager {
    let mut m = VideoBitrateManager::new(cfg, 0);
    for i in 1..=cfg.statistics_history_size as u64 {
        m.report_network_latency(cfg, latency_ns, i * 10 * MS);
    }
    m
}

#[test]
fn new_controller_holds_seed_samples() {
    let cfg = config(30, 8, Switch::Disabled);
    let m = VideoBitrateManager::new(&cfg, 0);
    assert_eq!(m.current_bitrate_mbs(), 30);
    assert_eq!(m.average_latency_ns(), 0);
    assert_eq!(m.average_past_bits(), 0);
    assert_eq!(m.average_frame_interval_ns(), 0);
}

#[test]
fn packet_bytes_are_recorded_as_bits() {
    let cfg = config(30, 1, Switch::Disabled);
    let mut m = VideoBitrateManager::new(&cfg, 0);
    m.report_packet_bytes(&cfg, 100);
    assert_eq!(m.average_past_bits(), 800);
    let cfg = config(30, 2, Switch::Disabled);
    m.report_packet_bytes(&cfg, 300);
    assert_eq!(m.average_past_bits(), 1600);
}

#[test]
fn latency_above_cap_is_recorded_as_cap() {
    let cfg = config(30, 1, Switch::Disabled);
    let mut m = VideoBitrateManager::new(&cfg, 0);
    m.report_network_latency(&cfg, 600 * MS, 1);
    assert_eq!(m.average_latency_ns(), 500 * MS);
    m.report_network_latency(&cfg, 500 * MS + 1, 2);
    assert_eq!(m.average_latency_ns(), 500 * MS);
}

#[test]
fn zero_latency_is_recorded_as_cap() {
    let cfg = config(30, 1, Switch::Disabled);
    let mut m = VideoBitrateManager::new(&cfg, 0);
    m.report_network_latency(&cfg, 0, 1);
    assert_eq!(m.average_latency_ns(), 500 * MS);
}

#[test]
fn latency_within_cap_is_recorded_unchanged() {
    let cfg = config(30, 1, Switch::Disabled);
    let mut m = VideoBitrateManager::new(&cfg, 0);
    m.report_network_latency(&cfg, 300 * MS, 1);
    assert_eq!(m.average_latency_ns(), 300 * MS);
    m.report_network_latency(&cfg, 500 * MS, 2);
    assert_eq!(m.average_latency_ns(), 500 * MS);
}

#[test]
fn frame_intervals_converge_to_report_spacing() {
    let cfg = config(30, 4, Switch::Disabled);
    let mut m = VideoBitrateManager::new(&cfg, 0);
    m.report_network_latency(&cfg, 5 * MS, 33 * MS);
    assert_eq!(m.average_frame_interval_ns(), 33 * MS / 2);
    m.report_network_latency(&cfg, 5 * MS, 66 * MS);
    assert_eq!(m.average_frame_interval_ns(), 22 * MS);
    m.report_network_latency(&cfg, 5 * MS, 99 * MS);
    m.report_network_latency(&cfg, 5 * MS, 132 * MS);
    assert_eq!(m.average_frame_interval_ns(), 33 * MS);
    m.report_network_latency(&cfg, 5 * MS, 165 * MS);
    assert_eq!(m.average_frame_interval_ns(), 33 * MS);
}

#[test]
fn clock_going_back_gives_zero_interval() {
    let cfg = config(30, 1, Switch::Disabled);
    let mut m = VideoBitrateManager::new(&cfg, 50 * MS);
    m.report_network_latency(&cfg, 5 * MS, 40 * MS);
    assert_eq!(m.average_frame_interval_ns(), 0);
}

#[test]
fn disabled_mode_returns_static_bitrate() {
    let cfg = config(30, 4, Switch::Disabled);
    let mut m = warmed(&cfg, 19 * MS);
    m.report_packet_bytes(&cfg, 5000);
    assert_eq!(m.bitrate_mbs(&cfg, true), 30);
    assert_eq!(m.bitrate_mbs(&cfg, false), 30);
    let other = config(45, 4, Switch::Disabled);
    assert_eq!(m.bitrate_mbs(&other, true), 45);
}

#[test]
fn on_budget_latency_lowers_bitrate() {
    let cfg = config(10, 4, Switch::Enabled(adaptive(20000, 2000)));
    let mut m = warmed(&cfg, 19 * MS);
    assert_eq!(m.average_latency_ns(), 19 * MS);
    assert_eq!(m.bitrate_mbs(&cfg, false), 8);
    assert_eq!(m.current_bitrate_mbs(), 8);
}

#[test]
fn low_bitrate_is_rescued() {
    let cfg = config(6, 4, Switch::Enabled(adaptive(20000, 2000)));
    let mut m = warmed(&cfg, 19 * MS);
    assert_eq!(m.bitrate_mbs(&cfg, false), 11);
}

#[test]
fn rescue_boundary_is_inclusive() {
    let cfg = config(7, 4, Switch::Enabled(adaptive(20000, 2000)));
    let mut m = warmed(&cfg, 22 * MS);
    assert_eq!(m.bitrate_mbs(&cfg, false), 12);
}

#[test]
fn saturation_snaps_to_maximum() {
    // A threshold above the target makes the lower bound wrap around, so a
    // latency over budget reaches the raising branch.
    let cfg = config(99, 4, Switch::Enabled(adaptive(1000, 2000)));
    let mut m = warmed(&cfg, 19 * MS);
    assert_eq!(m.bitrate_mbs(&cfg, false), 100);
    assert_eq!(m.bitrate_mbs(&cfg, false), 100);
}

#[test]
fn headroom_raises_bitrate_by_up_rate() {
    let cfg = config(50, 4, Switch::Enabled(adaptive(1000, 2000)));
    let mut m = warmed(&cfg, 19 * MS);
    assert_eq!(m.bitrate_mbs(&cfg, true), 53);
    assert_eq!(m.bitrate_mbs(&cfg, false), 53);
}

#[test]
fn over_budget_latency_leaves_bitrate() {
    let cfg = config(50, 4, Switch::Enabled(adaptive(20000, 2000)));
    let mut m = warmed(&cfg, 30 * MS);
    assert_eq!(m.bitrate_mbs(&cfg, true), 50);
    assert_eq!(m.bitrate_mbs(&cfg, true), 50);
}

#[test]
fn no_latency_report_leaves_bitrate() {
    let cfg = config(50, 4, Switch::Enabled(adaptive(20000, 2000)));
    let mut m = VideoBitrateManager::new(&cfg, 0);
    assert_eq!(m.bitrate_mbs(&cfg, true), 50);
    assert_eq!(m.bitrate_mbs(&cfg, true), 50);
}

#[test]
fn repeated_query_on_budget_keeps_stepping() {
    let cfg = config(10, 4, Switch::Enabled(adaptive(20000, 2000)));
    let mut m = warmed(&cfg, 19 * MS);
    assert_eq!(m.bitrate_mbs(&cfg, false), 8);
    assert_eq!(m.bitrate_mbs(&cfg, false), 6);
    assert_eq!(m.average_latency_ns(), 19 * MS);
}

#[test]
fn frame_time_target_follows_interval() {
    let mut a = adaptive(0, 2000);
    a.latency_use_frametime = Switch::Enabled(FrameTimeTarget {
        latency_target_offset: 5000,
        latency_target_maximum: 100000,
    });
    let cfg = config(30, 4, Switch::Enabled(a));
    // Reports 10 ms apart: the target is 15000 us, the budget 17000 us.
    let mut m = warmed(&cfg, 16 * MS);
    assert_eq!(m.average_frame_interval_ns(), 10 * MS);
    assert_eq!(m.bitrate_mbs(&cfg, false), 28);
    let mut m = warmed(&cfg, 18 * MS);
    assert_eq!(m.bitrate_mbs(&cfg, false), 30);
}

#[test]
fn frame_time_target_is_capped() {
    let mut a = adaptive(0, 2000);
    a.latency_use_frametime = Switch::Enabled(FrameTimeTarget {
        latency_target_offset: 5000,
        latency_target_maximum: 12000,
    });
    let cfg = config(30, 4, Switch::Enabled(a));
    let mut m = warmed(&cfg, 15 * MS);
    assert_eq!(m.bitrate_mbs(&cfg, false), 30);
    let mut m = warmed(&cfg, 14 * MS);
    assert_eq!(m.bitrate_mbs(&cfg, false), 28);
}

#[test]
fn frame_time_target_with_negative_offset() {
    let mut a = adaptive(0, 2000);
    a.latency_use_frametime = Switch::Enabled(FrameTimeTarget {
        latency_target_offset: -5000,
        latency_target_maximum: 100000,
    });
    let cfg = config(30, 4, Switch::Enabled(a));
    // Target 5000 us, budget 7000 us.
    let mut m = warmed(&cfg, 7 * MS);
    assert_eq!(m.bitrate_mbs(&cfg, false), 28);
    let mut m = warmed(&cfg, 8 * MS);
    assert_eq!(m.bitrate_mbs(&cfg, false), 30);
}
