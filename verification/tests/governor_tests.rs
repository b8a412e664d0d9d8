use gpu_governor::config::{FrequencyThresholds, Intervals, LoadTarget, Timing};
use gpu_governor::governor::{
    clear_if_stuck, decide_apply, gui_busy, process_ack, update_performance_mode, update_target,
    GovCommand, GovernorState, GovernorStats, GovernorTimers, PerformanceMode, SetterAck,
    STUCK_ACK_TIMEOUT_US,
};

fn default_state() -> GovernorState {
    GovernorState::new(350, 0)
}

#[test]
fn new_state_is_seeded_with_initial_frequency() {
    let s = GovernorState::new(700, 42);
    assert_eq!(s.target_freq_umhz, 700_000_000);
    assert_eq!(s.applied_freq, 700);
    assert!(s.pending_freq.is_none());
    assert_eq!(s.last_ack_us, 42);
    assert!(matches!(s.performance_mode, PerformanceMode::Normal));
}

#[test]
fn stats_record_apply_accumulates_latency() {
    let mut stats = GovernorStats::default();
    stats.record_apply(10, 5);
    stats.record_apply(20, 9);
    assert_eq!(stats.total_applies, 2);
    assert_eq!(stats.total_latency_us, 30);
    assert_eq!(stats.max_latency_us, 20);
    assert_eq!(stats.start_time_us, Some(5));
    assert_eq!(stats.avg_latency_us(), 15);
}

#[test]
fn stats_avg_latency_is_zero_before_first_apply() {
    let stats = GovernorStats::default();
    assert_eq!(stats.avg_latency_us(), 0);
}

#[test]
fn stats_record_failure_and_burst_count_up() {
    let mut stats = GovernorStats::default();
    stats.record_failure();
    stats.record_burst();
    stats.record_burst();
    assert_eq!(stats.failed_applies, 1);
    assert_eq!(stats.burst_activations, 2);
    assert_eq!(stats.total_applies, 0);
}

#[test]
fn applied_ack_confirms_frequency_and_clears_pending() {
    let mut state = default_state();
    state.pending_freq = Some(500);
    let mut stats = GovernorStats::default();
    let ack = SetterAck::Applied { freq: 500, voltage: 800, latency_us: 120 };
    process_ack(&mut state, &mut stats, ack, 1_000);
    assert_eq!(state.applied_freq, 500);
    assert!(state.pending_freq.is_none());
    assert_eq!(state.last_ack_us, 1_000);
    assert_eq!(stats.total_applies, 1);
    assert_eq!(stats.total_latency_us, 120);
}

#[test]
fn failed_ack_clears_pending_and_counts_failure() {
    let mut state = default_state();
    state.pending_freq = Some(500);
    let mut stats = GovernorStats::default();
    let ack = SetterAck::Failed { freq: 500, error: String::from("write failed") };
    process_ack(&mut state, &mut stats, ack, 1_000);
    assert_eq!(state.applied_freq, 350);
    assert!(state.pending_freq.is_none());
    assert_eq!(state.last_ack_us, 0);
    assert_eq!(stats.failed_applies, 1);
    assert_eq!(stats.total_applies, 0);
}

#[test]
fn stuck_actuator_clears_pending_after_timeout() {
    // pending set, last ack artificially aged past the 100 ms threshold
    let mut state = default_state();
    state.pending_freq = Some(500);
    state.last_ack_us = 0;
    let stuck = clear_if_stuck(&mut state, STUCK_ACK_TIMEOUT_US + 1);
    assert!(stuck);
    assert!(state.pending_freq.is_none());
}

#[test]
fn pending_within_timeout_is_not_stuck() {
    let mut state = default_state();
    state.pending_freq = Some(500);
    state.last_ack_us = 0;
    let stuck = clear_if_stuck(&mut state, STUCK_ACK_TIMEOUT_US);
    assert!(!stuck);
    assert_eq!(state.pending_freq, Some(500));
}

#[test]
fn governor_recovers_and_issues_after_stuck_clear() {
    let mut state = default_state();
    state.pending_freq = Some(500);
    state.last_ack_us = 0;
    let now = STUCK_ACK_TIMEOUT_US + 1;
    assert!(clear_if_stuck(&mut state, now));
    state.target_freq_umhz = 1_000_000_000;
    let mut timers = GovernorTimers::new(0);
    let cmd = decide_apply(
        &mut state,
        &mut timers,
        &Intervals::default(),
        &FrequencyThresholds::default(),
        false,
        now,
    );
    assert!(matches!(cmd, Some(GovCommand::SetFrequency(1000))));
    assert_eq!(state.pending_freq, Some(1000));
}

#[test]
fn performance_mode_transitions_report_edges() {
    let mut state = default_state();
    assert!(update_performance_mode(&mut state, true));
    assert!(matches!(state.performance_mode, PerformanceMode::MaxPerformance));
    assert!(!update_performance_mode(&mut state, true));
    assert!(update_performance_mode(&mut state, false));
    assert!(matches!(state.performance_mode, PerformanceMode::Normal));
}

fn run_update_target(
    state: &mut GovernorState,
    burst: bool,
    up: (usize, usize),
    down: (usize, usize),
) {
    update_target(
        state,
        &Timing::default(),
        &LoadTarget::default(),
        burst,
        up.0,
        up.1,
        down.0,
        down.1,
        350,
        2000,
    );
}

#[test]
fn burst_tier_ramps_fastest() {
    // 800 MHz/ms over a 2 ms sample interval = +1600 MHz
    let mut state = default_state();
    run_update_target(&mut state, true, (0, 0), (0, 0));
    assert_eq!(state.target_freq_umhz, 1_950_000_000);
}

#[test]
fn upper_tier_ramps_up() {
    // 60/64 = 0.9375 > 0.90: +50 MHz/ms * 2 ms = +100 MHz
    let mut state = default_state();
    run_update_target(&mut state, false, (60, 64), (60, 64));
    assert_eq!(state.target_freq_umhz, 450_000_000);
}

#[test]
fn medium_tier_ramps_slower() {
    // 50/64 = 0.78125 > 0.75: +25 MHz/ms * 2 ms = +50 MHz
    let mut state = default_state();
    run_update_target(&mut state, false, (50, 64), (50, 64));
    assert_eq!(state.target_freq_umhz, 400_000_000);
}

#[test]
fn slow_tier_ramps_gently() {
    // 40/64 = 0.625 > 0.60: +10 MHz/ms * 2 ms = +20 MHz
    let mut state = default_state();
    run_update_target(&mut state, false, (40, 64), (40, 64));
    assert_eq!(state.target_freq_umhz, 370_000_000);
}

#[test]
fn crawl_tier_creeps_up() {
    // 33/64 = 0.5156 > 0.50: +2 MHz/ms * 2 ms = +4 MHz
    let mut state = default_state();
    run_update_target(&mut state, false, (33, 64), (33, 64));
    assert_eq!(state.target_freq_umhz, 354_000_000);
}

#[test]
fn down_tier_subtracts_scaled_rate() {
    // 100/256 = 0.39 < 0.50: -0.24 MHz/ms * 2 ms = -0.48 MHz
    let mut state = default_state();
    state.target_freq_umhz = 1_000_000_000;
    run_update_target(&mut state, false, (100, 256), (100, 256));
    assert_eq!(state.target_freq_umhz, 999_520_000);
}

#[test]
fn no_tier_leaves_target_unchanged() {
    // up fraction exactly at the crawl threshold, down at the lower one
    let mut state = default_state();
    state.target_freq_umhz = 1_000_000_000;
    run_update_target(&mut state, false, (32, 64), (128, 256));
    assert_eq!(state.target_freq_umhz, 1_000_000_000);
}

#[test]
fn target_is_clamped_to_safe_range() {
    let mut state = default_state();
    state.target_freq_umhz = 350_100_000;
    run_update_target(&mut state, false, (0, 256), (0, 256));
    assert_eq!(state.target_freq_umhz, 350_000_000);
    let mut high = default_state();
    high.target_freq_umhz = 1_999_000_000;
    run_update_target(&mut high, true, (0, 0), (0, 0));
    assert_eq!(high.target_freq_umhz, 2_000_000_000);
}

#[test]
fn max_performance_snaps_to_table_maximum() {
    let mut state = default_state();
    state.performance_mode = PerformanceMode::MaxPerformance;
    run_update_target(&mut state, false, (0, 256), (0, 256));
    assert_eq!(state.target_freq_umhz, 2_000_000_000);
}

#[test]
fn no_command_while_one_is_pending() {
    let mut state = default_state();
    state.pending_freq = Some(700);
    state.target_freq_umhz = 1_000_000_000;
    let mut timers = GovernorTimers::new(0);
    let cmd = decide_apply(
        &mut state,
        &mut timers,
        &Intervals::default(),
        &FrequencyThresholds::default(),
        true,
        1_000_000,
    );
    assert!(cmd.is_none());
    assert_eq!(state.pending_freq, Some(700));
}

#[test]
fn burst_bypasses_both_timers() {
    let mut state = default_state();
    state.target_freq_umhz = 360_000_000;
    let mut timers = GovernorTimers::new(0);
    // no timer has elapsed at now == 0, but burst still triggers
    let cmd = decide_apply(
        &mut state,
        &mut timers,
        &Intervals::default(),
        &FrequencyThresholds::default(),
        true,
        0,
    );
    assert!(matches!(cmd, Some(GovCommand::SetFrequency(360))));
    assert_eq!(state.pending_freq, Some(360));
}

#[test]
fn small_difference_waits_for_finetune_timer() {
    let mut state = default_state();
    // target 360 MHz vs applied 350 MHz: diff 10 meets only the finetune threshold
    state.target_freq_umhz = 360_000_000;
    let mut timers = GovernorTimers::new(0);
    let intervals = Intervals::default();
    let thresholds = FrequencyThresholds::default();
    // adjust timer elapsed (8 ms) but finetune (50 ms) not: no command
    let cmd = decide_apply(&mut state, &mut timers, &intervals, &thresholds, false, 10_000);
    assert!(cmd.is_none());
    // after 50 ms the finetune trigger fires and resets its timer
    let cmd = decide_apply(&mut state, &mut timers, &intervals, &thresholds, false, 50_000);
    assert!(matches!(cmd, Some(GovCommand::SetFrequency(360))));
    assert_eq!(timers.last_finetune_us, 50_000);
    assert_eq!(timers.last_adjustment_us, 0);
}

#[test]
fn large_difference_uses_adjust_timer() {
    let mut state = default_state();
    // target 500 MHz vs applied 350 MHz: diff 150 >= adjust threshold 100
    state.target_freq_umhz = 500_000_000;
    let mut timers = GovernorTimers::new(0);
    let cmd = decide_apply(
        &mut state,
        &mut timers,
        &Intervals::default(),
        &FrequencyThresholds::default(),
        false,
        8_000,
    );
    assert!(matches!(cmd, Some(GovCommand::SetFrequency(500))));
    // both thresholds were met, so both timers reset
    assert_eq!(timers.last_adjustment_us, 8_000);
    assert_eq!(timers.last_finetune_us, 8_000);
}

#[test]
fn gui_busy_reads_bit_31() {
    assert!(gui_busy(0x8000_0000));
    assert!(gui_busy(0xFFFF_FFFF));
    assert!(!gui_busy(0x7FFF_FFFF));
    assert!(!gui_busy(0));
}
