//! Governor core: the per-cycle decision pipeline that turns activity
//! samples into frequency commands.
//!
//! The governor owns a [`GovernorState`] and runs an unbounded cycle:
//! drain acknowledgements, self-heal from a stuck actuator, honour the
//! performance-mode override, move the continuous target frequency by
//! tiered hysteresis, clamp it to the safe range, and decide whether to
//! issue a `SetFrequency` command — never while another command is
//! pending.
//!
//! The continuous target accumulates fractional ramp in micro-MHz
//! (fixed point, 1 MHz = 1_000_000 micro-MHz); ramp rates in milli-MHz
//! per millisecond multiplied by the sample interval in microseconds
//! give the per-cycle step in micro-MHz exactly. Times are microsecond
//! timestamps from a monotonic clock supplied by the caller.

use vstd::prelude::*;
use crate::config::{Timing, Intervals, LoadTarget, FrequencyThresholds};

verus! {

/// Micro-MHz in one MHz (fixed-point scale of the target frequency).
pub const UMHZ_PER_MHZ: u64 = 1_000_000;

/// A pending command older than this is treated as stuck and cleared
/// locally (microseconds).
pub const STUCK_ACK_TIMEOUT_US: u64 = 100_000;

/// Hardware register polled for the activity bit.
pub const GRBM_STATUS_REG: u32 = 0x2004;

/// Was the GPU busy since the last sample? Bit 31 of the status
/// register read from the hardware.
pub fn gui_busy(reg: u32) -> (busy: bool)
    ensures
        busy == (reg & 0x8000_0000 != 0),
{
    (reg & 0x8000_0000) > 0
}

/// Normal dynamic scaling, or an external override locking the target
/// to the table maximum.
#[derive(Clone, Copy, PartialEq, Eq, Structural, Debug)]
pub enum PerformanceMode {
    Normal,
    MaxPerformance,
}

/// Command sent from the governor to the actuator.
#[derive(Clone, Copy, PartialEq, Eq, Structural, Debug)]
pub enum GovCommand {
    SetFrequency(u16),
    Shutdown,
}

/// Acknowledgement sent from the actuator back to the governor.
#[derive(Clone, PartialEq, Eq, Debug)]
pub enum SetterAck {
    Applied { freq: u16, voltage: u16, latency_us: u64 },
    Failed { freq: u16, error: String },
}

/// Mutable state of the governor loop.
#[derive(Clone, Copy, PartialEq, Eq, Structural, Debug)]
pub struct GovernorState {
    /// Continuous target frequency, micro-MHz.
    pub target_freq_umhz: u64,
    /// Last frequency the actuator confirmed, MHz.
    pub applied_freq: u16,
    /// Frequency of the command in flight, if one is outstanding.
    pub pending_freq: Option<u16>,
    /// Timestamp of the last actuator response, microseconds.
    pub last_ack_us: u64,
    pub performance_mode: PerformanceMode,
}

impl GovernorState {
    /// Fresh state seeded with the device's currently observed
    /// frequency.
    pub fn new(initial_freq: u16, now_us: u64) -> (s: GovernorState)
        ensures
            s.target_freq_umhz == initial_freq as u64 * UMHZ_PER_MHZ,
            s.applied_freq == initial_freq,
            s.pending_freq is None,
            s.last_ack_us == now_us,
            s.performance_mode == PerformanceMode::Normal,
    {
        GovernorState {
            target_freq_umhz: (initial_freq as u64) * UMHZ_PER_MHZ,
            applied_freq: initial_freq,
            pending_freq: None,
            last_ack_us: now_us,
            performance_mode: PerformanceMode::Normal,
        }
    }
}

/// Monotonically accumulating observability counters; never reset
/// during a run.
#[derive(Clone, Copy, PartialEq, Eq, Structural, Debug)]
pub struct GovernorStats {
    pub total_applies: u64,
    pub failed_applies: u64,
    pub burst_activations: u64,
    pub total_latency_us: u64,
    pub max_latency_us: u64,
    /// Timestamp of the first successful apply, microseconds.
    pub start_time_us: Option<u64>,
}

impl GovernorStats {
    pub open spec fn spec_default() -> GovernorStats {
        GovernorStats {
            total_applies: 0u64,
            failed_applies: 0u64,
            burst_activations: 0u64,
            total_latency_us: 0u64,
            max_latency_us: 0u64,
            start_time_us: None,
        }
    }

    /// Record one confirmed apply and its latency.
    pub fn record_apply(&mut self, latency_us: u64, now_us: u64)
        requires
            old(self).total_applies < u64::MAX,
            old(self).total_latency_us + latency_us <= u64::MAX,
        ensures
            final(self).total_applies == old(self).total_applies + 1,
            final(self).total_latency_us == old(self).total_latency_us + latency_us,
            final(self).max_latency_us == if latency_us > old(self).max_latency_us {
                latency_us
            } else {
                old(self).max_latency_us
            },
            final(self).start_time_us == if old(self).start_time_us is None {
                Some(now_us)
            } else {
                old(self).start_time_us
            },
            final(self).failed_applies == old(self).failed_applies,
            final(self).burst_activations == old(self).burst_activations,
    {
        if self.start_time_us.is_none() {
            self.start_time_us = Some(now_us);
        }
        self.total_applies = self.total_applies + 1;
        self.total_latency_us = self.total_latency_us + latency_us;
        if latency_us > self.max_latency_us {
            self.max_latency_us = latency_us;
        }
    }

    /// Record one failed apply.
    pub fn record_failure(&mut self)
        requires
            old(self).failed_applies < u64::MAX,
        ensures
            *final(self) == (GovernorStats {
                failed_applies: (old(self).failed_applies + 1) as u64,
                ..*old(self)
            }),
    {
        self.failed_applies = self.failed_applies + 1;
    }

    /// Record one burst activation.
    pub fn record_burst(&mut self)
        requires
            old(self).burst_activations < u64::MAX,
        ensures
            *final(self) == (GovernorStats {
                burst_activations: (old(self).burst_activations + 1) as u64,
                ..*old(self)
            }),
    {
        self.burst_activations = self.burst_activations + 1;
    }

    /// Mean apply latency, 0 before the first apply.
    pub fn avg_latency_us(&self) -> (r: u64)
        ensures
            r == if self.total_applies > 0 {
                self.total_latency_us as int / self.total_applies as int
            } else {
                0int
            },
    {
        if self.total_applies > 0 {
            self.total_latency_us / self.total_applies
        } else {
            0
        }
    }
}

impl Default for GovernorStats {
    fn default() -> (d: GovernorStats)
        ensures
            d == GovernorStats::spec_default(),
    {
        GovernorStats {
            total_applies: 0,
            failed_applies: 0,
            burst_activations: 0,
            total_latency_us: 0,
            max_latency_us: 0,
            start_time_us: None,
        }
    }
}

/// When the periodic apply triggers and the performance-mode poll last
/// fired (microsecond timestamps).
#[derive(Clone, Copy, PartialEq, Eq, Structural, Debug)]
pub struct GovernorTimers {
    pub last_adjustment_us: u64,
    pub last_finetune_us: u64,
    pub last_perf_check_us: u64,
}

impl GovernorTimers {
    pub fn new(now_us: u64) -> (t: GovernorTimers)
        ensures
            t.last_adjustment_us == now_us,
            t.last_finetune_us == now_us,
            t.last_perf_check_us == now_us,
    {
        GovernorTimers {
            last_adjustment_us: now_us,
            last_finetune_us: now_us,
            last_perf_check_us: now_us,
        }
    }
}

/// Has at least `interval_us` elapsed since `last_us`?
pub fn interval_elapsed(last_us: u64, now_us: u64, interval_us: u64) -> (r: bool)
    requires
        last_us <= now_us,
    ensures
        r == (now_us - last_us >= interval_us),
{
    now_us - last_us >= interval_us
}

/// Apply one acknowledgement from the actuator: a confirmed apply
/// updates the applied frequency, clears the pending command,
/// refreshes the liveness timestamp and records the latency; a failure
/// clears the pending command and counts the failure — no retry is
/// scheduled.
pub fn process_ack(
    state: &mut GovernorState,
    stats: &mut GovernorStats,
    ack: SetterAck,
    now_us: u64,
)
    requires
        ack matches SetterAck::Applied { latency_us, .. } ==> old(stats).total_applies
            < u64::MAX && old(stats).total_latency_us + latency_us <= u64::MAX,
        ack matches SetterAck::Failed { .. } ==> old(stats).failed_applies < u64::MAX,
    ensures
        ack matches SetterAck::Applied { freq, voltage, latency_us } ==> {
            &&& final(state).applied_freq == freq
            &&& final(state).pending_freq is None
            &&& final(state).last_ack_us == now_us
            &&& final(state).target_freq_umhz == old(state).target_freq_umhz
            &&& final(state).performance_mode == old(state).performance_mode
            &&& final(stats).total_applies == old(stats).total_applies + 1
            &&& final(stats).total_latency_us == old(stats).total_latency_us + latency_us
            &&& final(stats).max_latency_us == if latency_us > old(stats).max_latency_us {
                latency_us
            } else {
                old(stats).max_latency_us
            }
            &&& final(stats).start_time_us == if old(stats).start_time_us is None {
                Some(now_us)
            } else {
                old(stats).start_time_us
            }
            &&& final(stats).failed_applies == old(stats).failed_applies
            &&& final(stats).burst_activations == old(stats).burst_activations
        },
        ack matches SetterAck::Failed { .. } ==> {
            &&& *final(state) == (GovernorState { pending_freq: Option::<u16>::None, ..*old(state) })
            &&& *final(stats) == (GovernorStats {
                failed_applies: (old(stats).failed_applies + 1) as u64,
                ..*old(stats)
            })
        },
{
    match ack {
        SetterAck::Applied { freq, voltage: _, latency_us } => {
            state.applied_freq = freq;
            state.pending_freq = None;
            state.last_ack_us = now_us;
            stats.record_apply(latency_us, now_us);
        },
        SetterAck::Failed { freq: _, error: _ } => {
            state.pending_freq = None;
            stats.record_failure();
        },
    }
}

/// Stuck-actuator liveness check: when a command is pending and the
/// last response is older than [`STUCK_ACK_TIMEOUT_US`], clear the
/// pending flag locally so the governor can issue again. The in-flight
/// command is not cancelled; a late acknowledgement is still processed.
pub fn clear_if_stuck(state: &mut GovernorState, now_us: u64) -> (stuck: bool)
    requires
        old(state).last_ack_us <= now_us,
    ensures
        stuck == (old(state).pending_freq is Some && now_us - old(state).last_ack_us
            > STUCK_ACK_TIMEOUT_US),
        stuck ==> *final(state) == (GovernorState {
            pending_freq: Option::<u16>::None,
            ..*old(state)
        }),
        !stuck ==> *final(state) == *old(state),
{
    if state.pending_freq.is_some() && now_us - state.last_ack_us > STUCK_ACK_TIMEOUT_US {
        state.pending_freq = None;
        true
    } else {
        false
    }
}

/// Enter or leave performance mode from the polled external trigger;
/// reports whether an edge occurred (for logging the transition once).
pub fn update_performance_mode(state: &mut GovernorState, trigger_active: bool) -> (changed:
    bool)
    ensures
        final(state).performance_mode == if trigger_active {
            PerformanceMode::MaxPerformance
        } else {
            PerformanceMode::Normal
        },
        changed == (old(state).performance_mode != final(state).performance_mode),
        *final(state) == (GovernorState {
            performance_mode: final(state).performance_mode,
            ..*old(state)
        }),
{
    let new_mode = if trigger_active {
        PerformanceMode::MaxPerformance
    } else {
        PerformanceMode::Normal
    };
    let changed = new_mode != state.performance_mode;
    state.performance_mode = new_mode;
    changed
}

/// Is the busy fraction `count / n` strictly above `permille`
/// thousandths? False for an empty window (`n == 0`).
pub open spec fn frac_above(count: int, n: int, permille: int) -> bool {
    count * 1000 > permille * n
}

/// Is the busy fraction `count / n` strictly below `permille`
/// thousandths? False for an empty window (`n == 0`).
pub open spec fn frac_below(count: int, n: int, permille: int) -> bool {
    count * 1000 < permille * n
}

fn frac_above_exec(count: usize, n: usize, permille: u32) -> (r: bool)
    requires
        count <= 0xFFFF,
        n <= 0xFFFF,
    ensures
        r == frac_above(count as int, n as int, permille as int),
{
    proof {
        assert((permille as u64) * (n as u64) <= 0xFFFF_FFFFu64 * 0xFFFFu64) by (nonlinear_arith)
            requires
                permille <= 0xFFFF_FFFFu32 && n <= 0xFFFFusize,
        ;
    }
    (count as u64) * 1000 > (permille as u64) * (n as u64)
}

fn frac_below_exec(count: usize, n: usize, permille: u32) -> (r: bool)
    requires
        count <= 0xFFFF,
        n <= 0xFFFF,
    ensures
        r == frac_below(count as int, n as int, permille as int),
{
    proof {
        assert((permille as u64) * (n as u64) <= 0xFFFF_FFFFu64 * 0xFFFFu64) by (nonlinear_arith)
            requires
                permille <= 0xFFFF_FFFFu32 && n <= 0xFFFFusize,
        ;
    }
    (count as u64) * 1000 < (permille as u64) * (n as u64)
}

pub open spec fn clamp_i(v: int, lo: int, hi: int) -> int {
    if v < lo {
        lo
    } else if v > hi {
        hi
    } else {
        v
    }
}

/// Signed change of the target this cycle, micro-MHz: the first
/// matching hysteresis tier wins — burst, then the four ramp-up tiers
/// from the up-window fraction, then ramp-down from the down-window
/// fraction; otherwise no change.
pub open spec fn tier_delta_umhz(
    timing: Timing,
    load: LoadTarget,
    burst: bool,
    up_count: int,
    up_n: int,
    down_count: int,
    down_n: int,
) -> int {
    let dt = timing.intervals.sample_us as int;
    if burst {
        timing.ramp_rates.burst * dt
    } else if frac_above(up_count, up_n, load.upper_permille as int) {
        timing.ramp_rates.up * dt
    } else if frac_above(up_count, up_n, load.medium_permille as int) {
        timing.ramp_rates.up_medium * dt
    } else if frac_above(up_count, up_n, load.slow_permille as int) {
        timing.ramp_rates.up_slow * dt
    } else if frac_above(up_count, up_n, load.crawl_permille as int) {
        timing.ramp_rates.up_crawl * dt
    } else if frac_below(down_count, down_n, load.lower_permille as int) {
        -(timing.ramp_rates.down * dt)
    } else {
        0
    }
}

/// Move the continuous target frequency one cycle: in performance mode
/// snap to the table maximum, otherwise add the tier delta; then clamp
/// into `[min_freq, max_freq]`. The clamped target always lies in that
/// range.
pub fn update_target(
    state: &mut GovernorState,
    timing: &Timing,
    load: &LoadTarget,
    burst: bool,
    up_count: usize,
    up_n: usize,
    down_count: usize,
    down_n: usize,
    min_freq: u16,
    max_freq: u16,
)
    requires
        timing.wf(),
        min_freq <= max_freq,
        up_count <= 0xFFFF,
        up_n <= 0xFFFF,
        down_count <= 0xFFFF,
        down_n <= 0xFFFF,
    ensures
        final(state).target_freq_umhz as int == clamp_i(
            if old(state).performance_mode == PerformanceMode::MaxPerformance {
                max_freq as int * UMHZ_PER_MHZ
            } else {
                old(state).target_freq_umhz + tier_delta_umhz(
                    *timing,
                    *load,
                    burst,
                    up_count as int,
                    up_n as int,
                    down_count as int,
                    down_n as int,
                )
            },
            min_freq as int * UMHZ_PER_MHZ,
            max_freq as int * UMHZ_PER_MHZ,
        ),
        min_freq as int * UMHZ_PER_MHZ <= final(state).target_freq_umhz <= max_freq as int
            * UMHZ_PER_MHZ,
        *final(state) == (GovernorState {
            target_freq_umhz: final(state).target_freq_umhz,
            ..*old(state)
        }),
{
    let min_umhz = (min_freq as u64) * UMHZ_PER_MHZ;
    let max_umhz = (max_freq as u64) * UMHZ_PER_MHZ;
    let dt = timing.intervals.sample_us;
    proof {
        assert(timing.ramp_rates.burst as u64 * dt <= 1_000_000u64 * 3_600_000_000u64
            && timing.ramp_rates.up as u64 * dt <= 1_000_000u64 * 3_600_000_000u64
            && timing.ramp_rates.up_medium as u64 * dt <= 1_000_000u64 * 3_600_000_000u64
            && timing.ramp_rates.up_slow as u64 * dt <= 1_000_000u64 * 3_600_000_000u64
            && timing.ramp_rates.up_crawl as u64 * dt <= 1_000_000u64 * 3_600_000_000u64
            && timing.ramp_rates.down as u64 * dt <= 1_000_000u64 * 3_600_000_000u64)
            by (nonlinear_arith)
            requires
                timing.ramp_rates.burst <= 1_000_000u32,
                timing.ramp_rates.up <= 1_000_000u32,
                timing.ramp_rates.up_medium <= 1_000_000u32,
                timing.ramp_rates.up_slow <= 1_000_000u32,
                timing.ramp_rates.up_crawl <= 1_000_000u32,
                timing.ramp_rates.down <= 1_000_000u32,
                dt <= 3_600_000_000u64,
        ;
    }
    let raw: u64 = if matches!(state.performance_mode, PerformanceMode::MaxPerformance) {
        max_umhz
    } else if burst {
        state.target_freq_umhz.saturating_add((timing.ramp_rates.burst as u64) * dt)
    } else if frac_above_exec(up_count, up_n, load.upper_permille) {
        state.target_freq_umhz.saturating_add((timing.ramp_rates.up as u64) * dt)
    } else if frac_above_exec(up_count, up_n, load.medium_permille) {
        state.target_freq_umhz.saturating_add((timing.ramp_rates.up_medium as u64) * dt)
    } else if frac_above_exec(up_count, up_n, load.slow_permille) {
        state.target_freq_umhz.saturating_add((timing.ramp_rates.up_slow as u64) * dt)
    } else if frac_above_exec(up_count, up_n, load.crawl_permille) {
        state.target_freq_umhz.saturating_add((timing.ramp_rates.up_crawl as u64) * dt)
    } else if frac_below_exec(down_count, down_n, load.lower_permille) {
        state.target_freq_umhz.saturating_sub((timing.ramp_rates.down as u64) * dt)
    } else {
        state.target_freq_umhz
    };
    let clamped = if raw < min_umhz {
        min_umhz
    } else if raw > max_umhz {
        max_umhz
    } else {
        raw
    };
    state.target_freq_umhz = clamped;
}

/// The whole-MHz frequency the governor would command: the continuous
/// target truncated to MHz.
pub open spec fn spec_target_mhz(s: GovernorState) -> int {
    s.target_freq_umhz as int / UMHZ_PER_MHZ as int
}

/// The apply trigger: a command may be issued only while none is
/// pending, and then when a burst is active (bypassing both timers), or
/// when a periodic timer has elapsed and the distance between applied
/// and target frequency reaches that timer's threshold.
pub open spec fn spec_should_apply(
    s: GovernorState,
    thresholds: FrequencyThresholds,
    burst: bool,
    diff: int,
    should_adjust: bool,
    should_finetune: bool,
) -> bool {
    s.pending_freq is None && (burst || (should_adjust && diff >= thresholds.adjust) || (
    should_finetune && diff >= thresholds.finetune))
}

/// At most one command is ever outstanding: the apply trigger can fire
/// only in a state with no pending command, and firing marks the new
/// command pending at once, so a second command cannot be issued until
/// an acknowledgement or the stuck-actuator timeout clears the first.
pub proof fn lemma_at_most_one_pending(
    s: GovernorState,
    thresholds: FrequencyThresholds,
    burst: bool,
    diff: int,
    should_adjust: bool,
    should_finetune: bool,
)
    ensures
        spec_should_apply(s, thresholds, burst, diff, should_adjust, should_finetune)
            ==> s.pending_freq is None,
{
}

/// Decide whether to issue a `SetFrequency` command this cycle.
///
/// Returns the command when the apply trigger fires; the new command
/// is marked pending and each periodic timer whose distance threshold
/// was met is reset. Without a trigger, state and timers are unchanged
/// and no command is issued — in particular, never while a command is
/// already pending.
pub fn decide_apply(
    state: &mut GovernorState,
    timers: &mut GovernorTimers,
    intervals: &Intervals,
    thresholds: &FrequencyThresholds,
    burst: bool,
    now_us: u64,
) -> (cmd: Option<GovCommand>)
    requires
        old(timers).last_adjustment_us <= now_us,
        old(timers).last_finetune_us <= now_us,
        old(state).target_freq_umhz < 0x1_0000 * UMHZ_PER_MHZ,
    ensures
        ({
            let t = spec_target_mhz(*old(state));
            let diff = if old(state).applied_freq >= t {
                old(state).applied_freq - t
            } else {
                t - old(state).applied_freq
            };
            let should_adjust = now_us - old(timers).last_adjustment_us >= intervals.adjust_us;
            let should_finetune = now_us - old(timers).last_finetune_us >= intervals.finetune_us;
            let apply = spec_should_apply(
                *old(state),
                *thresholds,
                burst,
                diff,
                should_adjust,
                should_finetune,
            );
            &&& apply ==> {
                &&& cmd == Some(GovCommand::SetFrequency(t as u16))
                &&& *final(state) == (GovernorState {
                    pending_freq: Some(t as u16),
                    ..*old(state)
                })
                &&& final(timers).last_adjustment_us == if diff >= thresholds.adjust {
                    now_us
                } else {
                    old(timers).last_adjustment_us
                }
                &&& final(timers).last_finetune_us == if diff >= thresholds.finetune {
                    now_us
                } else {
                    old(timers).last_finetune_us
                }
                &&& final(timers).last_perf_check_us == old(timers).last_perf_check_us
            }
            &&& !apply ==> {
                &&& cmd is None
                &&& *final(state) == *old(state)
                &&& *final(timers) == *old(timers)
            }
            &&& old(state).pending_freq is Some ==> cmd is None
        }),
{
    let target_mhz_u64 = state.target_freq_umhz / UMHZ_PER_MHZ;
    let t = target_mhz_u64 as u16;
    let diff: u16 = if state.applied_freq >= t {
        state.applied_freq - t
    } else {
        t - state.applied_freq
    };
    let should_adjust = interval_elapsed(timers.last_adjustment_us, now_us, intervals.adjust_us);
    let should_finetune = interval_elapsed(timers.last_finetune_us, now_us, intervals.finetune_us);
    let apply = state.pending_freq.is_none() && (burst || (should_adjust && diff
        >= thresholds.adjust) || (should_finetune && diff >= thresholds.finetune));
    if apply {
        state.pending_freq = Some(t);
        if diff >= thresholds.adjust {
            timers.last_adjustment_us = now_us;
        }
        if diff >= thresholds.finetune {
            timers.last_finetune_us = now_us;
        }
        Some(GovCommand::SetFrequency(t))
    } else {
        None
    }
}

} // verus!
