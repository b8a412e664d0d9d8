//! Configuration surface of the daemon.
//!
//! All tunables are plain integers. Quantities the hardware reports or
//! the algorithms accumulate fractionally are held in fixed-point
//! units, stated in each field's name: `_us` microseconds, `_ms`
//! milliseconds, `_mdeg` milli-degrees Celsius, `_permille` thousandths
//! of a load fraction, and ramp rates in milli-MHz per millisecond.
//! Malformed configuration is replaced by these defaults by the caller;
//! an empty safe-point list is a fatal startup error handled by the
//! operating-point table.

use vstd::prelude::*;
use crate::table::SafePoint;
use crate::thermal::FanPoint;

verus! {

/// Ceiling on ramp rates accepted by the governor arithmetic
/// (1000 MHz per millisecond, far beyond any sensible tuning).
pub const MAX_RAMP_RATE_MMHZ_PER_MS: u32 = 1_000_000;

/// Ceiling on the sample interval accepted by the governor arithmetic
/// (one hour, far beyond any sensible tuning).
pub const MAX_SAMPLE_INTERVAL_US: u64 = 3_600_000_000;

/// Cycle cadences of the governor loop.
#[derive(Clone, Copy, PartialEq, Eq, Structural, Debug)]
pub struct Intervals {
    /// Sleep between governor cycles, microseconds.
    pub sample_us: u64,
    /// Minimum spacing of coarse frequency adjustments, microseconds.
    pub adjust_us: u64,
    /// Minimum spacing of fine-tuning adjustments, microseconds.
    pub finetune_us: u64,
}

impl Intervals {
    pub open spec fn spec_default() -> Intervals {
        Intervals { sample_us: 2000u64, adjust_us: 8000u64, finetune_us: 50000u64 }
    }
}

impl Default for Intervals {
    fn default() -> (d: Intervals)
        ensures
            d == Intervals::spec_default(),
    {
        Intervals { sample_us: 2000, adjust_us: 8000, finetune_us: 50000 }
    }
}

/// Frequency change applied per millisecond for each load tier, in
/// milli-MHz per millisecond.
#[derive(Clone, Copy, PartialEq, Eq, Structural, Debug)]
pub struct RampRates {
    pub up: u32,
    pub down: u32,
    pub burst: u32,
    pub up_medium: u32,
    pub up_slow: u32,
    pub up_crawl: u32,
}

impl RampRates {
    pub open spec fn spec_default() -> RampRates {
        RampRates {
            up: 50_000u32,
            down: 240u32,
            burst: 800_000u32,
            up_medium: 25_000u32,
            up_slow: 10_000u32,
            up_crawl: 2_000u32,
        }
    }
}

impl Default for RampRates {
    fn default() -> (d: RampRates)
        ensures
            d == RampRates::spec_default(),
    {
        RampRates {
            up: 50_000,
            down: 240,
            burst: 800_000,
            up_medium: 25_000,
            up_slow: 10_000,
            up_crawl: 2_000,
        }
    }
}

/// Governor timing: cadences, hysteresis window lengths and ramp rates.
#[derive(Clone, Copy, PartialEq, Eq, Structural, Debug)]
pub struct Timing {
    pub intervals: Intervals,
    /// Trailing samples that must all be busy to signal a burst.
    pub burst_samples: u8,
    /// Window length of the ramp-up busy fraction.
    pub ramp_up_samples: u16,
    /// Window length of the ramp-down busy fraction.
    pub ramp_down_samples: u16,
    pub ramp_rates: RampRates,
}

impl Timing {
    /// Bounds under which the target-frequency arithmetic cannot
    /// overflow.
    pub open spec fn wf(&self) -> bool {
        &&& self.intervals.sample_us <= MAX_SAMPLE_INTERVAL_US
        &&& self.ramp_rates.up <= MAX_RAMP_RATE_MMHZ_PER_MS
        &&& self.ramp_rates.down <= MAX_RAMP_RATE_MMHZ_PER_MS
        &&& self.ramp_rates.burst <= MAX_RAMP_RATE_MMHZ_PER_MS
        &&& self.ramp_rates.up_medium <= MAX_RAMP_RATE_MMHZ_PER_MS
        &&& self.ramp_rates.up_slow <= MAX_RAMP_RATE_MMHZ_PER_MS
        &&& self.ramp_rates.up_crawl <= MAX_RAMP_RATE_MMHZ_PER_MS
    }

    pub open spec fn spec_default() -> Timing {
        Timing {
            intervals: Intervals::spec_default(),
            burst_samples: 6u8,
            ramp_up_samples: 64u16,
            ramp_down_samples: 256u16,
            ramp_rates: RampRates::spec_default(),
        }
    }

    /// Runtime check of `wf`, so a caller can reject out-of-range
    /// tunables as malformed configuration.
    pub fn is_wf(&self) -> (r: bool)
        ensures
            r == self.wf(),
    {
        self.intervals.sample_us <= MAX_SAMPLE_INTERVAL_US && self.ramp_rates.up
            <= MAX_RAMP_RATE_MMHZ_PER_MS && self.ramp_rates.down <= MAX_RAMP_RATE_MMHZ_PER_MS
            && self.ramp_rates.burst <= MAX_RAMP_RATE_MMHZ_PER_MS && self.ramp_rates.up_medium
            <= MAX_RAMP_RATE_MMHZ_PER_MS && self.ramp_rates.up_slow <= MAX_RAMP_RATE_MMHZ_PER_MS
            && self.ramp_rates.up_crawl <= MAX_RAMP_RATE_MMHZ_PER_MS
    }
}

impl Default for Timing {
    fn default() -> (d: Timing)
        ensures
            d == Timing::spec_default(),
            d.wf(),
    {
        Timing {
            intervals: Intervals::default(),
            burst_samples: 6,
            ramp_up_samples: 64,
            ramp_down_samples: 256,
            ramp_rates: RampRates::default(),
        }
    }
}

/// Minimum difference between applied and target frequency, in MHz,
/// for each apply trigger.
#[derive(Clone, Copy, PartialEq, Eq, Structural, Debug)]
pub struct FrequencyThresholds {
    pub adjust: u16,
    pub finetune: u16,
}

impl FrequencyThresholds {
    pub open spec fn spec_default() -> FrequencyThresholds {
        FrequencyThresholds { adjust: 100u16, finetune: 10u16 }
    }
}

impl Default for FrequencyThresholds {
    fn default() -> (d: FrequencyThresholds)
        ensures
            d == FrequencyThresholds::spec_default(),
    {
        FrequencyThresholds { adjust: 100, finetune: 10 }
    }
}

/// Busy-fraction thresholds of the hysteresis tiers, in thousandths.
#[derive(Clone, Copy, PartialEq, Eq, Structural, Debug)]
pub struct LoadTarget {
    pub upper_permille: u32,
    pub medium_permille: u32,
    pub slow_permille: u32,
    pub crawl_permille: u32,
    pub lower_permille: u32,
}

impl LoadTarget {
    pub open spec fn spec_default() -> LoadTarget {
        LoadTarget {
            upper_permille: 900u32,
            medium_permille: 750u32,
            slow_permille: 600u32,
            crawl_permille: 500u32,
            lower_permille: 500u32,
        }
    }
}

impl Default for LoadTarget {
    fn default() -> (d: LoadTarget)
        ensures
            d == LoadTarget::spec_default(),
    {
        LoadTarget {
            upper_permille: 900,
            medium_permille: 750,
            slow_permille: 600,
            crawl_permille: 500,
            lower_permille: 500,
        }
    }
}

/// Fan control: whether it is enabled and the curve's control points.
#[derive(Clone, PartialEq, Eq, Debug)]
pub struct FanControlConfig {
    pub enabled: bool,
    pub curve: Vec<FanPoint>,
}

impl Default for FanControlConfig {
    fn default() -> (d: FanControlConfig)
        ensures
            !d.enabled,
            d.curve@ =~= Seq::<FanPoint>::empty(),
    {
        FanControlConfig { enabled: false, curve: Vec::new() }
    }
}

/// Thermal supervision thresholds and cadence.
#[derive(Clone, PartialEq, Eq, Debug)]
pub struct Thermal {
    /// Warn above this temperature, milli-degrees.
    pub max_safe_temp_mdeg: i32,
    /// Terminate the process above this temperature, milli-degrees.
    pub emergency_temp_mdeg: i32,
    /// Sensing cadence, milliseconds.
    pub monitor_interval_ms: u64,
    /// Which detected fan the curve drives.
    pub fan_control_index: usize,
    pub fan_control: FanControlConfig,
}

impl Default for Thermal {
    fn default() -> (d: Thermal)
        ensures
            d.max_safe_temp_mdeg == 0,
            d.emergency_temp_mdeg == 0,
            d.monitor_interval_ms == 0,
            d.fan_control_index == 0,
            !d.fan_control.enabled,
            d.fan_control.curve@ =~= Seq::<FanPoint>::empty(),
    {
        Thermal {
            max_safe_temp_mdeg: 0,
            emergency_temp_mdeg: 0,
            monitor_interval_ms: 0,
            fan_control_index: 0,
            fan_control: FanControlConfig::default(),
        }
    }
}

/// External "max performance" trigger: a control path whose presence
/// locks the target frequency to the table maximum.
#[derive(Clone, PartialEq, Eq, Debug)]
pub struct PerformanceModeConfig {
    pub enabled: bool,
    pub control_file: String,
    /// Poll cadence of the trigger, milliseconds.
    pub check_interval_ms: u64,
}

impl Default for PerformanceModeConfig {
    fn default() -> (d: PerformanceModeConfig)
        ensures
            d.enabled,
            d.control_file@ == "/tmp/bc250-max-performance"@,
            d.check_interval_ms == 500,
    {
        PerformanceModeConfig {
            enabled: true,
            control_file: String::from_str("/tmp/bc250-max-performance"),
            check_interval_ms: 500,
        }
    }
}

/// The whole configuration surface.
#[derive(Clone, PartialEq, Eq, Debug)]
pub struct Config {
    pub timing: Timing,
    pub frequency_thresholds: FrequencyThresholds,
    pub load_target: LoadTarget,
    pub safe_points: Vec<SafePoint>,
    pub thermal: Thermal,
    pub performance_mode: PerformanceModeConfig,
}

impl Default for Config {
    fn default() -> (d: Config)
        ensures
            d.timing == Timing::spec_default(),
            d.frequency_thresholds == FrequencyThresholds::spec_default(),
            d.load_target == LoadTarget::spec_default(),
            d.safe_points@.len() == 2,
            d.safe_points@[0] == (SafePoint { frequency: 350u16, voltage: 700u16 }),
            d.safe_points@[1] == (SafePoint { frequency: 2000u16, voltage: 1000u16 }),
            d.thermal.max_safe_temp_mdeg == 0,
            d.thermal.emergency_temp_mdeg == 0,
            d.thermal.monitor_interval_ms == 0,
            d.thermal.fan_control_index == 0,
            !d.thermal.fan_control.enabled,
            d.thermal.fan_control.curve@ =~= Seq::<FanPoint>::empty(),
            d.performance_mode.enabled,
            d.performance_mode.control_file@ == "/tmp/bc250-max-performance"@,
            d.performance_mode.check_interval_ms == 500,
    {
        let mut safe_points: Vec<SafePoint> = Vec::new();
        safe_points.push(SafePoint { frequency: 350, voltage: 700 });
        safe_points.push(SafePoint { frequency: 2000, voltage: 1000 });
        Config {
            timing: Timing::default(),
            frequency_thresholds: FrequencyThresholds::default(),
            load_target: LoadTarget::default(),
            safe_points,
            thermal: Thermal::default(),
            performance_mode: PerformanceModeConfig::default(),
        }
    }
}

} // verus!
