//! Thermal supervision logic: fan-curve interpolation, duty-cycle
//! conversions, the max-temperature fold over sensor readings, and the
//! per-tick decision of the thermal loop (emergency, warning, fan
//! write).
//!
//! Temperatures are milli-degrees Celsius as the sensors report them;
//! fan duty is either a percent in [0, 100] or the raw hardware byte in
//! [0, 255]. Reading sensors and writing fan files is hardware access
//! performed outside this crate; the functions here take the plain
//! values those reads produce and return the values to write.

use vstd::prelude::*;

verus! {

/// A detected temperature sensor: its name and the path of its
/// temperature input file.
#[derive(Clone, PartialEq, Eq, Debug)]
pub struct ThermalSensor {
    pub name: String,
    pub temp_input: String,
}

/// A detected fan: its name and the paths of its duty-cycle and enable
/// files, where present.
#[derive(Clone, PartialEq, Eq, Debug)]
pub struct FanControl {
    pub name: String,
    pub pwm_path: Option<String>,
    pub enable_path: Option<String>,
}

/// Temperature snapshot recomputed each thermal tick.
#[derive(Clone, Copy, PartialEq, Eq, Structural, Debug)]
pub struct ThermalStatus {
    pub max_temperature_mdeg: i32,
    pub amdgpu_temperature_mdeg: i32,
    pub cpu_temperature_mdeg: i32,
}

/// One control point of the fan curve.
#[derive(Clone, Copy, PartialEq, Eq, Structural, Debug)]
pub struct FanPoint {
    pub temp_mdeg: i32,
    pub percent: u8,
}

/// Control points with strictly ascending temperatures.
pub open spec fn ascending(s: Seq<FanPoint>) -> bool {
    forall|i: int| 0 <= i < s.len() - 1 ==> #[trigger] s[i].temp_mdeg < s[i + 1].temp_mdeg
}

/// Percent interpolated linearly between two control points at
/// temperature `t`, rounded to the nearest integer (half away from
/// zero) and clamped to at most 100.
pub open spec fn interp_percent(p1: FanPoint, p2: FanPoint, t: int) -> int {
    let den = p2.temp_mdeg - p1.temp_mdeg;
    let num = p1.percent * (p2.temp_mdeg - t) + p2.percent * (t - p1.temp_mdeg);
    let rounded = (2 * num + den) / (2 * den);
    if rounded > 100 {
        100
    } else {
        rounded
    }
}

/// Fan percent commanded at temperature `t`: 0 for an empty curve, the
/// first point's percent at or below its temperature, the last point's
/// percent at or above its temperature, and the rounded linear
/// interpolation between the bracketing points in between.
pub open spec fn spec_fan_speed(s: Seq<FanPoint>, t: int) -> int
    decreases s.len(),
{
    if s.len() == 0 {
        0
    } else if t <= s[0].temp_mdeg {
        s[0].percent as int
    } else if s.len() == 1 {
        s[0].percent as int
    } else if t <= s[1].temp_mdeg {
        interp_percent(s[0], s[1], t)
    } else {
        spec_fan_speed(s.drop_first(), t)
    }
}

/// Raw duty byte for a percent: `min(p, 100) * 255 / 100`, rounded to
/// nearest.
pub open spec fn spec_percent_to_raw(p: u8) -> int {
    let c = if p > 100 {
        100int
    } else {
        p as int
    };
    (510 * c + 100) / 200
}

/// Percent for a raw duty byte: `r * 100 / 255`, rounded to nearest.
pub open spec fn spec_raw_to_percent(r: u8) -> int {
    (200 * r + 255) / 510
}

/// Piecewise-linear fan curve; invariant: control-point temperatures
/// strictly ascending. May be empty, which disables fan control.
#[derive(Clone, PartialEq, Eq, Debug)]
pub struct FanCurve {
    points: Vec<FanPoint>,
}

impl View for FanCurve {
    type V = Seq<FanPoint>;

    closed spec fn view(&self) -> Seq<FanPoint> {
        self.points@
    }
}

impl FanCurve {
    pub open spec fn wf(&self) -> bool {
        ascending(self@)
    }

    /// Accepts exactly the point lists whose temperatures strictly
    /// ascend; a rejected list is malformed configuration.
    pub fn new(points: Vec<FanPoint>) -> (r: Option<FanCurve>)
        ensures
            match r {
                Some(c) => c.wf() && c@ == points@,
                None => !ascending(points@),
            },
    {
        let n = points.len();
        if n == 0 {
            return Some(FanCurve { points });
        }
        let mut i: usize = 0;
        while i < n - 1
            invariant
                n == points@.len(),
                1 <= n,
                i <= n - 1,
                forall|j: int| 0 <= j < i ==> #[trigger] points@[j].temp_mdeg < points@[j
                    + 1].temp_mdeg,
            decreases n - i,
        {
            if points[i].temp_mdeg >= points[i + 1].temp_mdeg {
                return None;
            }
            i = i + 1;
        }
        Some(FanCurve { points })
    }

    /// An empty curve (fan control disabled).
    pub fn empty() -> (r: FanCurve)
        ensures
            r.wf(),
            r@ =~= Seq::<FanPoint>::empty(),
    {
        FanCurve { points: Vec::new() }
    }

    pub fn len(&self) -> (n: usize)
        ensures
            n == self@.len(),
    {
        self.points.len()
    }
}

/// Target fan percent at `temp_mdeg` under the given curve.
pub fn calculate_fan_speed(temp_mdeg: i32, curve: &FanCurve) -> (p: u8)
    requires
        curve.wf(),
    ensures
        p as int == spec_fan_speed(curve@, temp_mdeg as int),
{
    let n = curve.points.len();
    if n == 0 {
        return 0;
    }
    if temp_mdeg <= curve.points[0].temp_mdeg {
        return curve.points[0].percent;
    }
    let mut i: usize = 0;
    proof {
        assert(curve@.skip(0) =~= curve@);
    }
    while i < n - 1
        invariant
            curve.wf(),
            n == curve@.len(),
            0 <= i < n,
            temp_mdeg > curve@[i as int].temp_mdeg,
            spec_fan_speed(curve@, temp_mdeg as int) == spec_fan_speed(
                curve@.skip(i as int),
                temp_mdeg as int,
            ),
        decreases n - i,
    {
        if temp_mdeg <= curve.points[i + 1].temp_mdeg {
            let p1 = curve.points[i];
            let p2 = curve.points[i + 1];
            proof {
                assert(curve@.skip(i as int)[0] == p1);
                assert(curve@.skip(i as int)[1] == p2);
                assert(spec_fan_speed(curve@.skip(i as int), temp_mdeg as int)
                    == interp_percent(p1, p2, temp_mdeg as int));
            }
            return interp_between(p1, p2, temp_mdeg);
        }
        proof {
            assert(curve@.skip(i as int).drop_first() =~= curve@.skip(i + 1));
        }
        i = i + 1;
    }
    curve.points[n - 1].percent
}

/// Rounded linear interpolation between two bracketing control points.
fn interp_between(p1: FanPoint, p2: FanPoint, temp_mdeg: i32) -> (p: u8)
    requires
        p1.temp_mdeg < p2.temp_mdeg,
        p1.temp_mdeg <= temp_mdeg <= p2.temp_mdeg,
    ensures
        p as int == interp_percent(p1, p2, temp_mdeg as int),
{
    let t1 = p1.temp_mdeg as i64;
    let t2 = p2.temp_mdeg as i64;
    let t = temp_mdeg as i64;
    let den = (t2 - t1) as u64;
    let a = (t2 - t) as u64;
    let b = (t - t1) as u64;
    let s1 = p1.percent as u64;
    let s2 = p2.percent as u64;
    proof {
        assert(den <= 0x1_0000_0000u64 && a <= den && b <= den);
        assert(s1 * a <= 255 * 0x1_0000_0000u64 && s2 * b <= 255 * 0x1_0000_0000u64)
            by (nonlinear_arith)
            requires
                s1 <= 255u64 && s2 <= 255u64 && a <= 0x1_0000_0000u64 && b <= 0x1_0000_0000u64,
        ;
    }
    let num = s1 * a + s2 * b;
    let rounded = (2 * num + den) / (2 * den);
    if rounded > 100 {
        100
    } else {
        rounded as u8
    }
}

/// Raw duty byte written to the hardware for a requested percent.
pub fn percent_to_raw(percent: u8) -> (raw: u8)
    ensures
        raw as int == spec_percent_to_raw(percent),
{
    let c: u64 = if percent > 100 {
        100
    } else {
        percent as u64
    };
    ((510 * c + 100) / 200) as u8
}

/// Percent shown for a raw duty byte read from the hardware.
pub fn raw_to_percent(raw: u8) -> (percent: u8)
    ensures
        percent as int == spec_raw_to_percent(raw),
{
    ((200 * (raw as u64) + 255) / 510) as u8
}

/// Maximum over sensor readings, folded from 0: an unreadable sensor
/// (`None`) is skipped, so sensor failure is masked rather than
/// propagated.
pub open spec fn spec_max_reading(s: Seq<Option<i32>>) -> int
    decreases s.len(),
{
    if s.len() == 0 {
        0
    } else {
        let m = spec_max_reading(s.drop_last());
        match s.last() {
            Some(v) => if v > m {
                v as int
            } else {
                m
            },
            None => m,
        }
    }
}

/// No usable reading: every sensor failed or reported at or below 0.
#[derive(Clone, Copy, PartialEq, Eq, Structural, Debug)]
pub enum SensorError {
    NoReadings,
}

/// The hottest of the given readings, folded from a floor of 0; an
/// error exactly when the fold never rises above 0 — so a device whose
/// sensors all fail, or all read at or below freezing, reports no
/// temperature rather than a misleading one.
pub fn max_temperature(readings: &Vec<Option<i32>>) -> (r: Result<i32, SensorError>)
    ensures
        spec_max_reading(readings@) > 0 ==> r == Ok::<i32, SensorError>(
            spec_max_reading(readings@) as i32,
        ),
        spec_max_reading(readings@) <= 0 ==> r == Err::<i32, SensorError>(
            SensorError::NoReadings,
        ),
{
    let n = readings.len();
    let mut m: i32 = 0;
    let mut i: usize = 0;
    proof {
        assert(readings@.take(0) =~= Seq::<Option<i32>>::empty());
    }
    while i < n
        invariant
            n == readings@.len(),
            i <= n,
            0 <= m,
            m as int == spec_max_reading(readings@.take(i as int)),
        decreases n - i,
    {
        proof {
            assert(readings@.take(i + 1).drop_last() =~= readings@.take(i as int));
            assert(readings@.take(i + 1).last() == readings@[i as int]);
        }
        match readings[i] {
            Some(v) => {
                if v > m {
                    m = v;
                }
            },
            None => {},
        }
        i = i + 1;
    }
    proof {
        assert(readings@.take(n as int) =~= readings@);
    }
    if m > 0 {
        Ok(m)
    } else {
        Err(SensorError::NoReadings)
    }
}

/// What one thermal tick decides from the hottest temperature and the
/// currently observed fan duty.
#[derive(Clone, Copy, PartialEq, Eq, Structural, Debug)]
pub struct ThermalDecision {
    /// Temperature above the emergency threshold: terminate the
    /// process at once, before any fan action.
    pub emergency: bool,
    /// Temperature above the warning threshold (and not an emergency):
    /// log only.
    pub warning: bool,
    /// Fan percent to write, or `None` when no write is due.
    pub fan_target_percent: Option<u8>,
}

/// Decision of one thermal tick.
///
/// A fan write is due only when fan control is enabled, the curve is
/// non-empty, and the curve's target percent differs from the percent
/// currently observed on the hardware — an equal observation suppresses
/// the redundant write.
pub fn thermal_tick(
    max_temp_mdeg: i32,
    emergency_temp_mdeg: i32,
    max_safe_temp_mdeg: i32,
    fan_enabled: bool,
    curve: &FanCurve,
    observed_raw: Option<u8>,
) -> (d: ThermalDecision)
    requires
        curve.wf(),
    ensures
        d.emergency == (max_temp_mdeg > emergency_temp_mdeg),
        d.warning == (!d.emergency && max_temp_mdeg > max_safe_temp_mdeg),
        d.emergency ==> d.fan_target_percent is None,
        (!d.emergency && !(fan_enabled && curve@.len() > 0)) ==> d.fan_target_percent is None,
        (!d.emergency && fan_enabled && curve@.len() > 0) ==> d.fan_target_percent == ({
            let tgt = spec_fan_speed(curve@, max_temp_mdeg as int);
            let same = match observed_raw {
                Some(r) => spec_raw_to_percent(r) == tgt,
                None => false,
            };
            if same {
                Option::<u8>::None
            } else {
                Option::<u8>::Some(tgt as u8)
            }
        }),
{
    if max_temp_mdeg > emergency_temp_mdeg {
        return ThermalDecision { emergency: true, warning: false, fan_target_percent: None };
    }
    let warning = max_temp_mdeg > max_safe_temp_mdeg;
    let mut fan_target_percent: Option<u8> = None;
    if fan_enabled && curve.len() > 0 {
        let tgt = calculate_fan_speed(max_temp_mdeg, curve);
        let same = match observed_raw {
            Some(r) => raw_to_percent(r) == tgt,
            None => false,
        };
        if !same {
            fan_target_percent = Some(tgt);
        }
    }
    ThermalDecision { emergency: false, warning, fan_target_percent }
}

} // verus!
