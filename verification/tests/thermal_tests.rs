use gpu_governor::thermal::{
    calculate_fan_speed, max_temperature, percent_to_raw, raw_to_percent, thermal_tick, FanCurve,
    FanPoint, SensorError, ThermalStatus,
};

fn curve_40_60_80() -> FanCurve {
    FanCurve::new(vec![
        FanPoint { temp_mdeg: 40_000, percent: 0 },
        FanPoint { temp_mdeg: 60_000, percent: 50 },
        FanPoint { temp_mdeg: 80_000, percent: 100 },
    ])
    .unwrap()
}

#[test]
fn curve_rejects_non_ascending_temperatures() {
    let r = FanCurve::new(vec![
        FanPoint { temp_mdeg: 60_000, percent: 0 },
        FanPoint { temp_mdeg: 40_000, percent: 50 },
    ]);
    assert!(r.is_none());
    let dup = FanCurve::new(vec![
        FanPoint { temp_mdeg: 60_000, percent: 0 },
        FanPoint { temp_mdeg: 60_000, percent: 50 },
    ]);
    assert!(dup.is_none());
}

#[test]
fn empty_curve_is_allowed_and_yields_zero() {
    let c = FanCurve::empty();
    assert_eq!(c.len(), 0);
    assert_eq!(calculate_fan_speed(50_000, &c), 0);
}

#[test]
fn interpolation_at_midpoint() {
    // curve [(40,0),(60,50),(80,100)]: 50 degrees -> 25%
    assert_eq!(calculate_fan_speed(50_000, &curve_40_60_80()), 25);
}

#[test]
fn clamped_below_first_point() {
    // 30 degrees -> 0% (first point's percent)
    assert_eq!(calculate_fan_speed(30_000, &curve_40_60_80()), 0);
}

#[test]
fn clamped_above_last_point() {
    // 90 degrees -> 100% (last point's percent)
    assert_eq!(calculate_fan_speed(90_000, &curve_40_60_80()), 100);
}

#[test]
fn interpolation_hits_control_points_exactly() {
    let c = curve_40_60_80();
    assert_eq!(calculate_fan_speed(40_000, &c), 0);
    assert_eq!(calculate_fan_speed(60_000, &c), 50);
    assert_eq!(calculate_fan_speed(80_000, &c), 100);
}

#[test]
fn interpolation_rounds_to_nearest_percent() {
    // between (40,0) and (60,50): 50.2 degrees -> 25.5 -> 26
    assert_eq!(calculate_fan_speed(50_200, &curve_40_60_80()), 26);
    // 50.1 degrees -> 25.25 -> 25
    assert_eq!(calculate_fan_speed(50_100, &curve_40_60_80()), 25);
}

#[test]
fn percent_to_raw_rounds_to_nearest_byte() {
    assert_eq!(percent_to_raw(0), 0);
    assert_eq!(percent_to_raw(40), 102);
    assert_eq!(percent_to_raw(100), 255);
    assert_eq!(percent_to_raw(1), 3);
    // over-range percents behave as 100
    assert_eq!(percent_to_raw(255), 255);
}

#[test]
fn raw_to_percent_rounds_to_nearest_percent() {
    assert_eq!(raw_to_percent(0), 0);
    assert_eq!(raw_to_percent(102), 40);
    assert_eq!(raw_to_percent(255), 100);
    assert_eq!(raw_to_percent(128), 50);
}

#[test]
fn max_temperature_takes_hottest_reading() {
    let readings = vec![Some(40_000), None, Some(55_000), Some(30_000)];
    assert_eq!(max_temperature(&readings), Ok(55_000));
}

#[test]
fn max_temperature_fails_without_usable_readings() {
    let none: Vec<Option<i32>> = vec![None, None];
    assert_eq!(max_temperature(&none), Err(SensorError::NoReadings));
    let empty: Vec<Option<i32>> = Vec::new();
    assert_eq!(max_temperature(&empty), Err(SensorError::NoReadings));
    // readings at or below zero are masked by the zero floor
    let cold = vec![Some(0), Some(-5_000)];
    assert_eq!(max_temperature(&cold), Err(SensorError::NoReadings));
}

#[test]
fn emergency_shutdown_preempts_fan_action() {
    // max 95.0, emergency 90.0: terminate before any fan write
    let d = thermal_tick(95_000, 90_000, 80_000, true, &curve_40_60_80(), Some(0));
    assert!(d.emergency);
    assert!(!d.warning);
    assert!(d.fan_target_percent.is_none());
}

#[test]
fn warning_between_thresholds_takes_no_action() {
    let d = thermal_tick(85_000, 90_000, 80_000, false, &FanCurve::empty(), None);
    assert!(!d.emergency);
    assert!(d.warning);
    assert!(d.fan_target_percent.is_none());
}

#[test]
fn fan_write_follows_the_curve() {
    // 50 degrees -> 25%, observed 0% -> write due
    let d = thermal_tick(50_000, 90_000, 80_000, true, &curve_40_60_80(), Some(0));
    assert!(!d.emergency);
    assert_eq!(d.fan_target_percent, Some(25));
}

#[test]
fn equal_observed_percent_suppresses_the_write() {
    // observed raw 64 reads back as 25%: target equals observation
    assert_eq!(raw_to_percent(64), 25);
    let d = thermal_tick(50_000, 90_000, 80_000, true, &curve_40_60_80(), Some(64));
    assert!(d.fan_target_percent.is_none());
}

#[test]
fn unknown_observation_forces_the_write() {
    let d = thermal_tick(50_000, 90_000, 80_000, true, &curve_40_60_80(), None);
    assert_eq!(d.fan_target_percent, Some(25));
}

#[test]
fn disabled_fan_control_never_writes() {
    let d = thermal_tick(50_000, 90_000, 80_000, false, &curve_40_60_80(), Some(0));
    assert!(d.fan_target_percent.is_none());
}

#[test]
fn thermal_status_holds_millidegree_snapshot() {
    let s = ThermalStatus {
        max_temperature_mdeg: 95_000,
        amdgpu_temperature_mdeg: 91_000,
        cpu_temperature_mdeg: 95_000,
    };
    assert_eq!(s.max_temperature_mdeg, 95_000);
}
