use gpu_governor::table::{SafeOperatingPointTable, SafePoint, TableError};

fn point(frequency: u16, voltage: u16) -> SafePoint {
    SafePoint { frequency, voltage }
}

fn two_point_table() -> SafeOperatingPointTable {
    SafeOperatingPointTable::new(vec![point(350, 700), point(2000, 1000)]).unwrap()
}

#[test]
fn empty_input_is_rejected() {
    let r = SafeOperatingPointTable::new(Vec::new());
    assert!(matches!(r, Err(TableError::Empty)));
}

#[test]
fn min_and_max_come_from_the_keys() {
    let t = two_point_table();
    assert_eq!(t.min_freq(), 350);
    assert_eq!(t.max_freq(), 2000);
}

#[test]
fn construction_sorts_unordered_input() {
    let t = SafeOperatingPointTable::new(vec![point(2000, 1000), point(350, 700)]).unwrap();
    assert_eq!(t.min_freq(), 350);
    assert_eq!(t.max_freq(), 2000);
    assert_eq!(t.resolve_voltage(350), 700);
}

#[test]
fn later_duplicate_key_wins() {
    let t = SafeOperatingPointTable::new(vec![point(350, 700), point(350, 750)]).unwrap();
    assert_eq!(t.min_freq(), 350);
    assert_eq!(t.max_freq(), 350);
    assert_eq!(t.resolve_voltage(350), 750);
}

#[test]
fn voltage_resolution_uses_ceiling_entry() {
    let t = two_point_table();
    // 1500 resolves to the ceiling entry's voltage, never interpolated
    assert_eq!(t.resolve_voltage(1500), 1000);
}

#[test]
fn voltage_resolution_above_max_key_uses_last_entry() {
    let t = two_point_table();
    assert_eq!(t.resolve_voltage(2500), 1000);
}

#[test]
fn voltage_resolution_at_and_below_lowest_key() {
    let t = two_point_table();
    assert_eq!(t.resolve_voltage(350), 700);
    assert_eq!(t.resolve_voltage(100), 700);
    assert_eq!(t.resolve_voltage(2000), 1000);
}

#[test]
fn voltage_resolution_is_monotonic_over_requests() {
    let t = SafeOperatingPointTable::new(vec![
        point(350, 700),
        point(1000, 800),
        point(2000, 1000),
    ])
    .unwrap();
    let mut last = 0u16;
    for f in [0u16, 350, 351, 999, 1000, 1500, 2000, 2500] {
        let v = t.resolve_voltage(f);
        assert!(v >= last);
        last = v;
    }
}

#[test]
fn fallback_point_is_the_lowest() {
    let t = two_point_table();
    let p = t.fallback_point();
    assert_eq!(p.frequency, 350);
    assert_eq!(p.voltage, 700);
}
