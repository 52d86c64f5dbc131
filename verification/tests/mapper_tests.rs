use visio::mapper::vibration_strength_from;

#[test]
fn mapper_is_deterministic() {
    for d in [0u16, 9, 500, 1000, 1299, 1300, 65535] {
        assert_eq!(vibration_strength_from(d), vibration_strength_from(d));
    }
}

#[test]
fn far_distances_are_off() {
    assert_eq!(vibration_strength_from(1300), 0);
    assert_eq!(vibration_strength_from(1301), 0);
    assert_eq!(vibration_strength_from(5000), 0);
    assert_eq!(vibration_strength_from(u16::MAX), 0);
}

#[test]
fn clamp_boundary_snaps_to_zero() {
    // (1300 - d) * 2 / 3 > 860 exactly for d <= 8.
    for d in 0u16..=8 {
        assert_eq!(vibration_strength_from(d), 0);
    }
    // At 9 mm the raw value is 1291 * 2 / 3 == 860, not clamped.
    assert_eq!(vibration_strength_from(9), 860);
}

#[test]
fn mid_range_values() {
    assert_eq!(vibration_strength_from(500), 533);
    assert_eq!(vibration_strength_from(1000), 200);
}

#[test]
fn near_cutoff_values() {
    assert_eq!(vibration_strength_from(1299), 0); // 1 * 2 / 3 == 0
    assert_eq!(vibration_strength_from(1298), 1); // 2 * 2 / 3 == 1
    assert_eq!(vibration_strength_from(100), 800);
}
