use sunset::brightness::Brightness;

// Stored units are hundred-thousandths of a point: 1 point = 100_000 units.
fn units_of_points(p: f64) -> i64 {
    (p * 100_000.0).round() as i64
}

#[test]
fn set_clamps_low() {
    let mut b = Brightness::new(units_of_points(150.0));
    b.set(units_of_points(5.0));
    assert_eq!(b.value_units(), units_of_points(10.0));
}

#[test]
fn set_clamps_high() {
    let mut b = Brightness::new(units_of_points(150.0));
    b.set(units_of_points(250.0));
    assert_eq!(b.value_units(), units_of_points(200.0));
}

#[test]
fn set_keeps_in_range_value() {
    let mut b = Brightness::new(units_of_points(150.0));
    b.set(units_of_points(42.5));
    assert_eq!(b.value_units(), units_of_points(42.5));
}

#[test]
fn set_accepts_extreme_inputs() {
    let mut b = Brightness::new(units_of_points(150.0));
    b.set(i64::MIN);
    assert_eq!(b.value_units(), units_of_points(10.0));
    b.set(i64::MAX);
    assert_eq!(b.value_units(), units_of_points(200.0));
}

#[test]
fn new_clamps_like_set() {
    assert_eq!(Brightness::new(units_of_points(5.0)).value_units(), units_of_points(10.0));
    assert_eq!(Brightness::new(units_of_points(500.0)).value_units(), units_of_points(200.0));
    assert_eq!(Brightness::new(units_of_points(99.9)).value_units(), units_of_points(99.9));
}

#[test]
fn initial_value_is_reading_plus_offset() {
    let b = Brightness::from_reading(units_of_points(50.0));
    assert_eq!(b.value_units(), units_of_points(150.0));
}

#[test]
fn initial_value_is_clamped() {
    let b = Brightness::from_reading(units_of_points(150.0));
    assert_eq!(b.value_units(), units_of_points(200.0));
    let b = Brightness::from_reading(units_of_points(-150.0));
    assert_eq!(b.value_units(), units_of_points(10.0));
}

#[test]
fn derivations_at_150_points() {
    let b = Brightness::new(units_of_points(150.0));
    assert_eq!(b.to_light(), units_of_points(50.0));
    // Blend factor units are ten-millionths of one: 10_000_000 is 1.0.
    assert_eq!(b.to_redshift(), 10_000_000);
}

#[test]
fn derivations_at_50_points() {
    let b = Brightness::new(units_of_points(50.0));
    assert_eq!(b.to_light(), units_of_points(0.10673));
    assert_eq!(b.to_redshift(), 5_000_000);
    assert_eq!(b.to_redshift() as f64 / 10_000_000.0, 0.5);
}

#[test]
fn light_boundary_at_the_knee() {
    // At and below 100.10673 points the backlight level sits at its floor.
    let at_knee = Brightness::new(units_of_points(100.10673));
    assert_eq!(at_knee.to_light(), units_of_points(0.10673));
    let below = Brightness::new(units_of_points(100.10673) - 1);
    assert_eq!(below.to_light(), units_of_points(0.10673));
    let above = Brightness::new(units_of_points(100.10673) + 1);
    assert_eq!(above.to_light(), units_of_points(0.10673) + 1);
}

#[test]
fn blend_boundary_at_100_points() {
    // At 100 points the blend factor is exactly 1.0; above it stays capped.
    let at_cap = Brightness::new(units_of_points(100.0));
    assert_eq!(at_cap.to_redshift(), 10_000_000);
    let above = Brightness::new(units_of_points(100.0) + 1);
    assert_eq!(above.to_redshift(), 10_000_000);
    let below = Brightness::new(units_of_points(100.0) - 1);
    assert_eq!(below.to_redshift(), 10_000_000 - 1);
}

#[test]
fn change_up_then_down_round_trips() {
    let mut b = Brightness::new(units_of_points(150.0));
    b.change(units_of_points(5.0));
    b.change(units_of_points(-5.0));
    assert_eq!(b.value_units(), units_of_points(150.0));
}

#[test]
fn change_clamps_at_the_top() {
    let mut b = Brightness::new(units_of_points(198.0));
    b.change(units_of_points(5.0));
    assert_eq!(b.value_units(), units_of_points(200.0));
}

#[test]
fn change_clamps_at_the_bottom() {
    let mut b = Brightness::new(units_of_points(12.0));
    b.change(units_of_points(-5.0));
    assert_eq!(b.value_units(), units_of_points(10.0));
}

#[test]
fn change_accepts_extreme_deltas() {
    let mut b = Brightness::new(units_of_points(150.0));
    b.change(i64::MAX);
    assert_eq!(b.value_units(), units_of_points(200.0));
    b.change(i64::MIN);
    assert_eq!(b.value_units(), units_of_points(10.0));
}
