use gamename_engine::bounds::BoundedValue;

#[test]
fn value_inside_stays() {
    let mut b = BoundedValue { value: 5, lower: 0, upper: 10 };
    assert!(b.maintain_bounds());
    assert_eq!(b, BoundedValue { value: 5, lower: 0, upper: 10 });
}

#[test]
fn value_on_bounds_stays() {
    let mut b = BoundedValue { value: 0, lower: 0, upper: 10 };
    assert!(b.maintain_bounds());
    assert_eq!(b.value, 0);
    let mut b = BoundedValue { value: 10, lower: 0, upper: 10 };
    assert!(b.maintain_bounds());
    assert_eq!(b.value, 10);
}

#[test]
fn value_above_is_clamped_to_upper() {
    let mut b = BoundedValue { value: 42, lower: -3, upper: 10 };
    assert!(!b.maintain_bounds());
    assert_eq!(b, BoundedValue { value: 10, lower: -3, upper: 10 });
}

#[test]
fn value_below_is_clamped_to_lower() {
    let mut b = BoundedValue { value: -7, lower: -3, upper: 10 };
    assert!(!b.maintain_bounds());
    assert_eq!(b, BoundedValue { value: -3, lower: -3, upper: 10 });
}

#[test]
fn extreme_values_are_clamped() {
    let mut b = BoundedValue { value: i64::MIN, lower: i64::MIN + 1, upper: i64::MAX };
    assert!(!b.maintain_bounds());
    assert_eq!(b.value, i64::MIN + 1);
}
