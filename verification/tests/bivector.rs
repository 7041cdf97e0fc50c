use rotors::bivector::Bivector;

#[test]
fn new_bivector_holds_its_coefficients() {
    let b = Bivector::new(1, -2, 3);
    assert_eq!(b.xy, 1);
    assert_eq!(b.yz, -2);
    assert_eq!(b.zx, 3);
}

#[test]
fn default_bivector_is_zero() {
    assert_eq!(Bivector::default(), Bivector::new(0, 0, 0));
}

#[test]
fn bivector_scales_by_an_integer() {
    let b = Bivector::new(1, -2, 3);
    assert_eq!(b * 4, Bivector::new(4, -8, 12));
    assert_eq!(b * 0, Bivector::default());
    assert_eq!(b * -1, Bivector::new(-1, 2, -3));
}

#[test]
fn bivector_divides_toward_zero() {
    let b = Bivector::new(9, -9, 4);
    assert_eq!(b / 2, Bivector::new(4, -4, 2));
    assert_eq!(b / -2, Bivector::new(-4, 4, -2));
    assert_eq!(b / 10, Bivector::default());
    assert_eq!(b / 1, b);
}

#[test]
fn bivector_division_undoes_scaling() {
    let b = Bivector::new(3, -4, 12);
    assert_eq!((b * 5) / 5, b);
    assert_eq!((b * -5) / -5, b);
}

#[test]
fn smallest_coefficient_divides_by_any_other_divisor() {
    let b = Bivector::new(i32::MIN, i32::MAX, 0);
    assert_eq!(b / 2, Bivector::new(-1073741824, 1073741823, 0));
    assert_eq!(b / i32::MIN, Bivector::new(1, 0, 0));
}
