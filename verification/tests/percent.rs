use foresta::percent::Percent;

#[test]
fn mul_ceil_rounds_up() {
    assert_eq!(Percent::from_percent(34).mul_ceil(10), 4);
    assert_eq!(Percent::from_percent(36).mul_ceil(10), 4);
    assert_eq!(Percent::from_percent(10).mul_ceil(1000), 100);
    assert_eq!(Percent::from_percent(10).mul_ceil(1001), 101);
    assert_eq!(Percent::from_percent(0).mul_ceil(1001), 0);
    assert_eq!(Percent::from_percent(100).mul_ceil(u128::MAX), u128::MAX);
}

#[test]
fn from_percent_saturates() {
    assert_eq!(Percent::from_percent(150).deconstruct(), 100);
    assert_eq!(Percent::from_parts(51).deconstruct(), 51);
    assert!(Percent::from_percent(10).le(&Percent::from_percent(10)));
    assert!(!Percent::from_percent(51).le(&Percent::from_percent(50)));
}
