use metastable_pool::decimal::{Decimal, DECIMAL_FRACTIONAL};

#[test]
fn decimal_representation() {
    assert_eq!(Decimal::zero().atomics, 0);
    assert_eq!(Decimal::one().atomics, DECIMAL_FRACTIONAL);
    assert!(Decimal::zero().is_zero());
    assert!(!Decimal::one().is_zero());
    assert_eq!(Decimal::from_ratio(1u128, 5u128).atomics, 200_000_000_000_000_000);
    assert_eq!(Decimal::from_ratio(5u128, 2u128).atomics, 2_500_000_000_000_000_000);
    // truncation toward zero
    assert_eq!(Decimal::from_ratio(1u128, 3u128).atomics, 333_333_333_333_333_333);
}

#[test]
fn decimal_inversion() {
    assert_eq!(Decimal::zero().inv(), None);
    assert_eq!(
        Decimal::from_ratio(1u128, 5u128).inv(),
        Some(Decimal::from_ratio(5u128, 1u128))
    );
    assert_eq!(
        Decimal::from_ratio(2u128, 5u128).inv(),
        Some(Decimal::from_ratio(5u128, 2u128))
    );
    assert_eq!(Decimal::one().inv(), Some(Decimal::one()));
}

#[test]
fn decimal_scaling() {
    let rate = Decimal::from_ratio(1u128, 5u128);
    // floor(1000 * 1/5) and floor(999 * 1/5)
    assert_eq!(rate.mul_floor(1000), Some(200));
    assert_eq!(rate.mul_floor(999), Some(199));
    // floor(200 / (1/5)) and floor(199 / (1/5))
    assert_eq!(rate.div_floor(200), Some(1000));
    assert_eq!(rate.div_floor(199), Some(995));
    // overflow and zero divisors are signalled, not mangled
    assert_eq!(Decimal::from_ratio(2u128, 1u128).mul_floor(u128::MAX), None);
    assert_eq!(Decimal::zero().div_floor(5), None);
}
