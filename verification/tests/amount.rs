use payments_engine::amount::{Amount, MAX_MANTISSA, MAX_SCALE};

#[test]
fn new_keeps_mantissa_and_scale() {
    let amount = Amount::new(-12345678, 7).unwrap();
    assert_eq!(amount.mantissa(), -12345678);
    assert_eq!(amount.scale(), 7);
}

#[test]
fn new_takes_the_whole_range() {
    assert_eq!(MAX_MANTISSA, (1i128 << 96) - 1);
    assert!(Amount::new(MAX_MANTISSA, 0).is_some());
    assert!(Amount::new(-MAX_MANTISSA, 0).is_some());
    assert!(Amount::new(MAX_MANTISSA, MAX_SCALE).is_some());
    assert!(Amount::new(0, 28).is_some());
}

#[test]
fn new_refuses_what_is_out_of_range() {
    assert!(Amount::new(MAX_MANTISSA + 1, 0).is_none());
    assert!(Amount::new(-MAX_MANTISSA - 1, 0).is_none());
    assert!(Amount::new(i128::MAX, 0).is_none());
    assert!(Amount::new(i128::MIN, 0).is_none());
    assert!(Amount::new(1, 29).is_none());
    assert!(Amount::new(1, u32::MAX).is_none());
}

#[test]
fn zero_has_no_digits() {
    assert_eq!(Amount::zero().mantissa(), 0);
    assert_eq!(Amount::zero().scale(), 0);
    assert!(!Amount::zero().below_zero());
}

#[test]
fn below_zero_follows_the_sign() {
    assert!(Amount::new(-1, 0).unwrap().below_zero());
    assert!(Amount::new(-1, 28).unwrap().below_zero());
    assert!(!Amount::new(1, 28).unwrap().below_zero());
    assert!(!Amount::new(0, 5).unwrap().below_zero());
}

#[test]
fn equality_is_by_value() {
    assert!(Amount::new(10, 1).unwrap() == Amount::new(1, 0).unwrap());
    assert!(Amount::new(0, 4).unwrap() == Amount::zero());
    assert!(Amount::new(15, 1).unwrap() == Amount::new(1500, 3).unwrap());
    assert!(Amount::new(1, 0).unwrap() != Amount::new(2, 0).unwrap());
    assert!(Amount::new(1, 0).unwrap() != Amount::new(1, 1).unwrap());
    assert!(Amount::new(1, 0).unwrap() != Amount::new(-1, 0).unwrap());
}
