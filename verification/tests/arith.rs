use refgate::arith::checked_add;
use refgate::arith::checked_mul;
use refgate::arith::checked_sub;

#[test]
fn checked_add_at_max_overflows() {
    assert_eq!(checked_add(u64::MAX, 1), None);
}

#[test]
fn checked_add_near_max_fits() {
    assert_eq!(checked_add(u64::MAX - 1, 1), Some(u64::MAX));
}

#[test]
fn checked_add_small_values() {
    assert_eq!(checked_add(2, 3), Some(5));
    assert_eq!(checked_add(0, 0), Some(0));
}

#[test]
fn checked_sub_underflow_is_none() {
    assert_eq!(checked_sub(0, 1), None);
    assert_eq!(checked_sub(5, 2), Some(3));
}

#[test]
fn checked_mul_overflow_is_none() {
    assert_eq!(checked_mul(u64::MAX, 2), None);
    assert_eq!(checked_mul(6, 7), Some(42));
    assert_eq!(checked_mul(u64::MAX, 1), Some(u64::MAX));
}
