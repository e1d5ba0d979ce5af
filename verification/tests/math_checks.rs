use sc_utils::error::ScError;
use sc_utils::math::SafeMath;

#[test]
fn add_at_the_edge_overflows() {
    assert_eq!(i64::MAX.safe_add(&1), Err(ScError::Overflow));
    assert_eq!(u8::MAX.safe_add(&1), Err(ScError::Overflow));
    assert_eq!(u64::MAX.safe_add(&1), Err(ScError::Overflow));
    assert_eq!(i8::MAX.safe_add(&1), Err(ScError::Overflow));
    assert_eq!((i64::MAX - 1).safe_add(&1), Ok(i64::MAX));
    assert_eq!(40i64.safe_add(&2), Ok(42));
    assert_eq!(i64::MIN.safe_add(&-1), Err(ScError::Overflow));
}

#[test]
fn sub_at_the_edge_underflows() {
    assert_eq!(i64::MIN.safe_sub(&1), Err(ScError::Underflow));
    assert_eq!(0u32.safe_sub(&1), Err(ScError::Underflow));
    assert_eq!(u16::MIN.safe_sub(&1), Err(ScError::Underflow));
    assert_eq!(i8::MIN.safe_sub(&1), Err(ScError::Underflow));
    assert_eq!(44i64.safe_sub(&2), Ok(42));
    assert_eq!((i64::MIN + 1).safe_sub(&1), Ok(i64::MIN));
}

#[test]
fn div_by_zero_always_fails() {
    assert_eq!(0i64.safe_div(&0), Err(ScError::DivideByZero));
    assert_eq!(17i64.safe_div(&0), Err(ScError::DivideByZero));
    assert_eq!((-17i64).safe_div(&0), Err(ScError::DivideByZero));
    assert_eq!(i64::MAX.safe_div(&0), Err(ScError::DivideByZero));
    assert_eq!(255u8.safe_div(&0), Err(ScError::DivideByZero));
    assert_eq!(9usize.safe_div(&0), Err(ScError::DivideByZero));
}

#[test]
fn div_truncates_toward_zero() {
    assert_eq!(7i64.safe_div(&2), Ok(3));
    assert_eq!((-7i64).safe_div(&2), Ok(-3));
    assert_eq!(7i64.safe_div(&-2), Ok(-3));
    assert_eq!((-7i64).safe_div(&-2), Ok(3));
    assert_eq!(7u64.safe_div(&2), Ok(3));
}

#[test]
fn div_without_representable_quotient_fails() {
    assert_eq!(i64::MIN.safe_div(&-1), Err(ScError::DivideByZero));
    assert_eq!(i8::MIN.safe_div(&-1), Err(ScError::DivideByZero));
    assert_eq!(i64::MIN.safe_div(&1), Ok(i64::MIN));
}

#[test]
fn mul_exact_when_product_fits() {
    assert_eq!(6i64.safe_mul(&7), Ok(42));
    assert_eq!((-6i64).safe_mul(&7), Ok(-42));
    assert_eq!(0i64.safe_mul(&i64::MAX), Ok(0));
    assert_eq!(u8::MAX.safe_mul(&1), Ok(u8::MAX));
    assert_eq!((1i64 << 31).safe_mul(&(1i64 << 31)), Ok(1i64 << 62));
}

#[test]
fn mul_outside_the_range_overflows() {
    assert_eq!(i64::MAX.safe_mul(&2), Err(ScError::Overflow));
    assert_eq!((1i64 << 32).safe_mul(&(1i64 << 32)), Err(ScError::Overflow));
    assert_eq!(u8::MAX.safe_mul(&2), Err(ScError::Overflow));
    assert_eq!(i64::MIN.safe_mul(&-1), Err(ScError::Overflow));
}

#[test]
fn checked_arithmetic_covers_every_width() {
    assert_eq!(250u8.safe_add(&5), Ok(255));
    assert_eq!(65530u16.safe_add(&5), Ok(65535));
    assert_eq!(7u32.safe_mul(&6), Ok(42));
    assert_eq!(7u64.safe_sub(&7), Ok(0));
    assert_eq!(7usize.safe_add(&35), Ok(42));
    assert_eq!((-120i8).safe_sub(&8), Ok(-128));
    assert_eq!((-30000i16).safe_sub(&2768), Ok(-32768));
    assert_eq!(21i32.safe_mul(&2), Ok(42));
    assert_eq!((-84i64).safe_div(&2), Ok(-42));
    assert_eq!((-42isize).safe_add(&84), Ok(42));
}
