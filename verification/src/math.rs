use vstd::prelude::*;
use crate::error::ScError;

verus! {

/// The quotient rounded toward zero: the quotient of the magnitudes, negated
/// when the signs differ. This is the host's native integer division.
pub open spec fn trunc_div(x: int, d: int) -> int
    recommends
        d != 0,
{
    if x == 0 {
        0
    } else if x > 0 && d > 0 {
        x / d
    } else if x < 0 && d < 0 {
        (x * -1) / (d * -1)
    } else if x < 0 {
        ((x * -1) / d) * -1
    } else {
        (x / (d * -1)) * -1
    }
}

/// Overflow-checked arithmetic over a fixed-width integer kind.
///
/// Each operation returns the mathematically correct result or fails
/// fatally; there is no recoverable path, because continuing with a wrapped
/// or truncated numeric result in a value-transfer contract is a security
/// defect by construction. Addition and multiplication that leave the
/// kind's range fail with `Overflow`, subtraction with `Underflow`, and
/// division with `DivideByZero` — the latter also when no representable
/// quotient exists.
pub trait SafeMath: Sized {
    /// The mathematical value.
    spec fn as_math(self) -> int;

    /// The smallest value of the kind.
    spec fn min_int() -> int;

    /// The largest value of the kind.
    spec fn max_int() -> int;

    /// Checked addition: the exact sum, or `Overflow` when the sum leaves
    /// the kind's range.
    fn safe_add(&self, b: &Self) -> (r: Result<Self, ScError>)
        ensures
            Self::min_int() <= self.as_math() + b.as_math() <= Self::max_int() ==> (r matches Ok(v)
                && v.as_math() == self.as_math() + b.as_math()),
            !(Self::min_int() <= self.as_math() + b.as_math() <= Self::max_int()) ==> r == Err::<
                Self,
                ScError,
            >(ScError::Overflow),
    ;

    /// Checked subtraction: the exact difference, or `Underflow` when the
    /// difference leaves the kind's range.
    fn safe_sub(&self, b: &Self) -> (r: Result<Self, ScError>)
        ensures
            Self::min_int() <= self.as_math() - b.as_math() <= Self::max_int() ==> (r matches Ok(v)
                && v.as_math() == self.as_math() - b.as_math()),
            !(Self::min_int() <= self.as_math() - b.as_math() <= Self::max_int()) ==> r == Err::<
                Self,
                ScError,
            >(ScError::Underflow),
    ;

    /// Checked multiplication: the exact product, or `Overflow` when the
    /// product leaves the kind's range.
    fn safe_mul(&self, b: &Self) -> (r: Result<Self, ScError>)
        ensures
            Self::min_int() <= self.as_math() * b.as_math() <= Self::max_int() ==> (r matches Ok(v)
                && v.as_math() == self.as_math() * b.as_math()),
            !(Self::min_int() <= self.as_math() * b.as_math() <= Self::max_int()) ==> r == Err::<
                Self,
                ScError,
            >(ScError::Overflow),
    ;

    /// Checked division, truncating toward zero: the exact quotient, or
    /// `DivideByZero` when the divisor is zero or the quotient is not
    /// representable in the kind.
    fn safe_div(&self, b: &Self) -> (r: Result<Self, ScError>)
        ensures
            b.as_math() == 0 ==> r == Err::<Self, ScError>(ScError::DivideByZero),
            (b.as_math() != 0 && Self::min_int() <= trunc_div(self.as_math(), b.as_math())
                <= Self::max_int()) ==> (r matches Ok(v) && v.as_math() == trunc_div(
                self.as_math(),
                b.as_math(),
            )),
            (b.as_math() != 0 && !(Self::min_int() <= trunc_div(self.as_math(), b.as_math())
                <= Self::max_int())) ==> r == Err::<Self, ScError>(ScError::DivideByZero),
    ;
}

/// Checked arithmetic for `u8`.
impl SafeMath for u8 {
    open spec fn as_math(self) -> int {
        self as int
    }

    open spec fn min_int() -> int {
        u8::MIN as int
    }

    open spec fn max_int() -> int {
        u8::MAX as int
    }

    fn safe_add(&self, b: &u8) -> (r: Result<u8, ScError>) {
        match self.checked_add(*b) {
            Some(v) => Ok(v),
            None => Err(ScError::Overflow),
        }
    }

    fn safe_sub(&self, b: &u8) -> (r: Result<u8, ScError>) {
        match self.checked_sub(*b) {
            Some(v) => Ok(v),
            None => Err(ScError::Underflow),
        }
    }

    fn safe_mul(&self, b: &u8) -> (r: Result<u8, ScError>) {
        match self.checked_mul(*b) {
            Some(v) => Ok(v),
            None => Err(ScError::Overflow),
        }
    }

    fn safe_div(&self, b: &u8) -> (r: Result<u8, ScError>) {
        match self.checked_div(*b) {
            Some(v) => Ok(v),
            None => Err(ScError::DivideByZero),
        }
    }
}

/// Checked arithmetic for `u16`.
impl SafeMath for u16 {
    open spec fn as_math(self) -> int {
        self as int
    }

    open spec fn min_int() -> int {
        u16::MIN as int
    }

    open spec fn max_int() -> int {
        u16::MAX as int
    }

    fn safe_add(&self, b: &u16) -> (r: Result<u16, ScError>) {
        match self.checked_add(*b) {
            Some(v) => Ok(v),
            None => Err(ScError::Overflow),
        }
    }

    fn safe_sub(&self, b: &u16) -> (r: Result<u16, ScError>) {
        match self.checked_sub(*b) {
            Some(v) => Ok(v),
            None => Err(ScError::Underflow),
        }
    }

    fn safe_mul(&self, b: &u16) -> (r: Result<u16, ScError>) {
        match self.checked_mul(*b) {
            Some(v) => Ok(v),
            None => Err(ScError::Overflow),
        }
    }

    fn safe_div(&self, b: &u16) -> (r: Result<u16, ScError>) {
        match self.checked_div(*b) {
            Some(v) => Ok(v),
            None => Err(ScError::DivideByZero),
        }
    }
}

/// Checked arithmetic for `u32`.
impl SafeMath for u32 {
    open spec fn as_math(self) -> int {
        self as int
    }

    open spec fn min_int() -> int {
        u32::MIN as int
    }

    open spec fn max_int() -> int {
        u32::MAX as int
    }

    fn safe_add(&self, b: &u32) -> (r: Result<u32, ScError>) {
        match self.checked_add(*b) {
            Some(v) => Ok(v),
            None => Err(ScError::Overflow),
        }
    }

    fn safe_sub(&self, b: &u32) -> (r: Result<u32, ScError>) {
        match self.checked_sub(*b) {
            Some(v) => Ok(v),
            None => Err(ScError::Underflow),
        }
    }

    fn safe_mul(&self, b: &u32) -> (r: Result<u32, ScError>) {
        match self.checked_mul(*b) {
            Some(v) => Ok(v),
            None => Err(ScError::Overflow),
        }
    }

    fn safe_div(&self, b: &u32) -> (r: Result<u32, ScError>) {
        match self.checked_div(*b) {
            Some(v) => Ok(v),
            None => Err(ScError::DivideByZero),
        }
    }
}

/// Checked arithmetic for `u64`.
impl SafeMath for u64 {
    open spec fn as_math(self) -> int {
        self as int
    }

    open spec fn min_int() -> int {
        u64::MIN as int
    }

    open spec fn max_int() -> int {
        u64::MAX as int
    }

    fn safe_add(&self, b: &u64) -> (r: Result<u64, ScError>) {
        match self.checked_add(*b) {
            Some(v) => Ok(v),
            None => Err(ScError::Overflow),
        }
    }

    fn safe_sub(&self, b: &u64) -> (r: Result<u64, ScError>) {
        match self.checked_sub(*b) {
            Some(v) => Ok(v),
            None => Err(ScError::Underflow),
        }
    }

    fn safe_mul(&self, b: &u64) -> (r: Result<u64, ScError>) {
        match self.checked_mul(*b) {
            Some(v) => Ok(v),
            None => Err(ScError::Overflow),
        }
    }

    fn safe_div(&self, b: &u64) -> (r: Result<u64, ScError>) {
        match self.checked_div(*b) {
            Some(v) => Ok(v),
            None => Err(ScError::DivideByZero),
        }
    }
}

/// Checked arithmetic for `usize`.
impl SafeMath for usize {
    open spec fn as_math(self) -> int {
        self as int
    }

    open spec fn min_int() -> int {
        usize::MIN as int
    }

    open spec fn max_int() -> int {
        usize::MAX as int
    }

    fn safe_add(&self, b: &usize) -> (r: Result<usize, ScError>) {
        match self.checked_add(*b) {
            Some(v) => Ok(v),
            None => Err(ScError::Overflow),
        }
    }

    fn safe_sub(&self, b: &usize) -> (r: Result<usize, ScError>) {
        match self.checked_sub(*b) {
            Some(v) => Ok(v),
            None => Err(ScError::Underflow),
        }
    }

    fn safe_mul(&self, b: &usize) -> (r: Result<usize, ScError>) {
        match self.checked_mul(*b) {
            Some(v) => Ok(v),
            None => Err(ScError::Overflow),
        }
    }

    fn safe_div(&self, b: &usize) -> (r: Result<usize, ScError>) {
        match self.checked_div(*b) {
            Some(v) => Ok(v),
            None => Err(ScError::DivideByZero),
        }
    }
}

/// Checked arithmetic for `i8`.
impl SafeMath for i8 {
    open spec fn as_math(self) -> int {
        self as int
    }

    open spec fn min_int() -> int {
        i8::MIN as int
    }

    open spec fn max_int() -> int {
        i8::MAX as int
    }

    fn safe_add(&self, b: &i8) -> (r: Result<i8, ScError>) {
        match self.checked_add(*b) {
            Some(v) => Ok(v),
            None => Err(ScError::Overflow),
        }
    }

    fn safe_sub(&self, b: &i8) -> (r: Result<i8, ScError>) {
        match self.checked_sub(*b) {
            Some(v) => Ok(v),
            None => Err(ScError::Underflow),
        }
    }

    fn safe_mul(&self, b: &i8) -> (r: Result<i8, ScError>) {
        match self.checked_mul(*b) {
            Some(v) => Ok(v),
            None => Err(ScError::Overflow),
        }
    }

    fn safe_div(&self, b: &i8) -> (r: Result<i8, ScError>) {
        match self.checked_div(*b) {
            Some(v) => Ok(v),
            None => Err(ScError::DivideByZero),
        }
    }
}

/// Checked arithmetic for `i16`.
impl SafeMath for i16 {
    open spec fn as_math(self) -> int {
        self as int
    }

    open spec fn min_int() -> int {
        i16::MIN as int
    }

    open spec fn max_int() -> int {
        i16::MAX as int
    }

    fn safe_add(&self, b: &i16) -> (r: Result<i16, ScError>) {
        match self.checked_add(*b) {
            Some(v) => Ok(v),
            None => Err(ScError::Overflow),
        }
    }

    fn safe_sub(&self, b: &i16) -> (r: Result<i16, ScError>) {
        match self.checked_sub(*b) {
            Some(v) => Ok(v),
            None => Err(ScError::Underflow),
        }
    }

    fn safe_mul(&self, b: &i16) -> (r: Result<i16, ScError>) {
        match self.checked_mul(*b) {
            Some(v) => Ok(v),
            None => Err(ScError::Overflow),
        }
    }

    fn safe_div(&self, b: &i16) -> (r: Result<i16, ScError>) {
        match self.checked_div(*b) {
            Some(v) => Ok(v),
            None => Err(ScError::DivideByZero),
        }
    }
}

/// Checked arithmetic for `i32`.
impl SafeMath for i32 {
    open spec fn as_math(self) -> int {
        self as int
    }

    open spec fn min_int() -> int {
        i32::MIN as int
    }

    open spec fn max_int() -> int {
        i32::MAX as int
    }

    fn safe_add(&self, b: &i32) -> (r: Result<i32, ScError>) {
        match self.checked_add(*b) {
            Some(v) => Ok(v),
            None => Err(ScError::Overflow),
        }
    }

    fn safe_sub(&self, b: &i32) -> (r: Result<i32, ScError>) {
        match self.checked_sub(*b) {
            Some(v) => Ok(v),
            None => Err(ScError::Underflow),
        }
    }

    fn safe_mul(&self, b: &i32) -> (r: Result<i32, ScError>) {
        match self.checked_mul(*b) {
            Some(v) => Ok(v),
            None => Err(ScError::Overflow),
        }
    }

    fn safe_div(&self, b: &i32) -> (r: Result<i32, ScError>) {
        match self.checked_div(*b) {
            Some(v) => Ok(v),
            None => Err(ScError::DivideByZero),
        }
    }
}

/// Checked arithmetic for `i64`.
impl SafeMath for i64 {
    open spec fn as_math(self) -> int {
        self as int
    }

    open spec fn min_int() -> int {
        i64::MIN as int
    }

    open spec fn max_int() -> int {
        i64::MAX as int
    }

    fn safe_add(&self, b: &i64) -> (r: Result<i64, ScError>) {
        match self.checked_add(*b) {
            Some(v) => Ok(v),
            None => Err(ScError::Overflow),
        }
    }

    fn safe_sub(&self, b: &i64) -> (r: Result<i64, ScError>) {
        match self.checked_sub(*b) {
            Some(v) => Ok(v),
            None => Err(ScError::Underflow),
        }
    }

    fn safe_mul(&self, b: &i64) -> (r: Result<i64, ScError>) {
        match self.checked_mul(*b) {
            Some(v) => Ok(v),
            None => Err(ScError::Overflow),
        }
    }

    fn safe_div(&self, b: &i64) -> (r: Result<i64, ScError>) {
        match self.checked_div(*b) {
            Some(v) => Ok(v),
            None => Err(ScError::DivideByZero),
        }
    }
}

/// Checked arithmetic for `isize`.
impl SafeMath for isize {
    open spec fn as_math(self) -> int {
        self as int
    }

    open spec fn min_int() -> int {
        isize::MIN as int
    }

    open spec fn max_int() -> int {
        isize::MAX as int
    }

    fn safe_add(&self, b: &isize) -> (r: Result<isize, ScError>) {
        match self.checked_add(*b) {
            Some(v) => Ok(v),
            None => Err(ScError::Overflow),
        }
    }

    fn safe_sub(&self, b: &isize) -> (r: Result<isize, ScError>) {
        match self.checked_sub(*b) {
            Some(v) => Ok(v),
            None => Err(ScError::Underflow),
        }
    }

    fn safe_mul(&self, b: &isize) -> (r: Result<isize, ScError>) {
        match self.checked_mul(*b) {
            Some(v) => Ok(v),
            None => Err(ScError::Overflow),
        }
    }

    fn safe_div(&self, b: &isize) -> (r: Result<isize, ScError>) {
        match self.checked_div(*b) {
            Some(v) => Ok(v),
            None => Err(ScError::DivideByZero),
        }
    }
}

} // verus!
