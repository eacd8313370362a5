//! Signed decimal fixed-point numbers with six fractional digits.
//!
//! A [`Fixed`] stores the number `raw / 1_000_000`. Every operation is total:
//! results that do not fit are pinned to the nearest representable number,
//! and quotients and products are rounded toward zero.
use vstd::prelude::*;

verus! {

/// Raw units per whole number.
pub const SCALE: i64 = 1_000_000;

/// The raw integer nearest to `v` that a [`Fixed`] can hold.
pub open spec fn saturate(v: int) -> int {
    if v < i64::MIN as int {
        i64::MIN as int
    } else if v > i64::MAX as int {
        i64::MAX as int
    } else {
        v
    }
}

/// Quotient of `a` by `b` rounded toward zero; `b` must not be zero.
pub open spec fn trunc_div(a: int, b: int) -> int {
    if b > 0 {
        if a >= 0 {
            a / b
        } else {
            -((-a) / b)
        }
    } else {
        if a >= 0 {
            -(a / (-b))
        } else {
            (-a) / (-b)
        }
    }
}

/// Raw sum.
pub open spec fn add_raw(a: int, b: int) -> int {
    saturate(a + b)
}

/// Raw difference.
pub open spec fn sub_raw(a: int, b: int) -> int {
    saturate(a - b)
}

/// Raw negation.
pub open spec fn neg_raw(a: int) -> int {
    saturate(-a)
}

/// Raw absolute value.
pub open spec fn abs_raw(a: int) -> int {
    if a < 0 {
        saturate(-a)
    } else {
        a
    }
}

/// Raw product of two fixed-point numbers.
pub open spec fn mul_raw(a: int, b: int) -> int {
    saturate(trunc_div(a * b, SCALE as int))
}

/// Raw quotient of two fixed-point numbers. A zero divisor pins the quotient
/// to the end of the range on the side of the dividend's sign, and `0 / 0` is `0`.
pub open spec fn div_raw(a: int, b: int) -> int {
    if b == 0 {
        if a > 0 {
            i64::MAX as int
        } else if a < 0 {
            i64::MIN as int
        } else {
            0
        }
    } else {
        saturate(trunc_div(a * SCALE as int, b))
    }
}

/// The smaller of two raw values.
pub open spec fn min_raw(a: int, b: int) -> int {
    if a <= b {
        a
    } else {
        b
    }
}

/// The larger of two raw values.
pub open spec fn max_raw(a: int, b: int) -> int {
    if a >= b {
        a
    } else {
        b
    }
}

/// `v` limited to `[lo, hi]`.
pub open spec fn clamp_raw(v: int, lo: int, hi: int) -> int {
    if v < lo {
        lo
    } else if v > hi {
        hi
    } else {
        v
    }
}

/// Multiplying by one changes nothing.
pub proof fn lemma_mul_one(a: int)
    requires
        i64::MIN <= a <= i64::MAX,
    ensures
        mul_raw(a, SCALE as int) == a,
        mul_raw(SCALE as int, a) == a,
{
    assert(a * 1_000_000 == 1_000_000 * a) by (nonlinear_arith);
    assert(SCALE as int * a == 1_000_000 * a);
    assert(a * SCALE as int == 1_000_000 * a);
}

/// Multiplying by zero gives zero.
pub proof fn lemma_mul_zero(a: int)
    ensures
        mul_raw(a, 0) == 0,
        mul_raw(0, a) == 0,
{
    assert(a * 0 == 0 && 0 * a == 0) by (nonlinear_arith);
}

/// Zero divided by anything is zero.
pub proof fn lemma_div_of_zero(b: int)
    ensures
        div_raw(0, b) == 0,
{
    assert(0 * SCALE as int == 0);
    if b > 0 {
        assert(0int / b == 0) by (nonlinear_arith)
            requires
                b > 0,
        ;
    } else if b < 0 {
        assert(0int / (-b) == 0) by (nonlinear_arith)
            requires
                -b > 0,
        ;
    }
}

/// The product of two numbers that are not negative is not negative.
pub proof fn lemma_mul_nonnegative(a: int, b: int)
    requires
        a >= 0,
        b >= 0,
    ensures
        mul_raw(a, b) >= 0,
{
    assert(a * b >= 0) by (nonlinear_arith)
        requires
            a >= 0,
            b >= 0,
    ;
    assert((a * b) / 1_000_000 >= 0);
}

/// The quotient of a number that is not negative by a positive one is not negative.
pub proof fn lemma_div_nonnegative(a: int, b: int)
    requires
        a >= 0,
        b > 0,
    ensures
        div_raw(a, b) >= 0,
{
    assert(a * SCALE as int >= 0);
    assert((a * SCALE as int) / b >= 0) by (nonlinear_arith)
        requires
            a * SCALE as int >= 0,
            b > 0,
    ;
}

/// A fixed-point number; `raw` counts millionths.
#[derive(Clone, Copy, PartialEq, Eq, Debug, Structural)]
pub struct Fixed {
    pub raw: i64,
}

impl View for Fixed {
    type V = int;

    open spec fn view(&self) -> int {
        self.raw as int
    }
}

impl Fixed {
    /// The number with the given count of millionths.
    pub fn from_raw(raw: i64) -> (r: Fixed)
        ensures
            r@ == raw,
    {
        Fixed { raw }
    }

    /// The whole number `n`, pinned to the representable range.
    pub fn from_int(n: i64) -> (r: Fixed)
        ensures
            r@ == saturate(n * SCALE),
    {
        Fixed::from_wide(n as i128 * SCALE as i128)
    }

    /// Zero.
    pub fn zero() -> (r: Fixed)
        ensures
            r@ == 0,
    {
        Fixed { raw: 0 }
    }

    /// One.
    pub fn one() -> (r: Fixed)
        ensures
            r@ == SCALE,
    {
        Fixed { raw: SCALE }
    }

    /// The count of millionths.
    pub fn raw(self) -> (r: i64)
        ensures
            r == self@,
    {
        self.raw
    }

    /// Pins a wide raw value to the representable range.
    fn from_wide(v: i128) -> (r: Fixed)
        ensures
            r@ == saturate(v as int),
    {
        if v < i64::MIN as i128 {
            Fixed { raw: i64::MIN }
        } else if v > i64::MAX as i128 {
            Fixed { raw: i64::MAX }
        } else {
            Fixed { raw: v as i64 }
        }
    }

    /// Saturating sum.
    pub fn add(self, rhs: Fixed) -> (r: Fixed)
        ensures
            r@ == add_raw(self@, rhs@),
    {
        Fixed::from_wide(self.raw as i128 + rhs.raw as i128)
    }

    /// Saturating difference.
    pub fn sub(self, rhs: Fixed) -> (r: Fixed)
        ensures
            r@ == sub_raw(self@, rhs@),
    {
        Fixed::from_wide(self.raw as i128 - rhs.raw as i128)
    }

    /// Saturating negation.
    pub fn neg(self) -> (r: Fixed)
        ensures
            r@ == neg_raw(self@),
    {
        Fixed::from_wide(-(self.raw as i128))
    }

    /// Saturating absolute value.
    pub fn abs(self) -> (r: Fixed)
        ensures
            r@ == abs_raw(self@),
    {
        if self.raw < 0 {
            self.neg()
        } else {
            self
        }
    }

    /// Product, rounded toward zero and saturating.
    pub fn mul(self, rhs: Fixed) -> (r: Fixed)
        ensures
            r@ == mul_raw(self@, rhs@),
    {
        let a: i128 = self.raw as i128;
        let b: i128 = rhs.raw as i128;
        assert(-0x4000_0000_0000_0000_0000_0000_0000_0000 <= a * b
            <= 0x4000_0000_0000_0000_0000_0000_0000_0000) by (nonlinear_arith)
            requires
                -0x8000_0000_0000_0000 <= a <= 0x8000_0000_0000_0000,
                -0x8000_0000_0000_0000 <= b <= 0x8000_0000_0000_0000,
        ;
        Fixed::from_wide((a * b) / (SCALE as i128))
    }

    /// Quotient, rounded toward zero and saturating; see [`div_raw`] for a zero divisor.
    pub fn div(self, rhs: Fixed) -> (r: Fixed)
        ensures
            r@ == div_raw(self@, rhs@),
    {
        if rhs.raw == 0 {
            if self.raw > 0 {
                Fixed { raw: i64::MAX }
            } else if self.raw < 0 {
                Fixed { raw: i64::MIN }
            } else {
                Fixed { raw: 0 }
            }
        } else {
            let a: i128 = self.raw as i128 * SCALE as i128;
            let b: i128 = rhs.raw as i128;
            if b > 0 {
                Fixed::from_wide(a / b)
            } else {
                Fixed::from_wide((-a) / (-b))
            }
        }
    }

    /// The smaller of `self` and `rhs`.
    pub fn min(self, rhs: Fixed) -> (r: Fixed)
        ensures
            r@ == min_raw(self@, rhs@),
    {
        if self.raw <= rhs.raw {
            self
        } else {
            rhs
        }
    }

    /// The larger of `self` and `rhs`.
    pub fn max(self, rhs: Fixed) -> (r: Fixed)
        ensures
            r@ == max_raw(self@, rhs@),
    {
        if self.raw >= rhs.raw {
            self
        } else {
            rhs
        }
    }

    /// `self` limited to `[lo, hi]`.
    pub fn clamp(self, lo: Fixed, hi: Fixed) -> (r: Fixed)
        requires
            lo@ <= hi@,
        ensures
            r@ == clamp_raw(self@, lo@, hi@),
    {
        if self.raw < lo.raw {
            lo
        } else if self.raw > hi.raw {
            hi
        } else {
            self
        }
    }
}

} // verus!
