//! Two- and three-component vectors of fixed-point numbers.
//!
//! Every operation is built from the saturating, truncating operations of
//! [`Fixed`], applied in the order the formulas below give.
use vstd::prelude::*;
use crate::utils::fixed::{Fixed, add_raw, div_raw, mul_raw, neg_raw, saturate, sub_raw};
use crate::utils::sqrt::{isqrt, sqrt_floor};

verus! {

/// Mathematical model of a [`Vec2`]: its raw components.
pub struct Vec2Raw {
    pub x: int,
    pub y: int,
}

/// Mathematical model of a [`Vec3`]: its raw components.
pub struct Vec3Raw {
    pub x: int,
    pub y: int,
    pub z: int,
}

/// Component-wise sum.
pub open spec fn v2_add(a: Vec2Raw, b: Vec2Raw) -> Vec2Raw {
    Vec2Raw { x: add_raw(a.x, b.x), y: add_raw(a.y, b.y) }
}

/// Each component divided by `k`.
pub open spec fn v2_div(a: Vec2Raw, k: int) -> Vec2Raw {
    Vec2Raw { x: div_raw(a.x, k), y: div_raw(a.y, k) }
}

/// Each component multiplied by `k`.
pub open spec fn v2_scale(a: Vec2Raw, k: int) -> Vec2Raw {
    Vec2Raw { x: mul_raw(a.x, k), y: mul_raw(a.y, k) }
}

/// Component-wise sum.
pub open spec fn v3_add(a: Vec3Raw, b: Vec3Raw) -> Vec3Raw {
    Vec3Raw { x: add_raw(a.x, b.x), y: add_raw(a.y, b.y), z: add_raw(a.z, b.z) }
}

/// Component-wise difference.
pub open spec fn v3_sub(a: Vec3Raw, b: Vec3Raw) -> Vec3Raw {
    Vec3Raw { x: sub_raw(a.x, b.x), y: sub_raw(a.y, b.y), z: sub_raw(a.z, b.z) }
}

/// Component-wise negation.
pub open spec fn v3_neg(a: Vec3Raw) -> Vec3Raw {
    Vec3Raw { x: neg_raw(a.x), y: neg_raw(a.y), z: neg_raw(a.z) }
}

/// Each component multiplied by `k`.
pub open spec fn v3_scale(a: Vec3Raw, k: int) -> Vec3Raw {
    Vec3Raw { x: mul_raw(a.x, k), y: mul_raw(a.y, k), z: mul_raw(a.z, k) }
}

/// Each component divided by `k`.
pub open spec fn v3_div(a: Vec3Raw, k: int) -> Vec3Raw {
    Vec3Raw { x: div_raw(a.x, k), y: div_raw(a.y, k), z: div_raw(a.z, k) }
}

/// Component-wise product.
pub open spec fn v3_mul(a: Vec3Raw, b: Vec3Raw) -> Vec3Raw {
    Vec3Raw { x: mul_raw(a.x, b.x), y: mul_raw(a.y, b.y), z: mul_raw(a.z, b.z) }
}

/// Dot product.
pub open spec fn v3_dot(a: Vec3Raw, b: Vec3Raw) -> int {
    add_raw(add_raw(mul_raw(a.x, b.x), mul_raw(a.y, b.y)), mul_raw(a.z, b.z))
}

/// Cross product.
pub open spec fn v3_cross(a: Vec3Raw, b: Vec3Raw) -> Vec3Raw {
    Vec3Raw {
        x: sub_raw(mul_raw(a.y, b.z), mul_raw(a.z, b.y)),
        y: sub_raw(mul_raw(a.z, b.x), mul_raw(a.x, b.z)),
        z: sub_raw(mul_raw(a.x, b.y), mul_raw(a.y, b.x)),
    }
}

/// Euclidean length: the floor of the exact root of the sum of squares.
pub open spec fn v3_length(a: Vec3Raw) -> int {
    saturate(sqrt_floor(a.x * a.x + a.y * a.y + a.z * a.z))
}

/// The vector divided by its length, or zero where the length rounds to zero.
pub open spec fn v3_normalize_or_zero(a: Vec3Raw) -> Vec3Raw {
    let len = v3_length(a);
    if len == 0 {
        Vec3Raw { x: 0, y: 0, z: 0 }
    } else {
        v3_div(a, len)
    }
}

/// Projection of `a` onto the line along `b`.
pub open spec fn v3_project_onto(a: Vec3Raw, b: Vec3Raw) -> Vec3Raw {
    v3_scale(b, div_raw(v3_dot(a, b), v3_dot(b, b)))
}

/// The square of an `i64`, widened.
pub fn square_wide(v: i64) -> (r: u128)
    ensures
        r == v * v,
        r <= 0x4000_0000_0000_0000_0000_0000_0000_0000,
{
    let a: i128 = v as i128;
    assert(0 <= a * a <= 0x4000_0000_0000_0000_0000_0000_0000_0000) by (nonlinear_arith)
        requires
            -0x8000_0000_0000_0000 <= a <= 0x8000_0000_0000_0000,
    ;
    (a * a) as u128
}

/// Pins an unsigned root to the range of a [`Fixed`].
pub fn fixed_from_root(root: u64) -> (r: Fixed)
    ensures
        r@ == saturate(root as int),
{
    if root > i64::MAX as u64 {
        Fixed { raw: i64::MAX }
    } else {
        Fixed { raw: root as i64 }
    }
}

/// A vector in the plane.
#[derive(Clone, Copy, PartialEq, Eq, Debug, Structural)]
pub struct Vec2 {
    pub x: Fixed,
    pub y: Fixed,
}

impl View for Vec2 {
    type V = Vec2Raw;

    open spec fn view(&self) -> Vec2Raw {
        Vec2Raw { x: self.x@, y: self.y@ }
    }
}

impl Vec2 {
    /// The vector with the given components.
    pub fn new(x: Fixed, y: Fixed) -> (r: Vec2)
        ensures
            r.x == x,
            r.y == y,
    {
        Vec2 { x, y }
    }

    /// The zero vector.
    pub fn zero() -> (r: Vec2)
        ensures
            r@ == (Vec2Raw { x: 0, y: 0 }),
    {
        Vec2 { x: Fixed::zero(), y: Fixed::zero() }
    }

    /// Component-wise sum.
    pub fn add(self, rhs: Vec2) -> (r: Vec2)
        ensures
            r@ == v2_add(self@, rhs@),
    {
        Vec2 { x: self.x.add(rhs.x), y: self.y.add(rhs.y) }
    }

    /// Each component multiplied by `k`.
    pub fn scale(self, k: Fixed) -> (r: Vec2)
        ensures
            r@ == v2_scale(self@, k@),
    {
        Vec2 { x: self.x.mul(k), y: self.y.mul(k) }
    }

    /// Each component divided by `k`.
    pub fn div(self, k: Fixed) -> (r: Vec2)
        ensures
            r@ == v2_div(self@, k@),
    {
        Vec2 { x: self.x.div(k), y: self.y.div(k) }
    }
}

/// A vector in space.
#[derive(Clone, Copy, PartialEq, Eq, Debug, Structural)]
pub struct Vec3 {
    pub x: Fixed,
    pub y: Fixed,
    pub z: Fixed,
}

impl View for Vec3 {
    type V = Vec3Raw;

    open spec fn view(&self) -> Vec3Raw {
        Vec3Raw { x: self.x@, y: self.y@, z: self.z@ }
    }
}

impl Vec3 {
    /// The vector with the given components.
    pub fn new(x: Fixed, y: Fixed, z: Fixed) -> (r: Vec3)
        ensures
            r.x == x,
            r.y == y,
            r.z == z,
    {
        Vec3 { x, y, z }
    }

    /// The zero vector.
    pub fn zero() -> (r: Vec3)
        ensures
            r@ == (Vec3Raw { x: 0, y: 0, z: 0 }),
    {
        Vec3 { x: Fixed::zero(), y: Fixed::zero(), z: Fixed::zero() }
    }

    /// The projection onto the horizontal plane, as a plane vector `(x, z)`.
    pub fn xz(self) -> (r: Vec2)
        ensures
            r.x == self.x,
            r.y == self.z,
    {
        Vec2 { x: self.x, y: self.z }
    }

    /// Component-wise sum.
    pub fn add(self, rhs: Vec3) -> (r: Vec3)
        ensures
            r@ == v3_add(self@, rhs@),
    {
        Vec3 { x: self.x.add(rhs.x), y: self.y.add(rhs.y), z: self.z.add(rhs.z) }
    }

    /// Component-wise difference.
    pub fn sub(self, rhs: Vec3) -> (r: Vec3)
        ensures
            r@ == v3_sub(self@, rhs@),
    {
        Vec3 { x: self.x.sub(rhs.x), y: self.y.sub(rhs.y), z: self.z.sub(rhs.z) }
    }

    /// Component-wise negation.
    pub fn neg(self) -> (r: Vec3)
        ensures
            r@ == v3_neg(self@),
    {
        Vec3 { x: self.x.neg(), y: self.y.neg(), z: self.z.neg() }
    }

    /// Each component multiplied by `k`.
    pub fn scale(self, k: Fixed) -> (r: Vec3)
        ensures
            r@ == v3_scale(self@, k@),
    {
        Vec3 { x: self.x.mul(k), y: self.y.mul(k), z: self.z.mul(k) }
    }

    /// Each component divided by `k`.
    pub fn div(self, k: Fixed) -> (r: Vec3)
        ensures
            r@ == v3_div(self@, k@),
    {
        Vec3 { x: self.x.div(k), y: self.y.div(k), z: self.z.div(k) }
    }

    /// Component-wise product.
    pub fn mul(self, rhs: Vec3) -> (r: Vec3)
        ensures
            r@ == v3_mul(self@, rhs@),
    {
        Vec3 { x: self.x.mul(rhs.x), y: self.y.mul(rhs.y), z: self.z.mul(rhs.z) }
    }

    /// Dot product.
    pub fn dot(self, rhs: Vec3) -> (r: Fixed)
        ensures
            r@ == v3_dot(self@, rhs@),
    {
        self.x.mul(rhs.x).add(self.y.mul(rhs.y)).add(self.z.mul(rhs.z))
    }

    /// Cross product.
    pub fn cross(self, rhs: Vec3) -> (r: Vec3)
        ensures
            r@ == v3_cross(self@, rhs@),
    {
        Vec3 {
            x: self.y.mul(rhs.z).sub(self.z.mul(rhs.y)),
            y: self.z.mul(rhs.x).sub(self.x.mul(rhs.z)),
            z: self.x.mul(rhs.y).sub(self.y.mul(rhs.x)),
        }
    }

    /// Euclidean length.
    pub fn length(self) -> (r: Fixed)
        ensures
            r@ == v3_length(self@),
    {
        let sum: u128 = square_wide(self.x.raw) + square_wide(self.y.raw) + square_wide(
            self.z.raw,
        );
        fixed_from_root(isqrt(sum))
    }

    /// The vector divided by its length, or zero where the length rounds to zero.
    pub fn normalize_or_zero(self) -> (r: Vec3)
        ensures
            r@ == v3_normalize_or_zero(self@),
    {
        let len = self.length();
        if len.raw == 0 {
            Vec3::zero()
        } else {
            self.div(len)
        }
    }

    /// Projection of `self` onto the line along `rhs`.
    pub fn project_onto(self, rhs: Vec3) -> (r: Vec3)
        ensures
            r@ == v3_project_onto(self@, rhs@),
    {
        rhs.scale(self.dot(rhs).div(rhs.dot(rhs)))
    }
}

} // verus!
