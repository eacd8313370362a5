//! Rotations in space as quaternions of fixed-point numbers.
use vstd::prelude::*;
use crate::utils::fixed::{Fixed, SCALE, add_raw, div_raw, mul_raw, neg_raw, saturate, sub_raw};
use crate::utils::fixed::{lemma_div_of_zero, lemma_mul_one, lemma_mul_zero};
use crate::utils::sqrt::{isqrt, lemma_sqrt_floor_is, lemma_sqrt_floor_of_square, sqrt_floor};
use crate::utils::vector::{
    Vec3, Vec3Raw, fixed_from_root, square_wide, v3_add, v3_cross, v3_dot, v3_scale,
};

verus! {

/// Mathematical model of a [`Quat`]: its raw components.
pub struct QuatRaw {
    pub x: int,
    pub y: int,
    pub z: int,
    pub w: int,
}

/// The rotation that changes nothing.
pub open spec fn q_identity() -> QuatRaw {
    QuatRaw { x: 0, y: 0, z: 0, w: SCALE as int }
}

/// The vector part.
pub open spec fn q_xyz(q: QuatRaw) -> Vec3Raw {
    Vec3Raw { x: q.x, y: q.y, z: q.z }
}

/// Hamilton product: the rotation `b` followed by the rotation `a`.
pub open spec fn q_mul(a: QuatRaw, b: QuatRaw) -> QuatRaw {
    QuatRaw {
        x: sub_raw(
            add_raw(add_raw(mul_raw(a.w, b.x), mul_raw(a.x, b.w)), mul_raw(a.y, b.z)),
            mul_raw(a.z, b.y),
        ),
        y: add_raw(
            add_raw(sub_raw(mul_raw(a.w, b.y), mul_raw(a.x, b.z)), mul_raw(a.y, b.w)),
            mul_raw(a.z, b.x),
        ),
        z: add_raw(
            sub_raw(add_raw(mul_raw(a.w, b.z), mul_raw(a.x, b.y)), mul_raw(a.y, b.x)),
            mul_raw(a.z, b.w),
        ),
        w: sub_raw(
            sub_raw(sub_raw(mul_raw(a.w, b.w), mul_raw(a.x, b.x)), mul_raw(a.y, b.y)),
            mul_raw(a.z, b.z),
        ),
    }
}

/// The opposite rotation of a unit quaternion.
pub open spec fn q_conjugate(q: QuatRaw) -> QuatRaw {
    QuatRaw { x: neg_raw(q.x), y: neg_raw(q.y), z: neg_raw(q.z), w: q.w }
}

/// The vector `v` rotated by `q`:
/// `v (w² - b·b) + 2 b (v·b) + 2 w (b × v)` with `b` the vector part of `q`.
pub open spec fn q_rotate(q: QuatRaw, v: Vec3Raw) -> Vec3Raw {
    let b = q_xyz(q);
    let along = v3_dot(v, b);
    v3_add(
        v3_add(
            v3_scale(v, sub_raw(mul_raw(q.w, q.w), v3_dot(b, b))),
            v3_scale(b, add_raw(along, along)),
        ),
        v3_scale(v3_cross(b, v), add_raw(q.w, q.w)),
    )
}

/// Euclidean length of the four components.
pub open spec fn q_length(q: QuatRaw) -> int {
    saturate(sqrt_floor(q.x * q.x + q.y * q.y + q.z * q.z + q.w * q.w))
}

/// The quaternion divided by its length; the identity where the length rounds to zero.
pub open spec fn q_normalize(q: QuatRaw) -> QuatRaw {
    let len = q_length(q);
    if len == 0 {
        q_identity()
    } else {
        QuatRaw {
            x: div_raw(q.x, len),
            y: div_raw(q.y, len),
            z: div_raw(q.z, len),
            w: div_raw(q.w, len),
        }
    }
}

/// The identity rotates nothing.
pub proof fn lemma_identity_rotates_nothing(v: Vec3Raw)
    requires
        i64::MIN <= v.x <= i64::MAX,
        i64::MIN <= v.y <= i64::MAX,
        i64::MIN <= v.z <= i64::MAX,
    ensures
        q_rotate(q_identity(), v) == v,
{
    let b = q_xyz(q_identity());
    lemma_mul_zero(v.x);
    lemma_mul_zero(v.y);
    lemma_mul_zero(v.z);
    lemma_mul_zero(0);
    lemma_mul_one(SCALE as int);
    lemma_mul_one(v.x);
    lemma_mul_one(v.y);
    lemma_mul_one(v.z);
    assert(v3_dot(v, b) == 0);
    assert(v3_dot(b, b) == 0);
    assert(v3_cross(b, v) == (Vec3Raw { x: 0, y: 0, z: 0 }));
    lemma_mul_zero(add_raw(SCALE as int, SCALE as int));
    assert(v3_scale(v, SCALE as int) == v);
    assert(v3_scale(b, 0) == (Vec3Raw { x: 0, y: 0, z: 0 }));
}

/// The identity followed by the identity is the identity.
pub proof fn lemma_identity_squared()
    ensures
        q_mul(q_identity(), q_identity()) == q_identity(),
{
    lemma_mul_zero(0);
    lemma_mul_zero(SCALE as int);
    lemma_mul_one(SCALE as int);
}

/// The identity has length one and is its own normal form.
pub proof fn lemma_identity_is_normal()
    ensures
        q_normalize(q_identity()) == q_identity(),
{
    let q = q_identity();
    assert(0int * 0 == 0);
    assert(1_000_000int * 1_000_000 == 1_000_000_000_000) by (nonlinear_arith);
    assert(q.x * q.x + q.y * q.y + q.z * q.z + q.w * q.w == 1_000_000int * 1_000_000);
    lemma_sqrt_floor_of_square(1_000_000);
    assert(q_length(q) == 1_000_000);
    lemma_div_of_zero(1_000_000);
    assert(div_raw(1_000_000, 1_000_000) == 1_000_000);
}

/// A quaternion; a rotation when its length is one.
#[derive(Clone, Copy, PartialEq, Eq, Debug, Structural)]
pub struct Quat {
    pub x: Fixed,
    pub y: Fixed,
    pub z: Fixed,
    pub w: Fixed,
}

impl View for Quat {
    type V = QuatRaw;

    open spec fn view(&self) -> QuatRaw {
        QuatRaw { x: self.x@, y: self.y@, z: self.z@, w: self.w@ }
    }
}

impl Quat {
    /// The quaternion with the given components.
    pub fn from_xyzw(x: Fixed, y: Fixed, z: Fixed, w: Fixed) -> (r: Quat)
        ensures
            r.x == x,
            r.y == y,
            r.z == z,
            r.w == w,
    {
        Quat { x, y, z, w }
    }

    /// The rotation that changes nothing.
    pub fn identity() -> (r: Quat)
        ensures
            r@ == q_identity(),
    {
        Quat { x: Fixed::zero(), y: Fixed::zero(), z: Fixed::zero(), w: Fixed::one() }
    }

    /// The vector part.
    pub fn xyz(self) -> (r: Vec3)
        ensures
            r@ == q_xyz(self@),
    {
        Vec3 { x: self.x, y: self.y, z: self.z }
    }

    /// Hamilton product: the rotation `rhs` followed by the rotation `self`.
    pub fn mul(self, rhs: Quat) -> (r: Quat)
        ensures
            r@ == q_mul(self@, rhs@),
    {
        Quat {
            x: self.w.mul(rhs.x).add(self.x.mul(rhs.w)).add(self.y.mul(rhs.z)).sub(
                self.z.mul(rhs.y),
            ),
            y: self.w.mul(rhs.y).sub(self.x.mul(rhs.z)).add(self.y.mul(rhs.w)).add(
                self.z.mul(rhs.x),
            ),
            z: self.w.mul(rhs.z).add(self.x.mul(rhs.y)).sub(self.y.mul(rhs.x)).add(
                self.z.mul(rhs.w),
            ),
            w: self.w.mul(rhs.w).sub(self.x.mul(rhs.x)).sub(self.y.mul(rhs.y)).sub(
                self.z.mul(rhs.z),
            ),
        }
    }

    /// The opposite rotation of a unit quaternion.
    pub fn conjugate(self) -> (r: Quat)
        ensures
            r@ == q_conjugate(self@),
    {
        Quat { x: self.x.neg(), y: self.y.neg(), z: self.z.neg(), w: self.w }
    }

    /// The vector `v` rotated by `self`.
    pub fn mul_vec3(self, v: Vec3) -> (r: Vec3)
        ensures
            r@ == q_rotate(self@, v@),
    {
        let b = self.xyz();
        let along = v.dot(b);
        v.scale(self.w.mul(self.w).sub(b.dot(b))).add(b.scale(along.add(along))).add(
            b.cross(v).scale(self.w.add(self.w)),
        )
    }

    /// Euclidean length of the four components.
    pub fn length(self) -> (r: Fixed)
        ensures
            r@ == q_length(self@),
    {
        let vector: u128 = square_wide(self.x.raw) + square_wide(self.y.raw) + square_wide(
            self.z.raw,
        );
        let scalar: u128 = square_wide(self.w.raw);
        if vector > u128::MAX - scalar {
            proof {
                let whole = 0x1_0000_0000_0000_0000int;
                assert(whole * whole == 0x1_0000_0000_0000_0000_0000_0000_0000_0000int
                    && (whole + 1) * (whole + 1) > whole * whole) by (nonlinear_arith)
                    requires
                        whole == 0x1_0000_0000_0000_0000int,
                ;
                lemma_sqrt_floor_is(vector + scalar, whole);
            }
            Fixed { raw: i64::MAX }
        } else {
            fixed_from_root(isqrt(vector + scalar))
        }
    }

    /// The quaternion divided by its length; the identity where the length rounds to zero.
    pub fn normalize(self) -> (r: Quat)
        ensures
            r@ == q_normalize(self@),
    {
        let len = self.length();
        if len.raw == 0 {
            Quat::identity()
        } else {
            Quat {
                x: self.x.div(len),
                y: self.y.div(len),
                z: self.z.div(len),
                w: self.w.div(len),
            }
        }
    }
}

} // verus!
