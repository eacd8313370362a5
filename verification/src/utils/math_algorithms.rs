//! Interpolation and angle arithmetic on fixed-point numbers.
//!
//! Angles are in radians. A half turn is [`PI_RAW`] millionths of a radian, and
//! wrapping is exact with respect to that value.
use vstd::prelude::*;
use vstd::arithmetic::div_mod::lemma_fundamental_div_mod;
use vstd::arithmetic::div_mod::lemma_fundamental_div_mod_converse_mod;
use crate::utils::fixed::{
    Fixed, SCALE, abs_raw, add_raw, clamp_raw, div_raw, lemma_mul_one, lemma_mul_zero, mul_raw,
    saturate, sub_raw,
};
use crate::utils::quat::{Quat, QuatRaw, q_normalize, q_xyz};
use crate::utils::vector::{Vec2, Vec2Raw, Vec3, Vec3Raw, v3_dot, v3_scale};

verus! {

/// A half turn, in millionths of a radian.
pub const PI_RAW: i64 = 3_141_593;

/// Raw radians of an angle given in raw degrees.
pub open spec fn to_radians_raw(degrees: int) -> int {
    div_raw(mul_raw(degrees, PI_RAW as int), 180 * SCALE)
}

/// The plane vector `v` turned by the angle whose cosine and sine are `cs` and `sn`.
pub open spec fn rotate_raw(v: Vec2Raw, cs: int, sn: int) -> Vec2Raw {
    Vec2Raw {
        x: sub_raw(mul_raw(v.x, cs), mul_raw(v.y, sn)),
        y: add_raw(mul_raw(v.x, sn), mul_raw(v.y, cs)),
    }
}

/// Raw value of the point that divides `[a, b]` in the ratio `t : 1 - t`.
pub open spec fn lerp_raw(a: int, b: int, t: int) -> int {
    add_raw(mul_raw(a, sub_raw(SCALE as int, t)), mul_raw(b, t))
}

/// Raw interpolant of `value` within `[in_min, in_max]`: zero for an empty input range.
pub open spec fn interpolant_raw(value: int, in_min: int, in_max: int, clamp: bool) -> int {
    let span = sub_raw(in_max, in_min);
    let t = if span == 0 {
        0
    } else {
        div_raw(sub_raw(value, in_min), span)
    };
    if clamp {
        clamp_raw(t, 0, SCALE as int)
    } else {
        t
    }
}

/// Raw value of `value` carried from the input range over to the output range.
pub open spec fn map_range_raw(
    value: int,
    in_min: int,
    in_max: int,
    out_min: int,
    out_max: int,
    clamp: bool,
) -> int {
    lerp_raw(out_min, out_max, interpolant_raw(value, in_min, in_max, clamp))
}

/// The representative of `value` modulo `end - start` that lies in `[start, end)`.
pub open spec fn wrap_raw(value: int, start: int, end: int) -> int {
    (value - start) % (end - start) + start
}

/// Raw signed angle from `current` to `target`, in `[-PI_RAW, PI_RAW)`.
pub open spec fn shortest_angle_raw(current: int, target: int) -> int {
    wrap_raw(target - current, -(PI_RAW as int), PI_RAW as int)
}

/// Raw signed step taken toward the target: at most `speed` long, never past
/// the target, in the direction of `delta`.
pub open spec fn angle_step_raw(delta: int, speed: int) -> int {
    let magnitude = abs_raw(if abs_raw(delta) <= speed { abs_raw(delta) } else { speed });
    if delta < 0 {
        -magnitude
    } else {
        magnitude
    }
}

/// Raw angle after moving `current` toward `target` by at most `speed`.
pub open spec fn change_angle_raw(current: int, target: int, speed: int) -> int {
    saturate(current + angle_step_raw(shortest_angle_raw(current, target), speed))
}

/// The shortest angle from an angle to itself is zero.
pub proof fn shortest_angle_to_self_is_zero(angle: int)
    ensures
        shortest_angle_raw(angle, angle) == 0,
{
}

/// Exchanging the two ends negates the shortest angle, and the angle lies in
/// `(-PI_RAW, PI_RAW]`, unless the ends are exactly half a turn apart: then
/// the shortest angle is `-PI_RAW` in both directions.
pub proof fn shortest_angle_is_antisymmetric(a: int, b: int)
    ensures
        shortest_angle_raw(a, b) != -PI_RAW ==> {
            &&& shortest_angle_raw(b, a) == -shortest_angle_raw(a, b)
            &&& -PI_RAW < shortest_angle_raw(a, b) <= PI_RAW
        },
        shortest_angle_raw(a, b) == -PI_RAW ==> shortest_angle_raw(b, a) == -PI_RAW,
{
    let turn = 2 * PI_RAW as int;
    let forth = shortest_angle_raw(a, b);
    let q = (b - a + PI_RAW) / turn;
    lemma_fundamental_div_mod(b - a + PI_RAW, turn);
    assert(b - a + PI_RAW == turn * q + (forth + PI_RAW));
    if forth != -PI_RAW {
        assert(a - b + PI_RAW == (-q) * turn + (PI_RAW - forth)) by (nonlinear_arith)
            requires
                b - a + PI_RAW == turn * q + (forth + PI_RAW),
        ;
        lemma_fundamental_div_mod_converse_mod(a - b + PI_RAW, turn, -q, PI_RAW - forth);
    } else {
        assert(a - b + PI_RAW == (1 - q) * turn + 0) by (nonlinear_arith)
            requires
                b - a + PI_RAW == turn * q + (forth + PI_RAW),
                forth == -PI_RAW,
                turn == 2 * PI_RAW,
        ;
        lemma_fundamental_div_mod_converse_mod(a - b + PI_RAW, turn, 1 - q, 0);
    }
}

/// What is left of the way after one step without saturation at a speed that is
/// not negative: the old shortest angle less the step.
pub proof fn lemma_remaining_angle(current: int, target: int, speed: int)
    requires
        speed >= 0,
        i64::MIN <= current + angle_step_raw(shortest_angle_raw(current, target), speed)
            <= i64::MAX,
    ensures
        shortest_angle_raw(change_angle_raw(current, target, speed), target)
            == shortest_angle_raw(current, target) - angle_step_raw(
            shortest_angle_raw(current, target),
            speed,
        ),
{
}

/// At a speed of at least half a turn the new angle is the target, up to whole
/// turns, as long as the sum is representable.
pub proof fn change_angle_at_full_speed_arrives(current: int, target: int, speed: int)
    requires
        speed >= PI_RAW,
        i64::MIN <= current + shortest_angle_raw(current, target) <= i64::MAX,
    ensures
        change_angle_raw(current, target, speed) == current + shortest_angle_raw(current, target),
        shortest_angle_raw(change_angle_raw(current, target, speed), target) == 0,
{
    lemma_remaining_angle(current, target, speed);
}

/// A step at a speed that is not negative never leaves more of the way than
/// there was, as long as the new angle is representable.
pub proof fn change_angle_never_recedes(current: int, target: int, speed: int)
    requires
        speed >= 0,
        i64::MIN <= current + angle_step_raw(shortest_angle_raw(current, target), speed)
            <= i64::MAX,
    ensures
        abs_raw(shortest_angle_raw(change_angle_raw(current, target, speed), target)) <= abs_raw(
            shortest_angle_raw(current, target),
        ),
{
    lemma_remaining_angle(current, target, speed);
}

/// The part of the rotation `q` that turns about the unit vector `axis`: the
/// vector part of `q` is projected onto the axis and the result is normalized.
pub open spec fn quat_component_raw(q: QuatRaw, axis: Vec3Raw) -> QuatRaw {
    let along = v3_scale(axis, v3_dot(q_xyz(q), axis));
    q_normalize(QuatRaw { x: along.x, y: along.y, z: along.z, w: q.w })
}

/// Converts degrees to radians.
pub fn to_radians(degrees: Fixed) -> (r: Fixed)
    ensures
        r@ == to_radians_raw(degrees@),
{
    degrees.mul(Fixed::from_raw(PI_RAW)).div(Fixed::from_int(180))
}

/// Linear interpolation `a * (1 - t) + b * t`; the interpolant is not clamped.
pub fn lerp(v0: Fixed, v1: Fixed, t: Fixed) -> (r: Fixed)
    ensures
        r@ == lerp_raw(v0@, v1@, t@),
        t@ == 0 ==> r == v0,
        t@ == SCALE ==> r == v1,
{
    proof {
        lemma_mul_one(v0@);
        lemma_mul_one(v1@);
        lemma_mul_zero(v0@);
        lemma_mul_zero(v1@);
    }
    v0.mul(Fixed::one().sub(t)).add(v1.mul(t))
}

/// Maps `value` from the input range to the output range, optionally clamping
/// it to the output range. An empty input range maps everything to `out_min`.
pub fn map_num_range(
    value: Fixed,
    in_min: Fixed,
    in_max: Fixed,
    out_min: Fixed,
    out_max: Fixed,
    clamp: bool,
) -> (r: Fixed)
    ensures
        r@ == map_range_raw(value@, in_min@, in_max@, out_min@, out_max@, clamp),
{
    let span = in_max.sub(in_min);
    let t = if span.raw == 0 {
        Fixed::zero()
    } else {
        value.sub(in_min).div(span)
    };
    let t = if clamp {
        t.clamp(Fixed::zero(), Fixed::one())
    } else {
        t
    };
    lerp(out_min, out_max, t)
}

/// Extracts the rotation about `axis` from `rotation`. Both are expected to
/// have length one. A rotation with no part about the axis gives the identity.
pub fn quat_component(rotation: Quat, axis: Vec3) -> (r: Quat)
    ensures
        r@ == quat_component_raw(rotation@, axis@),
{
    let along = axis.scale(rotation.xyz().dot(axis));
    Quat::from_xyzw(along.x, along.y, along.z, rotation.w).normalize()
}

/// The vector `v` rotated by an angle, given by its cosine `cs` and its sine `sn`.
pub fn rotate_vec_2d(v: Vec2, cs: Fixed, sn: Fixed) -> (r: Vec2)
    ensures
        r@ == rotate_raw(v@, cs@, sn@),
{
    Vec2::new(v.x.mul(cs).sub(v.y.mul(sn)), v.x.mul(sn).add(v.y.mul(cs)))
}

/// Euclidean remainder of `a` by a positive modulus.
fn euclid_rem(a: i128, m: i128) -> (r: i128)
    requires
        m > 0,
        a > i128::MIN,
    ensures
        r == (a as int) % (m as int),
        0 <= r < m,
{
    if a >= 0 {
        a % m
    } else {
        let n: i128 = (-a) % m;
        proof {
            let q = (-a as int) / (m as int);
            lemma_fundamental_div_mod(-a as int, m as int);
            if n == 0 {
                assert(a as int == (-q) * m + 0) by (nonlinear_arith)
                    requires
                        -a as int == m * q + 0,
                ;
                lemma_fundamental_div_mod_converse_mod(a as int, m as int, -q, 0);
            } else {
                assert(a as int == (-q - 1) * m + (m - n)) by (nonlinear_arith)
                    requires
                        -a as int == m * q + n,
                ;
                lemma_fundamental_div_mod_converse_mod(a as int, m as int, -q - 1, m - n);
            }
        }
        if n == 0 {
            0
        } else {
            m - n
        }
    }
}

/// Wraps a wide raw value into `[start, end)`.
fn wrap_wide(value: i128, start: i64, end: i64) -> (r: i64)
    requires
        start < end,
        -0x1_0000_0000_0000_0000 <= value <= 0x1_0000_0000_0000_0000,
    ensures
        r == wrap_raw(value as int, start as int, end as int),
        start <= r < end,
{
    let span: i128 = end as i128 - start as i128;
    let m: i128 = euclid_rem(value - start as i128, span);
    (m + start as i128) as i64
}

/// Brings `value` into `[start, end)` by adding or removing whole multiples of
/// the range's length, instead of saturating.
pub fn wrapping_clamp(value: Fixed, start: Fixed, end: Fixed) -> (r: Fixed)
    requires
        start@ < end@,
    ensures
        r@ == wrap_raw(value@, start@, end@),
        start@ <= r@ < end@,
{
    Fixed { raw: wrap_wide(value.raw as i128, start.raw, end.raw) }
}

/// Signed shortest angle from `current` to `target`.
pub fn shortest_angle(current: Fixed, target: Fixed) -> (r: Fixed)
    ensures
        r@ == shortest_angle_raw(current@, target@),
        -PI_RAW <= r@ < PI_RAW,
{
    Fixed { raw: wrap_wide(target.raw as i128 - current.raw as i128, -PI_RAW, PI_RAW) }
}

/// Moves `current` toward `target` by at most `speed` and returns the new angle.
pub fn change_angle_constant_speed(current: Fixed, target: Fixed, speed: Fixed) -> (r: Fixed)
    ensures
        r@ == change_angle_raw(current@, target@, speed@),
        speed@ == 0 ==> r == current,
{
    let delta = shortest_angle(current, target);
    let magnitude = delta.abs().min(speed).abs();
    let step = if delta.raw < 0 {
        magnitude.neg()
    } else {
        magnitude
    };
    current.add(step)
}

} // verus!
