//! Equilibrium of the hover controller: a craft that sits upright and still
//! is carried by exactly its weight.
use vstd::prelude::*;
use crate::gameplay::objects::controller::{
    ExternalForceRaw, K_FORCE_RAW, PROBE_REACH_RAW, PhysicalStateRaw, ProbeHitsRaw,
    RAY_COUNT_RAW, RAY_LENGTH_RAW, air_drag_raw, drag_magnitude_raw, ef_add, ef_zero,
    half_size_raw, hover_force_raw, probe_contribution_raw, probe_direction_raw,
    probe_force_raw, probe_offset_raw, probe_position_raw, probe_sink_raw, up3,
    velocity_at_point_raw, yaw_torque_raw, zero3,
};
use crate::utils::fixed::{
    SCALE, abs_raw, div_raw, lemma_div_of_zero, lemma_mul_one, lemma_mul_zero, max_raw, mul_raw,
    sub_raw,
};
use crate::utils::math_algorithms::{quat_component_raw, shortest_angle_to_self_is_zero};
use crate::utils::quat::{
    lemma_identity_is_normal, lemma_identity_rotates_nothing, lemma_identity_squared,
    q_identity, q_normalize,
};
use crate::utils::sqrt::lemma_sqrt_floor_of_square;
use crate::utils::vector::{
    Vec3Raw, v3_add, v3_cross, v3_div, v3_dot, v3_mul, v3_project_onto, v3_scale, v3_sub,
};

verus! {

/// The body is upright and at rest, not too far from the origin and not too
/// heavy for the sums below to stay clear of saturation.
pub open spec fn upright_at_rest(body: PhysicalStateRaw) -> bool {
    &&& body.rotation == q_identity()
    &&& body.linvel == zero3()
    &&& body.angvel == zero3()
    &&& -1_000_000_000_000_000 <= body.translation.x <= 1_000_000_000_000_000
    &&& -1_000_000_000_000_000 <= body.translation.y <= 1_000_000_000_000_000
    &&& -1_000_000_000_000_000 <= body.translation.z <= 1_000_000_000_000_000
    &&& 0 <= body.mass <= 1_000_000_000_000
}

/// With no lean, an upright craft thrusts straight up.
pub proof fn lemma_upright_thrust_is_up()
    ensures
        probe_direction_raw(q_identity(), 0) == up3(),
{
    lemma_mul_zero(0);
    lemma_mul_zero(SCALE as int);
    assert(quat_component_raw(q_identity(), up3()) == q_normalize(q_identity()));
    lemma_identity_is_normal();
    lemma_identity_squared();
    lemma_identity_rotates_nothing(up3());
}

/// Where probe `index` sits relative to the center of an upright craft.
pub open spec fn upright_reach_raw(index: int) -> Vec3Raw {
    if index == 0 {
        Vec3Raw { x: 0, y: 0, z: -2_400_000 }
    } else if index == 1 {
        Vec3Raw { x: 0, y: 0, z: 2_400_000 }
    } else if index == 2 {
        Vec3Raw { x: -3_200_000, y: 0, z: 0 }
    } else {
        Vec3Raw { x: 3_200_000, y: 0, z: 0 }
    }
}

/// Torque of an upward force of raw size `f` at probe `index` of an upright craft.
pub open spec fn upright_lever_raw(index: int, f: int) -> Vec3Raw {
    if index == 0 {
        Vec3Raw { x: (2_400_000 * f) / 1_000_000, y: 0, z: 0 }
    } else if index == 1 {
        Vec3Raw { x: -((2_400_000 * f) / 1_000_000), y: 0, z: 0 }
    } else if index == 2 {
        Vec3Raw { x: 0, y: 0, z: -((3_200_000 * f) / 1_000_000) }
    } else {
        Vec3Raw { x: 0, y: 0, z: (3_200_000 * f) / 1_000_000 }
    }
}

/// The probes of an upright craft sit where [`upright_reach_raw`] says.
proof fn lemma_upright_position(body: PhysicalStateRaw, index: int)
    requires
        upright_at_rest(body),
        0 <= index < 4,
    ensures
        probe_position_raw(body, index) == v3_add(body.translation, upright_reach_raw(index)),
        v3_sub(probe_position_raw(body, index), body.translation) == upright_reach_raw(index),
{
    lemma_mul_zero(3_200_000);
    lemma_mul_zero(800_000);
    lemma_mul_zero(2_400_000);
    let reach = v3_mul(probe_offset_raw(index), v3_scale(half_size_raw(), PROBE_REACH_RAW as int));
    assert(v3_scale(half_size_raw(), PROBE_REACH_RAW as int) == (Vec3Raw {
        x: 3_200_000,
        y: 800_000,
        z: 2_400_000,
    }));
    lemma_mul_one(3_200_000);
    lemma_mul_one(2_400_000);
    assert(mul_raw(-(SCALE as int), 3_200_000) == -3_200_000) by {
        assert(-1_000_000int * 3_200_000 == -3_200_000_000_000);
    }
    assert(mul_raw(-(SCALE as int), 2_400_000) == -2_400_000) by {
        assert(-1_000_000int * 2_400_000 == -2_400_000_000_000);
    }
    assert(reach == upright_reach_raw(index));
    lemma_identity_rotates_nothing(reach);
}

/// An upward force at a probe of an upright craft twists it as
/// [`upright_lever_raw`] says.
proof fn lemma_upright_lever(index: int, f: int)
    requires
        0 <= index < 4,
        0 <= f <= 1_000_000_000_000_000,
    ensures
        v3_cross(upright_reach_raw(index), Vec3Raw { x: 0, y: f, z: 0 }) == upright_lever_raw(
            index,
            f,
        ),
{
    lemma_mul_zero(0);
    lemma_mul_zero(f);
    lemma_mul_zero(2_400_000);
    lemma_mul_zero(-2_400_000);
    lemma_mul_zero(3_200_000);
    lemma_mul_zero(-3_200_000);
    assert(mul_raw(2_400_000, f) == (2_400_000 * f) / 1_000_000);
    assert(mul_raw(-2_400_000, f) == -((2_400_000 * f) / 1_000_000));
    assert(mul_raw(3_200_000, f) == (3_200_000 * f) / 1_000_000);
    assert(mul_raw(-3_200_000, f) == -((3_200_000 * f) / 1_000_000));
}

/// No probe point of a craft at rest sinks, and so each probe pushes with the
/// baseline force, whatever it finds.
proof fn lemma_force_at_rest(
    body: PhysicalStateRaw,
    index: int,
    hit: Option<int>,
    gravity: int,
    dt: int,
)
    requires
        upright_at_rest(body),
        0 <= index < 4,
        0 <= gravity <= 1_000_000_000,
    ensures
        probe_force_raw(hit, probe_sink_raw(body, 0, index), gravity, dt) == gravity,
{
    lemma_upright_thrust_is_up();
    lemma_upright_position(body, index);
    let lever = upright_reach_raw(index);
    lemma_mul_zero(lever.x);
    lemma_mul_zero(lever.y);
    lemma_mul_zero(lever.z);
    let position = probe_position_raw(body, index);
    let velocity = velocity_at_point_raw(body.linvel, body.angvel, position, body.translation);
    assert(v3_cross(zero3(), lever) == zero3());
    assert(velocity == zero3());
    lemma_mul_zero(0);
    lemma_mul_zero(SCALE as int);
    lemma_mul_one(SCALE as int);
    assert(v3_dot(zero3(), up3()) == 0);
    lemma_div_of_zero(v3_dot(up3(), up3()));
    assert(v3_project_onto(zero3(), up3()) == zero3());
    assert(probe_sink_raw(body, 0, index) == 0);
    if hit is Some {
        let factor = div_raw(
            max_raw(sub_raw(RAY_LENGTH_RAW as int, hit->0), 0),
            RAY_LENGTH_RAW as int,
        );
        lemma_mul_zero(factor);
        lemma_mul_zero(K_FORCE_RAW as int);
        lemma_div_of_zero(dt);
    }
}

/// What one probe adds under an upright craft at rest: a quarter of the
/// weight, straight up, at the probe's place.
proof fn lemma_probe_at_rest(
    body: PhysicalStateRaw,
    index: int,
    hit: Option<int>,
    gravity: int,
    dt: int,
)
    requires
        upright_at_rest(body),
        0 <= index < 4,
        0 <= gravity <= 1_000_000_000,
    ensures
        probe_contribution_raw(body, 0, index, hit, gravity, dt) == (ExternalForceRaw {
            force: Vec3Raw { x: 0, y: mul_raw(gravity, body.mass) / 4, z: 0 },
            torque: upright_lever_raw(index, mul_raw(gravity, body.mass) / 4),
        }),
        0 <= mul_raw(gravity, body.mass) <= 1_000_000_000_000_000,
{
    reveal(probe_contribution_raw);
    lemma_upright_thrust_is_up();
    lemma_upright_position(body, index);
    lemma_force_at_rest(body, index, hit, gravity, dt);
    lemma_mul_one(gravity);
    lemma_mul_zero(gravity);
    lemma_mul_zero(body.mass);
    let weight = mul_raw(gravity, body.mass);
    assert(0 <= gravity * body.mass <= 1_000_000_000 * 1_000_000_000_000) by (nonlinear_arith)
        requires
            0 <= gravity <= 1_000_000_000,
            0 <= body.mass <= 1_000_000_000_000,
    ;
    lemma_div_of_zero(RAY_COUNT_RAW as int);
    assert(div_raw(weight, RAY_COUNT_RAW as int) == weight / 4);
    let up_force = v3_div(v3_scale(v3_scale(up3(), gravity), body.mass), RAY_COUNT_RAW as int);
    assert(up_force == (Vec3Raw { x: 0, y: weight / 4, z: 0 }));
    lemma_upright_lever(index, weight / 4);
}

/// A craft that is upright and at rest, with no input and facing its target
/// heading, is carried: whatever the probes find, the controller asks for no
/// torque and for a force straight up that is the weight rounded down to a
/// multiple of four raw units.
pub proof fn upright_craft_at_rest_is_carried(
    body: PhysicalStateRaw,
    heading: int,
    hits: ProbeHitsRaw,
    gravity_y: int,
    dt: int,
)
    requires
        upright_at_rest(body),
        i64::MIN <= heading <= i64::MAX,
        -1_000_000_000 <= gravity_y <= 1_000_000_000,
    ensures
        hover_force_raw(body, 0, heading, heading, hits, gravity_y, dt) == (ExternalForceRaw {
            force: Vec3Raw {
                x: 0,
                y: 4 * (mul_raw(abs_raw(gravity_y), body.mass) / 4),
                z: 0,
            },
            torque: zero3(),
        }),
        mul_raw(abs_raw(gravity_y), body.mass) - 3 <= 4 * (mul_raw(abs_raw(gravity_y), body.mass)
            / 4) <= mul_raw(abs_raw(gravity_y), body.mass),
{
    let gravity = abs_raw(gravity_y);
    let quarter = mul_raw(gravity, body.mass) / 4;
    lemma_probe_at_rest(body, 0, hits.forward, gravity, dt);
    lemma_probe_at_rest(body, 1, hits.backward, gravity, dt);
    lemma_probe_at_rest(body, 2, hits.left, gravity, dt);
    lemma_probe_at_rest(body, 3, hits.right, gravity, dt);
    lemma_yaw_at_rest(heading, dt, body.mass);
    lemma_no_drag_at_rest();
    lemma_four_quarters(quarter);
}

/// Four equal upward pushes at the four probes of an upright craft add up to
/// four times the push and twist nothing.
proof fn lemma_four_quarters(f: int)
    requires
        0 <= f <= 1_000_000_000_000_000,
    ensures
        ef_add(
            ef_add(
                ef_add(
                    ef_add(
                        ef_zero(),
                        ExternalForceRaw {
                            force: Vec3Raw { x: 0, y: f, z: 0 },
                            torque: upright_lever_raw(0, f),
                        },
                    ),
                    ExternalForceRaw {
                        force: Vec3Raw { x: 0, y: f, z: 0 },
                        torque: upright_lever_raw(1, f),
                    },
                ),
                ExternalForceRaw {
                    force: Vec3Raw { x: 0, y: f, z: 0 },
                    torque: upright_lever_raw(2, f),
                },
            ),
            ExternalForceRaw {
                force: Vec3Raw { x: 0, y: f, z: 0 },
                torque: upright_lever_raw(3, f),
            },
        ) == (ExternalForceRaw { force: Vec3Raw { x: 0, y: 4 * f, z: 0 }, torque: zero3() }),
{
}

/// A craft that faces its target and does not spin needs no torque.
proof fn lemma_yaw_at_rest(heading: int, dt: int, mass: int)
    requires
        i64::MIN <= heading <= i64::MAX,
    ensures
        yaw_torque_raw(heading, 0, heading, dt, mass) == 0,
{
    reveal(yaw_torque_raw);
    lemma_mul_zero(dt);
    lemma_mul_zero(mass);
    lemma_div_of_zero(dt);
    shortest_angle_to_self_is_zero(heading);
}

/// Nothing drags on a craft at rest.
proof fn lemma_no_drag_at_rest()
    ensures
        air_drag_raw(zero3()) == zero3(),
{
    reveal(air_drag_raw);
    assert(0int * 0 == 0);
    lemma_sqrt_floor_of_square(0);
    lemma_mul_zero(drag_magnitude_raw(0));
}

} // verus!
