//! The hover controller: once per tick it turns the craft's state, the
//! player's intent and the ground distances under four probes into the force
//! and torque to apply.
//!
//! A probe that finds no ground still pushes with the baseline force that
//! balances gravity, so a craft over a ledge sinks gently instead of falling.
use vstd::prelude::*;
use crate::gameplay::objects::hovercrab::{DIAGONAL_RAW, Hovercrab};
use crate::utils::fixed::{
    Fixed, SCALE, abs_raw, add_raw, clamp_raw, div_raw, max_raw, min_raw, mul_raw, neg_raw,
    sub_raw,
};
use crate::utils::fixed::{
    lemma_div_nonnegative, lemma_div_of_zero, lemma_mul_nonnegative, lemma_mul_zero,
};
use crate::utils::math_algorithms::{
    quat_component, quat_component_raw, shortest_angle, shortest_angle_raw,
    shortest_angle_to_self_is_zero,
};
use crate::utils::quat::{Quat, QuatRaw, q_identity, q_mul, q_rotate};
use crate::utils::vector::{
    Vec2, Vec2Raw, Vec3, Vec3Raw, v3_add, v3_cross, v3_div, v3_length, v3_mul, v3_neg,
    v3_normalize_or_zero, v3_project_onto, v3_scale, v3_sub,
};

verus! {

/// Half of the craft's extent from side to side.
pub const CRAB_HALF_WIDTH_RAW: i64 = 4_000_000;

/// Half of the craft's extent from bottom to top.
pub const CRAB_HALF_HEIGHT_RAW: i64 = 1_000_000;

/// Half of the craft's extent from back to front.
pub const CRAB_HALF_LENGTH_RAW: i64 = 3_000_000;

/// How far out toward the hull's edge the probes sit, as a share of the half size.
pub const PROBE_REACH_RAW: i64 = 800_000;

/// Slack added to the length of a probe ray.
pub const RAY_MARGIN_RAW: i64 = 100_000;

/// Distance by which a probe ray starts behind the hull: half the margin.
pub const RAY_OFFSET_RAW: i64 = 50_000;

/// Greatest ground distance that still produces extra thrust.
pub const RAY_LENGTH_RAW: i64 = 10_000_000;

/// Ticks shorter than this many seconds are skipped.
pub const MIN_DELTA_SECONDS_RAW: i64 = 1_000;

/// Gain from sink rate to thrust.
pub const K_FORCE_RAW: i64 = 50_000_000;

/// Number of probes, as a fixed-point number.
pub const RAY_COUNT_RAW: i64 = 4_000_000;

/// Sine of half the greatest tilt of the thrust, which is 45 degrees.
pub const TILT_FULL_SIN_RAW: i64 = 382_683;

/// Cosine of half the greatest tilt of the thrust.
pub const TILT_FULL_COS_RAW: i64 = 923_880;

/// Sine of half the tilt at a diagonal intent: 45 degrees times the diagonal.
pub const TILT_DIAGONAL_SIN_RAW: i64 = 274_126;

/// Cosine of half the tilt at a diagonal intent.
pub const TILT_DIAGONAL_COS_RAW: i64 = 961_694;

/// Density of air.
pub const AIR_DENSITY_RAW: i64 = 1_225_000;

/// Drag coefficient of the hull.
pub const DRAG_COEFF_RAW: i64 = 90_000;

/// One half.
pub const HALF_RAW: i64 = 500_000;

/// Mathematical model of a [`PhysicalState`].
pub struct PhysicalStateRaw {
    pub translation: Vec3Raw,
    pub rotation: QuatRaw,
    pub linvel: Vec3Raw,
    pub angvel: Vec3Raw,
    pub mass: int,
}

/// Mathematical model of an [`ExternalForce`].
pub struct ExternalForceRaw {
    pub force: Vec3Raw,
    pub torque: Vec3Raw,
}

/// Mathematical model of a [`ProbeRay`].
pub struct ProbeRayRaw {
    pub origin: Vec3Raw,
    pub direction: Vec3Raw,
    pub max_distance: int,
    pub solid: bool,
}

/// Mathematical model of [`ProbeHits`]: the raw ground distance under each
/// probe, in the order forward, backward, left, right.
pub struct ProbeHitsRaw {
    pub forward: Option<int>,
    pub backward: Option<int>,
    pub left: Option<int>,
    pub right: Option<int>,
}

/// The zero vector.
pub open spec fn zero3() -> Vec3Raw {
    Vec3Raw { x: 0, y: 0, z: 0 }
}

/// World up.
pub open spec fn up3() -> Vec3Raw {
    Vec3Raw { x: 0, y: SCALE as int, z: 0 }
}

/// Half of the craft's extent along each axis.
pub open spec fn half_size_raw() -> Vec3Raw {
    Vec3Raw {
        x: CRAB_HALF_WIDTH_RAW as int,
        y: CRAB_HALF_HEIGHT_RAW as int,
        z: CRAB_HALF_LENGTH_RAW as int,
    }
}

/// Raw distance of a hit, if any.
pub open spec fn hit_raw(hit: Option<Fixed>) -> Option<int> {
    match hit {
        Some(d) => Some(d@),
        None => None,
    }
}

/// No force and no torque.
pub open spec fn ef_zero() -> ExternalForceRaw {
    ExternalForceRaw { force: zero3(), torque: zero3() }
}

/// Sum of two force-and-torque pairs.
pub open spec fn ef_add(a: ExternalForceRaw, b: ExternalForceRaw) -> ExternalForceRaw {
    ExternalForceRaw { force: v3_add(a.force, b.force), torque: v3_add(a.torque, b.torque) }
}

/// The force `force` applied at `point` of a body whose center of mass is
/// `center_of_mass`: the same force, and the torque of its lever arm.
pub open spec fn ef_at_point(force: Vec3Raw, point: Vec3Raw, center_of_mass: Vec3Raw)
    -> ExternalForceRaw {
    ExternalForceRaw { force, torque: v3_cross(v3_sub(point, center_of_mass), force) }
}

/// Velocity of the point `point` of a body that moves with `linvel` and spins
/// with `angvel` about `center_of_mass`.
pub open spec fn velocity_at_point_raw(
    linvel: Vec3Raw,
    angvel: Vec3Raw,
    point: Vec3Raw,
    center_of_mass: Vec3Raw,
) -> Vec3Raw {
    v3_add(linvel, v3_cross(angvel, v3_sub(point, center_of_mass)))
}

/// The rotation about the craft's pitch axis that leans the thrust with the
/// forward intent: 45 degrees at full intent, in proportion at a diagonal one.
pub open spec fn tilt_raw(forward_intent: int) -> QuatRaw {
    if forward_intent == SCALE {
        QuatRaw { x: TILT_FULL_SIN_RAW as int, y: 0, z: 0, w: TILT_FULL_COS_RAW as int }
    } else if forward_intent == -SCALE {
        QuatRaw { x: -TILT_FULL_SIN_RAW as int, y: 0, z: 0, w: TILT_FULL_COS_RAW as int }
    } else if forward_intent == DIAGONAL_RAW {
        QuatRaw { x: TILT_DIAGONAL_SIN_RAW as int, y: 0, z: 0, w: TILT_DIAGONAL_COS_RAW as int }
    } else if forward_intent == -DIAGONAL_RAW {
        QuatRaw { x: -TILT_DIAGONAL_SIN_RAW as int, y: 0, z: 0, w: TILT_DIAGONAL_COS_RAW as int }
    } else {
        q_identity()
    }
}

/// Direction of thrust: world up, turned by the craft's rotation about the
/// vertical alone and leaned by the forward intent.
pub open spec fn probe_direction_raw(rotation: QuatRaw, forward_intent: int) -> Vec3Raw {
    q_rotate(q_mul(quat_component_raw(rotation, up3()), tilt_raw(forward_intent)), up3())
}

/// Craft-local unit direction of probe `index`: forward, backward, left, right.
pub open spec fn probe_offset_raw(index: int) -> Vec3Raw {
    if index == 0 {
        Vec3Raw { x: 0, y: 0, z: -(SCALE as int) }
    } else if index == 1 {
        Vec3Raw { x: 0, y: 0, z: SCALE as int }
    } else if index == 2 {
        Vec3Raw { x: -(SCALE as int), y: 0, z: 0 }
    } else {
        Vec3Raw { x: SCALE as int, y: 0, z: 0 }
    }
}

/// World position of probe `index`.
pub open spec fn probe_position_raw(body: PhysicalStateRaw, index: int) -> Vec3Raw {
    v3_add(
        body.translation,
        q_rotate(
            body.rotation,
            v3_mul(probe_offset_raw(index), v3_scale(half_size_raw(), PROBE_REACH_RAW as int)),
        ),
    )
}

/// The ray to cast for probe `index`: it starts past the hull on the side of
/// the thrust direction and runs against that direction.
pub open spec fn probe_ray_raw(body: PhysicalStateRaw, forward_intent: int, index: int)
    -> ProbeRayRaw {
    let dir = probe_direction_raw(body.rotation, forward_intent);
    ProbeRayRaw {
        origin: v3_add(
            v3_add(probe_position_raw(body, index), v3_scale(dir, RAY_OFFSET_RAW as int)),
            v3_mul(v3_neg(dir), half_size_raw()),
        ),
        direction: v3_neg(dir),
        max_distance: add_raw(RAY_LENGTH_RAW as int, RAY_MARGIN_RAW as int),
        solid: true,
    }
}

/// The craft's forward direction, projected to the horizontal plane.
pub open spec fn current_dir_raw(rotation: QuatRaw) -> Vec2Raw {
    let forward = q_rotate(rotation, Vec3Raw { x: 0, y: 0, z: -(SCALE as int) });
    Vec2Raw { x: forward.x, y: forward.z }
}

/// Thrust of one probe along the thrust direction, per unit of mass, before
/// it is shared among the probes. `sink` is the vertical part of the probe
/// point's velocity along the thrust direction; only sinking counts.
pub open spec fn probe_force_raw(hit: Option<int>, sink: int, gravity: int, dt: int) -> int {
    let max_hover_force = add_raw(gravity, gravity);
    match hit {
        None => gravity,
        Some(distance) => {
            let distance_factor = div_raw(
                max_raw(sub_raw(RAY_LENGTH_RAW as int, distance), 0),
                RAY_LENGTH_RAW as int,
            );
            let current_velocity = min_raw(sink, 0);
            let target_force = div_raw(
                mul_raw(
                    mul_raw(max_raw(sub_raw(0, current_velocity), 0), distance_factor),
                    K_FORCE_RAW as int,
                ),
                dt,
            );
            add_raw(gravity, clamp_raw(target_force, neg_raw(max_hover_force), max_hover_force))
        },
    }
}

/// Vertical part of the velocity of probe `index`'s point along the thrust direction.
pub open spec fn probe_sink_raw(body: PhysicalStateRaw, forward_intent: int, index: int) -> int {
    let position = probe_position_raw(body, index);
    let dir = probe_direction_raw(body.rotation, forward_intent);
    v3_project_onto(
        velocity_at_point_raw(body.linvel, body.angvel, position, body.translation),
        dir,
    ).y
}

/// Force and torque that probe `index` adds.
#[verifier::opaque]
pub open spec fn probe_contribution_raw(
    body: PhysicalStateRaw,
    forward_intent: int,
    index: int,
    hit: Option<int>,
    gravity: int,
    dt: int,
) -> ExternalForceRaw {
    let dir = probe_direction_raw(body.rotation, forward_intent);
    let force = probe_force_raw(hit, probe_sink_raw(body, forward_intent, index), gravity, dt);
    ef_at_point(
        v3_div(v3_scale(v3_scale(dir, force), body.mass), RAY_COUNT_RAW as int),
        probe_position_raw(body, index),
        body.translation,
    )
}

/// Torque about the vertical that brings the heading to the target within one
/// tick: the angle left after this tick's spin, divided twice by the tick's
/// length, times the mass.
#[verifier::opaque]
pub open spec fn yaw_torque_raw(
    current_angle: int,
    angular_velocity_y: int,
    target_angle: int,
    dt: int,
    mass: int,
) -> int {
    let next_angle = add_raw(current_angle, mul_raw(neg_raw(angular_velocity_y), dt));
    let delta_angle = shortest_angle_raw(next_angle, target_angle);
    mul_raw(div_raw(div_raw(delta_angle, dt), dt), mass)
}

/// Frontal area of the hull, as a flat plate.
pub open spec fn frontal_area_raw() -> int {
    mul_raw(mul_raw(CRAB_HALF_WIDTH_RAW as int, CRAB_HALF_HEIGHT_RAW as int), 4 * SCALE)
}

/// Size of the drag at the given speed: half the air density times the speed
/// squared times the frontal area times the drag coefficient.
pub open spec fn drag_magnitude_raw(speed: int) -> int {
    mul_raw(
        mul_raw(
            mul_raw(mul_raw(HALF_RAW as int, AIR_DENSITY_RAW as int), mul_raw(speed, speed)),
            frontal_area_raw(),
        ),
        DRAG_COEFF_RAW as int,
    )
}

/// The force that drag takes away: along the velocity, nothing at rest.
#[verifier::opaque]
pub open spec fn air_drag_raw(linvel: Vec3Raw) -> Vec3Raw {
    v3_scale(v3_normalize_or_zero(linvel), drag_magnitude_raw(v3_length(linvel)))
}

/// Force and torque of a whole tick, for a tick that is long enough.
pub open spec fn hover_force_raw(
    body: PhysicalStateRaw,
    forward_intent: int,
    current_angle: int,
    target_angle: int,
    hits: ProbeHitsRaw,
    gravity_y: int,
    dt: int,
) -> ExternalForceRaw {
    let gravity = abs_raw(gravity_y);
    let yaw = ExternalForceRaw {
        force: zero3(),
        torque: Vec3Raw {
            x: 0,
            y: sub_raw(
                0,
                yaw_torque_raw(current_angle, body.angvel.y, target_angle, dt, body.mass),
            ),
            z: 0,
        },
    };
    let lifted = ef_add(
        ef_add(
            ef_add(
                ef_add(
                    yaw,
                    probe_contribution_raw(body, forward_intent, 0, hits.forward, gravity, dt),
                ),
                probe_contribution_raw(body, forward_intent, 1, hits.backward, gravity, dt),
            ),
            probe_contribution_raw(body, forward_intent, 2, hits.left, gravity, dt),
        ),
        probe_contribution_raw(body, forward_intent, 3, hits.right, gravity, dt),
    );
    ExternalForceRaw {
        force: v3_sub(lifted.force, air_drag_raw(body.linvel)),
        torque: lifted.torque,
    }
}

/// A probe that finds no ground pushes with the baseline force along the
/// thrust direction, whichever probe it is and however the craft moves: all
/// four are treated alike.
pub proof fn probe_without_ground_gives_baseline(
    body: PhysicalStateRaw,
    forward_intent: int,
    index: int,
    gravity: int,
    dt: int,
)
    ensures
        probe_contribution_raw(body, forward_intent, index, None, gravity, dt) == ef_at_point(
            v3_div(
                v3_scale(
                    v3_scale(probe_direction_raw(body.rotation, forward_intent), gravity),
                    body.mass,
                ),
                RAY_COUNT_RAW as int,
            ),
            probe_position_raw(body, index),
            body.translation,
        ),
{
    reveal(probe_contribution_raw);
}

/// What the physics backend knows of a craft.
#[derive(Clone, Copy, PartialEq, Eq, Debug, Structural)]
pub struct PhysicalState {
    /// Position of the center of mass.
    pub translation: Vec3,
    /// Orientation, of length one.
    pub rotation: Quat,
    pub linvel: Vec3,
    pub angvel: Vec3,
    pub mass: Fixed,
}

impl View for PhysicalState {
    type V = PhysicalStateRaw;

    open spec fn view(&self) -> PhysicalStateRaw {
        PhysicalStateRaw {
            translation: self.translation@,
            rotation: self.rotation@,
            linvel: self.linvel@,
            angvel: self.angvel@,
            mass: self.mass@,
        }
    }
}

/// A force and a torque on a body, for the backend to integrate.
#[derive(Clone, Copy, PartialEq, Eq, Debug, Structural)]
pub struct ExternalForce {
    pub force: Vec3,
    pub torque: Vec3,
}

impl View for ExternalForce {
    type V = ExternalForceRaw;

    open spec fn view(&self) -> ExternalForceRaw {
        ExternalForceRaw { force: self.force@, torque: self.torque@ }
    }
}

impl ExternalForce {
    /// No force and no torque.
    pub fn zero() -> (r: ExternalForce)
        ensures
            r@ == ef_zero(),
    {
        ExternalForce { force: Vec3::zero(), torque: Vec3::zero() }
    }

    /// The force `force` applied at `point` of a body with the given center of mass.
    pub fn at_point(force: Vec3, point: Vec3, center_of_mass: Vec3) -> (r: ExternalForce)
        ensures
            r@ == ef_at_point(force@, point@, center_of_mass@),
    {
        ExternalForce { force, torque: point.sub(center_of_mass).cross(force) }
    }

    /// Sum of two force-and-torque pairs.
    pub fn add(self, rhs: ExternalForce) -> (r: ExternalForce)
        ensures
            r@ == ef_add(self@, rhs@),
    {
        ExternalForce { force: self.force.add(rhs.force), torque: self.torque.add(rhs.torque) }
    }
}

/// A ray for the backend to cast, excluding the craft's own body.
#[derive(Clone, Copy, PartialEq, Eq, Debug, Structural)]
pub struct ProbeRay {
    pub origin: Vec3,
    pub direction: Vec3,
    pub max_distance: Fixed,
    /// Whether a ray that starts inside a shape hits it at once.
    pub solid: bool,
}

impl View for ProbeRay {
    type V = ProbeRayRaw;

    open spec fn view(&self) -> ProbeRayRaw {
        ProbeRayRaw {
            origin: self.origin@,
            direction: self.direction@,
            max_distance: self.max_distance@,
            solid: self.solid,
        }
    }
}

/// The rays of the four probes.
#[derive(Clone, Copy, PartialEq, Eq, Debug, Structural)]
pub struct ProbeRays {
    pub forward: ProbeRay,
    pub backward: ProbeRay,
    pub left: ProbeRay,
    pub right: ProbeRay,
}

/// Ground distance along each probe's ray, or `None` where the ray hit nothing.
#[derive(Clone, Copy, PartialEq, Eq, Debug, Structural)]
pub struct ProbeHits {
    pub forward: Option<Fixed>,
    pub backward: Option<Fixed>,
    pub left: Option<Fixed>,
    pub right: Option<Fixed>,
}

impl View for ProbeHits {
    type V = ProbeHitsRaw;

    open spec fn view(&self) -> ProbeHitsRaw {
        ProbeHitsRaw {
            forward: hit_raw(self.forward),
            backward: hit_raw(self.backward),
            left: hit_raw(self.left),
            right: hit_raw(self.right),
        }
    }
}

/// Half of the craft's extent along each axis.
pub fn crab_half_size() -> (r: Vec3)
    ensures
        r@ == half_size_raw(),
{
    Vec3::new(
        Fixed::from_raw(CRAB_HALF_WIDTH_RAW),
        Fixed::from_raw(CRAB_HALF_HEIGHT_RAW),
        Fixed::from_raw(CRAB_HALF_LENGTH_RAW),
    )
}

fn world_up() -> (r: Vec3)
    ensures
        r@ == up3(),
{
    Vec3::new(Fixed::zero(), Fixed::one(), Fixed::zero())
}

/// The lean of the thrust for the given forward intent.
pub fn tilt_rotation(forward_intent: Fixed) -> (r: Quat)
    ensures
        r@ == tilt_raw(forward_intent@),
{
    let zero = Fixed::zero();
    if forward_intent.raw == SCALE {
        Quat::from_xyzw(
            Fixed::from_raw(TILT_FULL_SIN_RAW),
            zero,
            zero,
            Fixed::from_raw(TILT_FULL_COS_RAW),
        )
    } else if forward_intent.raw == -SCALE {
        Quat::from_xyzw(
            Fixed::from_raw(-TILT_FULL_SIN_RAW),
            zero,
            zero,
            Fixed::from_raw(TILT_FULL_COS_RAW),
        )
    } else if forward_intent.raw == DIAGONAL_RAW {
        Quat::from_xyzw(
            Fixed::from_raw(TILT_DIAGONAL_SIN_RAW),
            zero,
            zero,
            Fixed::from_raw(TILT_DIAGONAL_COS_RAW),
        )
    } else if forward_intent.raw == -DIAGONAL_RAW {
        Quat::from_xyzw(
            Fixed::from_raw(-TILT_DIAGONAL_SIN_RAW),
            zero,
            zero,
            Fixed::from_raw(TILT_DIAGONAL_COS_RAW),
        )
    } else {
        Quat::identity()
    }
}

/// Direction of thrust for a craft with the given orientation and forward intent.
pub fn probe_direction(rotation: Quat, forward_intent: Fixed) -> (r: Vec3)
    ensures
        r@ == probe_direction_raw(rotation@, forward_intent@),
{
    let rotation = quat_component(rotation, world_up());
    let fwd_rotation = tilt_rotation(forward_intent);
    rotation.mul(fwd_rotation).mul_vec3(world_up())
}

/// Craft-local unit direction of probe `index` (0 forward, 1 backward, 2 left, 3 right).
fn probe_offset(index: u8) -> (r: Vec3)
    requires
        index < 4,
    ensures
        r@ == probe_offset_raw(index as int),
{
    let zero = Fixed::zero();
    let one = Fixed::one();
    if index == 0 {
        Vec3::new(zero, zero, one.neg())
    } else if index == 1 {
        Vec3::new(zero, zero, one)
    } else if index == 2 {
        Vec3::new(one.neg(), zero, zero)
    } else {
        Vec3::new(one, zero, zero)
    }
}

/// World position of probe `index`.
fn probe_position(body: &PhysicalState, index: u8) -> (r: Vec3)
    requires
        index < 4,
    ensures
        r@ == probe_position_raw(body@, index as int),
{
    let ray_max_offset = crab_half_size().scale(Fixed::from_raw(PROBE_REACH_RAW));
    body.translation.add(body.rotation.mul_vec3(probe_offset(index).mul(ray_max_offset)))
}

/// The ray to cast for probe `index`.
fn probe_ray(body: &PhysicalState, forward_intent: Fixed, index: u8) -> (r: ProbeRay)
    requires
        index < 4,
    ensures
        r@ == probe_ray_raw(body@, forward_intent@, index as int),
{
    let ray_pos = probe_position(body, index);
    let ray_dir = probe_direction(body.rotation, forward_intent);
    let body_offset = ray_dir.neg().mul(crab_half_size());
    ProbeRay {
        origin: ray_pos.add(ray_dir.scale(Fixed::from_raw(RAY_OFFSET_RAW))).add(body_offset),
        direction: ray_dir.neg(),
        max_distance: Fixed::from_raw(RAY_LENGTH_RAW).add(Fixed::from_raw(RAY_MARGIN_RAW)),
        solid: true,
    }
}

/// The directions whose angles the hover controller needs: the craft's
/// forward direction and its target heading, both projected to the horizontal
/// plane as `(x, z)`. The angles are measured from the plane's second axis.
pub fn heading_directions(crab: &Hovercrab, body: &PhysicalState) -> (r: (Vec2, Vec2))
    ensures
        r.0@ == current_dir_raw(body@.rotation),
        r.1@ == (Vec2Raw { x: crab@.target_rotation.x, y: crab@.target_rotation.z }),
{
    let forward = Vec3::new(Fixed::zero(), Fixed::zero(), Fixed::one().neg());
    let current_dir = body.rotation.mul_vec3(forward).xz();
    let target_dir = crab.target_rotation().xz();
    (current_dir, target_dir)
}

/// The four rays to cast this tick.
pub fn probe_rays(crab: &Hovercrab, body: &PhysicalState) -> (r: ProbeRays)
    ensures
        r.forward@ == probe_ray_raw(body@, crab@.input_dir.z, 0),
        r.backward@ == probe_ray_raw(body@, crab@.input_dir.z, 1),
        r.left@ == probe_ray_raw(body@, crab@.input_dir.z, 2),
        r.right@ == probe_ray_raw(body@, crab@.input_dir.z, 3),
{
    let forward_intent = crab.input_dir().z;
    ProbeRays {
        forward: probe_ray(body, forward_intent, 0),
        backward: probe_ray(body, forward_intent, 1),
        left: probe_ray(body, forward_intent, 2),
        right: probe_ray(body, forward_intent, 3),
    }
}

/// Thrust of one probe per unit of mass: the baseline that balances gravity,
/// plus, over ground, what stops the sinking, limited to twice the gravity.
/// `gravity_y` is the vertical component of gravity; only its size counts.
/// Over a tick of positive length the thrust lies between one and three
/// times the gravity.
pub fn probe_force(hit: Option<Fixed>, sink: Fixed, gravity_y: Fixed, delta_seconds: Fixed) -> (r:
    Fixed)
    ensures
        r@ == probe_force_raw(hit_raw(hit), sink@, abs_raw(gravity_y@), delta_seconds@),
        hit is None ==> r@ == abs_raw(gravity_y@),
        sink@ >= 0 ==> r@ == abs_raw(gravity_y@),
        delta_seconds@ > 0 ==> abs_raw(gravity_y@) <= r@ <= add_raw(
            abs_raw(gravity_y@),
            add_raw(abs_raw(gravity_y@), abs_raw(gravity_y@)),
        ),
{
    let gravity = gravity_y.abs();
    let min_force = gravity;
    let max_hover_force = gravity.add(gravity);
    let mut force = min_force;
    if let Some(hit_distance) = hit {
        let ray_length = Fixed::from_raw(RAY_LENGTH_RAW);
        let distance_factor = ray_length.sub(hit_distance).max(Fixed::zero()).div(ray_length);
        let current_velocity = sink.min(Fixed::zero());
        let target_velocity = Fixed::zero();
        let target_force = target_velocity.sub(current_velocity).max(Fixed::zero()).mul(
            distance_factor,
        ).mul(Fixed::from_raw(K_FORCE_RAW)).div(delta_seconds);
        proof {
            lemma_mul_zero(distance_factor@);
            lemma_mul_zero(K_FORCE_RAW as int);
            lemma_div_of_zero(delta_seconds@);
            if delta_seconds@ > 0 {
                let sinking = max_raw(sub_raw(0, current_velocity@), 0);
                lemma_div_nonnegative(
                    max_raw(sub_raw(RAY_LENGTH_RAW as int, hit_distance@), 0),
                    RAY_LENGTH_RAW as int,
                );
                lemma_mul_nonnegative(sinking, distance_factor@);
                lemma_mul_nonnegative(mul_raw(sinking, distance_factor@), K_FORCE_RAW as int);
                lemma_div_nonnegative(
                    mul_raw(mul_raw(sinking, distance_factor@), K_FORCE_RAW as int),
                    delta_seconds@,
                );
            }
        }
        force = force.add(target_force.clamp(max_hover_force.neg(), max_hover_force));
    }
    force
}

/// Force and torque that probe `index` adds.
fn probe_contribution(
    body: &PhysicalState,
    forward_intent: Fixed,
    index: u8,
    hit: Option<Fixed>,
    gravity: Fixed,
    delta_seconds: Fixed,
) -> (r: ExternalForce)
    requires
        index < 4,
        gravity@ >= 0,
    ensures
        r@ == probe_contribution_raw(
            body@,
            forward_intent@,
            index as int,
            hit_raw(hit),
            gravity@,
            delta_seconds@,
        ),
{
    proof {
        reveal(probe_contribution_raw);
    }
    let center_of_mass = body.translation;
    let ray_pos = probe_position(body, index);
    let ray_dir = probe_direction(body.rotation, forward_intent);
    let point_velocity = body.linvel.add(body.angvel.cross(ray_pos.sub(center_of_mass)));
    let sink = point_velocity.project_onto(ray_dir).y;
    let force = probe_force(hit, sink, gravity, delta_seconds);
    ExternalForce::at_point(
        ray_dir.scale(force).scale(body.mass).div(Fixed::from_raw(RAY_COUNT_RAW)),
        ray_pos,
        center_of_mass,
    )
}

/// Torque about the vertical that turns the craft from `current_angle` to
/// `target_angle`. Nothing limits its size.
pub fn yaw_torque(
    current_angle: Fixed,
    angular_velocity_y: Fixed,
    target_angle: Fixed,
    delta_seconds: Fixed,
    mass: Fixed,
) -> (r: Fixed)
    ensures
        r@ == yaw_torque_raw(
            current_angle@,
            angular_velocity_y@,
            target_angle@,
            delta_seconds@,
            mass@,
        ),
        current_angle == target_angle && angular_velocity_y@ == 0 ==> r@ == 0,
{
    proof {
        reveal(yaw_torque_raw);
    }
    let current_velocity = angular_velocity_y.neg();
    let next_angle = current_angle.add(current_velocity.mul(delta_seconds));
    let delta_angle = shortest_angle(next_angle, target_angle);
    let target_velocity = delta_angle.div(delta_seconds);
    let torque = target_velocity.div(delta_seconds);
    proof {
        lemma_mul_zero(delta_seconds@);
        lemma_mul_zero(mass@);
        lemma_div_of_zero(delta_seconds@);
        shortest_angle_to_self_is_zero(current_angle@);
    }
    torque.mul(mass)
}

/// The force that air drag takes away from a craft moving with `linvel`.
pub fn air_drag(linvel: Vec3) -> (r: Vec3)
    ensures
        r@ == air_drag_raw(linvel@),
{
    proof {
        reveal(air_drag_raw);
    }
    let speed = linvel.length();
    let dir = linvel.normalize_or_zero();
    let air_density = Fixed::from_raw(AIR_DENSITY_RAW);
    let area = Fixed::from_raw(CRAB_HALF_WIDTH_RAW).mul(Fixed::from_raw(CRAB_HALF_HEIGHT_RAW)).mul(
        Fixed::from_int(4),
    );
    let drag_coeff = Fixed::from_raw(DRAG_COEFF_RAW);
    let force = Fixed::from_raw(HALF_RAW).mul(air_density).mul(speed.mul(speed)).mul(area).mul(
        drag_coeff,
    );
    dir.scale(force)
}

/// One pass of the hover controller for one craft.
///
/// `current_angle` and `target_angle` are the signed angles, from the
/// reference axis, of the two directions that [`heading_directions`] gives. `hits` holds what the rays of
/// [`probe_rays`] found. `gravity_y` is the vertical component of gravity.
///
/// A tick shorter than a millisecond is skipped as a whole: the result is
/// `None` and nothing is to be applied. Otherwise the result replaces the
/// craft's force and torque.
pub fn update_hovercrab(
    crab: &Hovercrab,
    body: &PhysicalState,
    current_angle: Fixed,
    target_angle: Fixed,
    hits: &ProbeHits,
    gravity_y: Fixed,
    delta_seconds: Fixed,
) -> (r: Option<ExternalForce>)
    ensures
        delta_seconds@ < MIN_DELTA_SECONDS_RAW ==> r is None,
        delta_seconds@ >= MIN_DELTA_SECONDS_RAW ==> r == Some(r->0) && r->0@ == hover_force_raw(
            body@,
            crab@.input_dir.z,
            current_angle@,
            target_angle@,
            hits@,
            gravity_y@,
            delta_seconds@,
        ),
{
    if delta_seconds.raw < MIN_DELTA_SECONDS_RAW {
        return None;
    }
    let forward_intent = crab.input_dir().z;
    let gravity = gravity_y.abs();

    // reset forces
    let mut ext_force = ExternalForce::zero();

    // turn toward the target heading
    let torque = yaw_torque(current_angle, body.angvel.y, target_angle, delta_seconds, body.mass);
    ext_force.torque.y = ext_force.torque.y.sub(torque);

    // probes
    ext_force = ext_force.add(
        probe_contribution(body, forward_intent, 0, hits.forward, gravity, delta_seconds),
    );
    ext_force = ext_force.add(
        probe_contribution(body, forward_intent, 1, hits.backward, gravity, delta_seconds),
    );
    ext_force = ext_force.add(
        probe_contribution(body, forward_intent, 2, hits.left, gravity, delta_seconds),
    );
    ext_force = ext_force.add(
        probe_contribution(body, forward_intent, 3, hits.right, gravity, delta_seconds),
    );

    // air drag
    ext_force.force = ext_force.force.sub(air_drag(body.linvel));
    Some(ext_force)
}

} // verus!
