//! The hovering craft: its controller state and the mapping from input to intent.
use vstd::prelude::*;
use crate::gameplay::objects::controller::{
    ExternalForce, crab_half_size, ef_zero, half_size_raw, zero3,
};
use crate::utils::fixed::{Fixed, SCALE};
use crate::utils::input::{Input, Keys};
use crate::utils::plan::{App, Plugin, ResourceId, Schedule, SystemEntry, SystemId, chained, free};
use crate::utils::quat::{Quat, q_identity, q_rotate};
use crate::utils::sqrt::lemma_sqrt_floor_is;
use crate::utils::vector::{Vec3, Vec3Raw, v3_length, v3_normalize_or_zero};

verus! {

/// Raw size of each planar component of the intent when two perpendicular
/// directions are held at once: a unit vector along a diagonal.
pub const DIAGONAL_RAW: i64 = 707_107;

/// Raw contribution of a pair of opposite keys to one axis.
pub open spec fn axis_raw(positive: bool, negative: bool) -> int {
    (if positive { SCALE as int } else { 0 }) - (if negative { SCALE as int } else { 0 })
}

/// The direction in the horizontal plane that the keys ask for, before it is
/// brought to unit length: forward is `-z`, right is `+x`.
pub open spec fn planar_keys_raw(keys: Keys) -> Vec3Raw {
    Vec3Raw {
        x: axis_raw(keys.right, keys.left),
        y: 0,
        z: axis_raw(keys.backward, keys.forward),
    }
}

/// The movement intent for the given keys: the planar direction at unit length
/// (or zero), with the vertical intent added afterwards, unnormalized.
pub open spec fn input_dir_raw(keys: Keys) -> Vec3Raw {
    let planar = v3_normalize_or_zero(planar_keys_raw(keys));
    Vec3Raw { x: planar.x, y: axis_raw(keys.up, keys.down), z: planar.z }
}

/// The forward direction of a viewer whose orientation is `camera`, or of an
/// unrotated viewer where there is none.
pub open spec fn target_heading_raw(camera: Option<Quat>) -> Vec3Raw {
    let rotation = match camera {
        Some(q) => q@,
        None => q_identity(),
    };
    q_rotate(rotation, Vec3Raw { x: 0, y: 0, z: -(SCALE as int) })
}

/// `dir` is an intent that some set of keys produces: the planar part is zero,
/// a unit vector along an axis or a unit vector along a diagonal, and the
/// vertical part is a whole step or nothing.
pub open spec fn is_intent(dir: Vec3Raw) -> bool {
    &&& dir.y == 0 || dir.y == SCALE || dir.y == -SCALE
    &&& {
        ||| dir.x == 0 && (dir.z == 0 || dir.z == SCALE || dir.z == -SCALE)
        ||| dir.z == 0 && (dir.x == SCALE || dir.x == -SCALE)
        ||| (dir.x == DIAGONAL_RAW || dir.x == -DIAGONAL_RAW) && (dir.z == DIAGONAL_RAW || dir.z
            == -DIAGONAL_RAW)
    }
}

/// Whatever keys are held, the intent they produce is one of the few that
/// [`is_intent`] allows; in particular its planar part is never longer than one.
pub proof fn lemma_input_dir_is_intent(keys: Keys)
    ensures
        is_intent(input_dir_raw(keys)),
{
    let planar = planar_keys_raw(keys);
    let n = planar.x * planar.x + planar.y * planar.y + planar.z * planar.z;
    let (x, z) = (planar.x, planar.z);
    assert(x * x == (if x == 0 { 0int } else { 1_000_000_000_000 })) by (nonlinear_arith)
        requires
            x == 0 || x == 1_000_000 || x == -1_000_000,
    ;
    assert(z * z == (if z == 0 { 0int } else { 1_000_000_000_000 })) by (nonlinear_arith)
        requires
            z == 0 || z == 1_000_000 || z == -1_000_000,
    ;
    if planar.x == 0 && planar.z == 0 {
        lemma_sqrt_floor_is(n, 0);
    } else if planar.x == 0 || planar.z == 0 {
        assert(n == 1_000_000_000_000);
        lemma_sqrt_floor_is(n, 1_000_000);
    } else {
        assert(n == 2_000_000_000_000);
        lemma_sqrt_floor_is(n, 1_414_213);
    }
}

/// The planar part of an intent is a unit vector, or zero if no direction is
/// asked for: its length never exceeds one.
pub proof fn intent_is_at_most_one_long(dir: Vec3Raw)
    requires
        is_intent(dir),
    ensures
        v3_length(Vec3Raw { x: dir.x, y: 0, z: dir.z }) == (if dir.x == 0 && dir.z == 0 {
            0
        } else {
            SCALE as int
        }),
{
    let (x, z) = (dir.x, dir.z);
    let n = x * x + 0 * 0 + z * z;
    assert(0int * 0 == 0);
    assert(x * x == (if x == 0 {
        0int
    } else if x == 1_000_000 || x == -1_000_000 {
        1_000_000_000_000
    } else {
        500_000_309_449
    })) by (nonlinear_arith)
        requires
            x == 0 || x == 1_000_000 || x == -1_000_000 || x == 707_107 || x == -707_107,
    ;
    assert(z * z == (if z == 0 {
        0int
    } else if z == 1_000_000 || z == -1_000_000 {
        1_000_000_000_000
    } else {
        500_000_309_449
    })) by (nonlinear_arith)
        requires
            z == 0 || z == 1_000_000 || z == -1_000_000 || z == 707_107 || z == -707_107,
    ;
    if x == 0 && z == 0 {
        lemma_sqrt_floor_is(n, 0);
    } else {
        assert(1_000_000int * 1_000_000 == 1_000_000_000_000) by (nonlinear_arith);
        assert(1_000_001int * 1_000_001 == 1_000_002_000_001) by (nonlinear_arith);
        lemma_sqrt_floor_is(n, 1_000_000);
    }
}

/// Mathematical model of a [`Hovercrab`].
pub struct HovercrabView {
    pub camera_entity: Option<u64>,
    pub input_dir: Vec3Raw,
    pub input_accel: bool,
    pub input_stop: bool,
    pub target_rotation: Vec3Raw,
}

/// Controller state of one craft. The input mapper writes it once per tick and
/// the hover controller reads it afterwards.
#[derive(Clone, Copy, Debug)]
pub struct Hovercrab {
    camera_entity: Option<u64>,
    /// Normalized in the horizontal plane, but not vertically.
    input_dir: Vec3,
    input_accel: bool,
    input_stop: bool,
    target_rotation: Vec3,
}

impl View for Hovercrab {
    type V = HovercrabView;

    closed spec fn view(&self) -> HovercrabView {
        HovercrabView {
            camera_entity: self.camera_entity,
            input_dir: self.input_dir@,
            input_accel: self.input_accel,
            input_stop: self.input_stop,
            target_rotation: self.target_rotation@,
        }
    }
}

impl Hovercrab {
    #[verifier::type_invariant]
    spec fn intent_is_from_keys(self) -> bool {
        is_intent(self.input_dir@)
    }

    /// A craft that follows the orientation of `camera_entity`, with no intent yet.
    pub fn new(camera_entity: u64) -> (r: Hovercrab)
        ensures
            r@ == (HovercrabView {
                camera_entity: Some(camera_entity),
                input_dir: Vec3Raw { x: 0, y: 0, z: 0 },
                input_accel: false,
                input_stop: false,
                target_rotation: Vec3Raw { x: 0, y: 0, z: 0 },
            }),
    {
        Hovercrab {
            camera_entity: Some(camera_entity),
            input_dir: Vec3::zero(),
            input_accel: false,
            input_stop: false,
            target_rotation: Vec3::zero(),
        }
    }

    /// The entity whose orientation gives the target heading.
    pub fn camera_entity(&self) -> (r: Option<u64>)
        ensures
            r == self@.camera_entity,
    {
        self.camera_entity
    }

    /// The movement intent: forward/strafe in the plane, and vertical.
    pub fn input_dir(&self) -> (r: Vec3)
        ensures
            r@ == self@.input_dir,
            is_intent(r@),
    {
        proof {
            use_type_invariant(self);
        }
        self.input_dir
    }

    /// Whether acceleration is asked for.
    pub fn input_accel(&self) -> (r: bool)
        ensures
            r == self@.input_accel,
    {
        self.input_accel
    }

    /// Whether braking is asked for.
    pub fn input_stop(&self) -> (r: bool)
        ensures
            r == self@.input_stop,
    {
        self.input_stop
    }

    /// The direction the craft should come to face.
    pub fn target_rotation(&self) -> (r: Vec3)
        ensures
            r@ == self@.target_rotation,
    {
        self.target_rotation
    }
}

/// Turns the keys held and the camera's orientation into the craft's intent
/// and target heading. Where the camera is missing, it counts as unrotated.
pub fn hovercrab_input(crab: &mut Hovercrab, camera_rotation: Option<Quat>, input: &Input)
    ensures
        final(crab)@ == (HovercrabView {
            camera_entity: old(crab)@.camera_entity,
            input_dir: input_dir_raw(input.pressed),
            input_accel: input.pressed.accelerate,
            input_stop: input.pressed.brake,
            target_rotation: target_heading_raw(camera_rotation),
        }),
        is_intent(final(crab)@.input_dir),
{
    let keys = &input.pressed;
    let rotation = match camera_rotation {
        Some(q) => q,
        None => Quat::identity(),
    };

    let mut mov = Vec3::zero();
    if keys.forward {
        mov.z = mov.z.sub(Fixed::one());
    }
    if keys.backward {
        mov.z = mov.z.add(Fixed::one());
    }
    if keys.left {
        mov.x = mov.x.sub(Fixed::one());
    }
    if keys.right {
        mov.x = mov.x.add(Fixed::one());
    }
    assert(mov@ == planar_keys_raw(*keys));
    mov = mov.normalize_or_zero();

    if keys.up {
        mov.y = mov.y.add(Fixed::one());
    }
    if keys.down {
        mov.y = mov.y.sub(Fixed::one());
    }
    proof {
        lemma_input_dir_is_intent(*keys);
    }
    assert(mov@ == input_dir_raw(*keys));

    crab.input_dir = mov;
    crab.input_accel = keys.accelerate;
    crab.input_stop = keys.brake;
    crab.target_rotation = rotation.mul_vec3(
        Vec3::new(Fixed::zero(), Fixed::zero(), Fixed::one().neg()),
    );
}

/// Mass of a craft.
pub const CRAB_MASS_RAW: i64 = 800_000_000;

/// How far a craft has come to life.
#[derive(Clone, Copy, PartialEq, Eq, Debug, Structural)]
pub enum CraftStage {
    /// Created, without a body.
    Uninitialized,
    /// Given a body during this tick; the physics backend knows it from the next.
    PhysicsAttached,
    /// Known to the physics backend and steered by the hover controller.
    Active,
}

/// How the physics backend treats a body.
#[derive(Clone, Copy, PartialEq, Eq, Debug, Structural)]
pub enum RigidBody {
    /// Moved by forces.
    Dynamic,
    /// Never moves.
    Fixed,
}

/// The body that a new craft is given: a box with the given half size and mass.
#[derive(Clone, Copy, PartialEq, Eq, Debug, Structural)]
pub struct CraftBody {
    pub rigid_body: RigidBody,
    pub half_extents: Vec3,
    pub mass: Fixed,
    /// Linear and angular velocity it starts with.
    pub linvel: Vec3,
    pub angvel: Vec3,
    /// Force and torque it starts with.
    pub external_force: ExternalForce,
}

/// The body of every new craft: at rest, with nothing pushing.
pub open spec fn new_body(body: CraftBody) -> bool {
    &&& body.rigid_body == RigidBody::Dynamic
    &&& body.half_extents@ == half_size_raw()
    &&& body.mass@ == CRAB_MASS_RAW
    &&& body.linvel@ == zero3()
    &&& body.angvel@ == zero3()
    &&& body.external_force@ == ef_zero()
}

/// The stage that follows `stage` after one tick.
pub open spec fn next_stage(stage: CraftStage) -> CraftStage {
    match stage {
        CraftStage::Uninitialized => CraftStage::PhysicsAttached,
        CraftStage::PhysicsAttached => CraftStage::Active,
        CraftStage::Active => CraftStage::Active,
    }
}

/// Looks after one craft once per tick: a craft that was just created is
/// given its body, once and never again; a craft that has one moves on to be
/// steered.
pub fn spawn_hovercrab(stage: &mut CraftStage) -> (r: Option<CraftBody>)
    ensures
        *final(stage) == next_stage(*old(stage)),
        r is Some <==> *old(stage) == CraftStage::Uninitialized,
        r matches Some(body) ==> new_body(body),
{
    match *stage {
        CraftStage::Uninitialized => {
            *stage = CraftStage::PhysicsAttached;
            Some(
                CraftBody {
                    rigid_body: RigidBody::Dynamic,
                    half_extents: crab_half_size(),
                    mass: Fixed::from_raw(CRAB_MASS_RAW),
                    linvel: Vec3::zero(),
                    angvel: Vec3::zero(),
                    external_force: ExternalForce::zero(),
                },
            )
        },
        CraftStage::PhysicsAttached => {
            *stage = CraftStage::Active;
            None
        },
        CraftStage::Active => None,
    }
}

/// Once a craft has its body it never gets another: no later stage leads
/// back to the one in which bodies are given out.
pub proof fn body_is_given_once(stage: CraftStage)
    ensures
        next_stage(stage) != CraftStage::Uninitialized,
        next_stage(next_stage(stage)) == CraftStage::Active,
{
}

/// Brings the craft's systems: the one that gives a new craft its body, and
/// the input mapper followed by the hover controller.
pub struct HovercrabPlugin;

impl Plugin for HovercrabPlugin {
    open spec fn systems(&self) -> Seq<SystemEntry> {
        seq![
            free(Schedule::Update, SystemId::SpawnHovercrab),
            free(Schedule::Update, SystemId::HovercrabInput),
            chained(Schedule::Update, SystemId::HovercrabInput, SystemId::UpdateHovercrab),
        ]
    }

    open spec fn resources(&self) -> Seq<ResourceId> {
        Seq::empty()
    }

    fn build(&self, app: &mut App) {
        app.add_system(Schedule::Update, SystemId::SpawnHovercrab);
        app.add_chain(Schedule::Update, SystemId::HovercrabInput, SystemId::UpdateHovercrab);
        assert(app@.systems =~= old(app)@.systems + self.systems());
        assert(app@.resources =~= old(app)@.resources + self.resources());
    }
}

} // verus!
