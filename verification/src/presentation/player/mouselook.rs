//! Turning the camera with the mouse, and keeping it in orbit around its target.
use vstd::prelude::*;
use crate::utils::plan::{App, Plugin, ResourceId, Schedule, SystemEntry, SystemId, chained, free};
use crate::utils::fixed::{Fixed, SCALE};
use crate::utils::math_algorithms::{to_radians, to_radians_raw};
use crate::utils::quat::{Quat, QuatRaw, q_conjugate, q_mul, q_rotate};
use crate::utils::vector::{
    Vec2, Vec2Raw, Vec3, Vec3Raw, v2_add, v2_div, v2_scale, v3_add, v3_scale,
};

verus! {

/// The cursor cannot be grabbed right after the window appears: mouse look
/// starts only when more than this many nanoseconds have passed (half a second).
pub const INITIAL_GRAB_DELAY_NANOS: u128 = 500_000_000;

/// Sensitivity of a new installation, in degrees.
pub const DEFAULT_SENSITIVITY_DEGREES_RAW: i64 = 200_000_000;

/// An entity with this rotates with the mouse while the window has focus.
#[derive(Clone, Copy, PartialEq, Eq, Debug, Structural)]
pub struct MouselookController {
    /// If true, the camera is not stopped at the highest and lowest elevation.
    pub allow_flip: bool,
}

/// Settings shared by all entities with a [`MouselookController`].
#[derive(Clone, Copy, PartialEq, Eq, Debug, Structural)]
pub struct MouselookSettings {
    /// By how many degrees the camera turns when the cursor crosses the whole
    /// width of the window.
    pub sensitivity_degrees: Fixed,
}

impl Default for MouselookSettings {
    fn default() -> (r: MouselookSettings)
        ensures
            r.sensitivity_degrees@ == DEFAULT_SENSITIVITY_DEGREES_RAW,
    {
        MouselookSettings { sensitivity_degrees: Fixed::from_raw(DEFAULT_SENSITIVITY_DEGREES_RAW) }
    }
}

/// An entity with this stays at `distance` from its target, on the side its
/// rotation turns its back to.
#[derive(Clone, Copy, PartialEq, Eq, Debug, Structural)]
pub struct OrbitCamera {
    pub target: Option<u64>,
    pub distance: Fixed,
}

/// Switches for the controls.
#[derive(Clone, Copy, PartialEq, Eq, Debug, Structural)]
pub struct InputControl {
    pub mouselook_enabled: bool,
}

impl Default for InputControl {
    fn default() -> (r: InputControl)
        ensures
            r.mouselook_enabled,
    {
        InputControl { mouselook_enabled: true }
    }
}

/// Brings mouse look and the orbit camera: the mouse is read first in the
/// tick, and the camera is turned before it is moved.
pub struct MouselookPlugin;

impl Plugin for MouselookPlugin {
    open spec fn systems(&self) -> Seq<SystemEntry> {
        seq![
            free(Schedule::First, SystemId::MouseUpdate),
            free(Schedule::PreUpdate, SystemId::MouselookController),
            chained(Schedule::PreUpdate, SystemId::MouselookController, SystemId::OrbitCamera),
        ]
    }

    open spec fn resources(&self) -> Seq<ResourceId> {
        seq![ResourceId::MouselookSettings, ResourceId::MouseDelta, ResourceId::InputControl]
    }

    fn build(&self, app: &mut App) {
        app.init_resource(ResourceId::MouselookSettings);
        app.init_resource(ResourceId::MouseDelta);
        app.init_resource(ResourceId::InputControl);
        app.add_system(Schedule::First, SystemId::MouseUpdate);
        app.add_chain(Schedule::PreUpdate, SystemId::MouselookController, SystemId::OrbitCamera);
        assert(app@.systems =~= old(app)@.systems + self.systems());
        assert(app@.resources =~= old(app)@.resources + self.resources());
    }
}

/// Movement of the mouse since the previous tick, as a share of the window's width.
#[derive(Clone, Copy, PartialEq, Eq, Debug, Structural)]
pub struct MouseDelta {
    pub value: Vec2,
}

/// What holds the cursor.
#[derive(Clone, Copy, PartialEq, Eq, Debug, Structural)]
pub enum CursorGrabMode {
    /// The cursor is free.
    Free,
    /// The cursor is kept in place.
    Locked,
}

/// What mouse look reads and sets of the primary window.
#[derive(Clone, Copy, PartialEq, Eq, Debug, Structural)]
pub struct Window {
    pub focused: bool,
    /// Width in pixels.
    pub width: Fixed,
    pub cursor_visible: bool,
    pub cursor_grab_mode: CursorGrabMode,
}

/// Sum of the movements, from the first on.
pub open spec fn motion_sum_raw(motion: Seq<Vec2>) -> Vec2Raw
    decreases motion.len(),
{
    if motion.len() == 0 {
        Vec2Raw { x: 0, y: 0 }
    } else {
        v2_add(motion_sum_raw(motion.drop_last()), motion.last()@)
    }
}

/// Whether mouse look is in force.
pub open spec fn mouselook_active(controls: InputControl, focused: bool, elapsed_nanos: u128)
    -> bool {
    controls.mouselook_enabled && focused && elapsed_nanos > INITIAL_GRAB_DELAY_NANOS
}

/// The rotation of the camera after a turn of the mouse. `yaw` turns about
/// the world's vertical and `pitch` about the camera's own horizontal axis.
/// A turn that would tip the camera over is taken back: with `allow_flip` the
/// horizontal part is mirrored, without it the vertical part is dropped.
pub open spec fn camera_rotation_raw(yaw: QuatRaw, pitch: QuatRaw, old: QuatRaw, allow_flip: bool)
    -> QuatRaw {
    let rotation = q_mul(q_mul(yaw, old), pitch);
    if q_rotate(rotation, Vec3Raw { x: 0, y: SCALE as int, z: 0 }).y > 0 {
        rotation
    } else if allow_flip {
        q_mul(q_mul(q_conjugate(yaw), old), pitch)
    } else {
        q_mul(yaw, old)
    }
}

/// Where the orbiting camera belongs: `distance` behind the target along
/// the camera's line of sight. A missing target counts as the origin.
pub open spec fn orbit_translation_raw(target: Option<Vec3>, rotation: QuatRaw, distance: int)
    -> Vec3Raw {
    let offset = match target {
        Some(t) => t@,
        None => Vec3Raw { x: 0, y: 0, z: 0 },
    };
    v3_add(offset, v3_scale(q_rotate(rotation, Vec3Raw { x: 0, y: 0, z: SCALE as int }), distance))
}

/// Whether mouse look is in force: it is enabled, the window has focus and
/// the start-up delay is over. Only then is the mouse to be read.
pub fn is_mouselook_active(controls: &InputControl, focused: bool, elapsed_nanos: u128) -> (r:
    bool)
    ensures
        r == mouselook_active(*controls, focused, elapsed_nanos),
{
    controls.mouselook_enabled && focused && elapsed_nanos > INITIAL_GRAB_DELAY_NANOS
}

/// Collects the mouse movement of this tick and takes or releases the cursor.
///
/// While mouse look is enabled, the window has focus and the start-up delay
/// is over, the movement is summed up and divided by the window's width, and
/// the cursor is hidden and locked. Otherwise the movement is zero and the
/// cursor is shown and free.
pub fn mouse_update(
    delta: &mut MouseDelta,
    motion: &Vec<Vec2>,
    window: &mut Window,
    elapsed_nanos: u128,
    controls: &InputControl,
)
    ensures
        final(window).focused == old(window).focused,
        final(window).width == old(window).width,
        mouselook_active(*controls, old(window).focused, elapsed_nanos) ==> {
            &&& final(delta).value@ == v2_div(motion_sum_raw(motion@), old(window).width@)
            &&& !final(window).cursor_visible
            &&& final(window).cursor_grab_mode == CursorGrabMode::Locked
        },
        !mouselook_active(*controls, old(window).focused, elapsed_nanos) ==> {
            &&& final(delta).value@ == (Vec2Raw { x: 0, y: 0 })
            &&& final(window).cursor_visible
            &&& final(window).cursor_grab_mode == CursorGrabMode::Free
        },
{
    let enabled = is_mouselook_active(controls, window.focused, elapsed_nanos);

    if enabled {
        let mut sum = Vec2::zero();
        let mut i: usize = 0;
        while i < motion.len()
            invariant
                i <= motion.len(),
                sum@ == motion_sum_raw(motion@.subrange(0, i as int)),
            decreases motion.len() - i,
        {
            assert(motion@.subrange(0, i + 1).drop_last() =~= motion@.subrange(0, i as int));
            sum = sum.add(motion[i]);
            i += 1;
        }
        assert(motion@.subrange(0, i as int) =~= motion@);
        delta.value = sum.div(window.width);

        window.cursor_visible = false;
        window.cursor_grab_mode = CursorGrabMode::Locked;
    } else {
        delta.value = Vec2::zero();

        window.cursor_visible = true;
        window.cursor_grab_mode = CursorGrabMode::Free;
    }
}

/// The angles, in radians, by which the mouse movement turns the camera.
pub fn mouselook_controller(delta: &MouseDelta, settings: &MouselookSettings) -> (r: Vec2)
    ensures
        r@ == v2_scale(delta.value@, to_radians_raw(settings.sensitivity_degrees@)),
{
    let sensitivity = to_radians(settings.sensitivity_degrees);
    delta.value.scale(sensitivity)
}

/// Calculates the new camera rotation. `yaw` is the rotation about the
/// vertical axis by minus the horizontal angle, `pitch` the rotation about
/// the x axis by minus the vertical angle; both of length one.
///
/// If `allow_flip` is true, the camera is not stopped at the highest and
/// lowest elevation.
pub fn new_camera_rotation(yaw: Quat, pitch: Quat, old_rotation: Quat, allow_flip: bool) -> (r:
    Quat)
    ensures
        r@ == camera_rotation_raw(yaw@, pitch@, old_rotation@, allow_flip),
{
    // rotate around global y axis, then around local x axis
    let rotation = yaw.mul(old_rotation).mul(pitch);
    let up = Vec3::new(Fixed::zero(), Fixed::one(), Fixed::zero());

    if rotation.mul_vec3(up).y.raw > 0 {
        rotation
    } else {
        if allow_flip {
            yaw.conjugate().mul(old_rotation).mul(pitch)
        } else {
            yaw.mul(old_rotation)
        }
    }
}

/// The place of an orbiting camera with the given rotation whose target is at
/// `target`.
pub fn orbit_camera(target: Option<Vec3>, rotation: Quat, camera: &OrbitCamera) -> (r: Vec3)
    ensures
        r@ == orbit_translation_raw(target, rotation@, camera.distance@),
{
    let offset = match target {
        Some(t) => t,
        None => Vec3::zero(),
    };
    let back = Vec3::new(Fixed::zero(), Fixed::zero(), Fixed::one());
    offset.add(rotation.mul_vec3(back).scale(camera.distance))
}

} // verus!
