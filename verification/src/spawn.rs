//! Setting the stage: what the world holds before any level exists, and the
//! player's craft with its camera.
use vstd::prelude::*;
use crate::gameplay::objects::hovercrab::{Hovercrab, HovercrabView};
use crate::presentation::player::mouselook::{MouselookController, OrbitCamera};
use crate::utils::plan::{App, Plugin, ResourceId, Schedule, SystemEntry, SystemId, free};
use crate::utils::fixed::Fixed;
use crate::utils::input::Input;
use crate::utils::vector::{Vec3, Vec3Raw};

verus! {

/// Height at which the player's craft appears.
pub const PLAYER_START_HEIGHT_RAW: i64 = 5_000_000;

/// Distance that the player's camera keeps from the craft.
pub const PLAYER_CAMERA_DISTANCE_RAW: i64 = 12_000_000;

/// Brings the systems that fill the world until levels take over.
pub struct TmpPlugin;

impl Plugin for TmpPlugin {
    open spec fn systems(&self) -> Seq<SystemEntry> {
        seq![
            free(Schedule::Startup, SystemId::InitialSpawn),
            free(Schedule::Update, SystemId::SpawnPlayer),
        ]
    }

    open spec fn resources(&self) -> Seq<ResourceId> {
        Seq::empty()
    }

    fn build(&self, app: &mut App) {
        app.add_system(Schedule::Startup, SystemId::InitialSpawn);
        app.add_system(Schedule::Update, SystemId::SpawnPlayer);
        assert(app@.systems =~= old(app)@.systems + self.systems());
        assert(app@.resources =~= old(app)@.resources + self.resources());
    }
}

/// What to create for the player: a craft, and a camera that looks at it.
#[derive(Clone, Copy, PartialEq, Eq, Debug, Structural)]
pub struct PlayerSpawn {
    /// Where the craft appears.
    pub translation: Vec3,
    /// How the camera turns with the mouse.
    pub mouselook: MouselookController,
    /// Distance that the camera keeps from the craft.
    pub orbit_distance: Fixed,
}

impl PlayerSpawn {
    /// The orbit of the player's camera, around the craft `player_entity`.
    pub fn orbit(&self, player_entity: u64) -> (r: OrbitCamera)
        ensures
            r.target == Some(player_entity),
            r.distance == self.orbit_distance,
    {
        OrbitCamera { target: Some(player_entity), distance: self.orbit_distance }
    }

    /// The controller state of the player's craft, which is to follow the
    /// heading of the camera `camera_entity`.
    pub fn craft(&self, camera_entity: u64) -> (r: Hovercrab)
        ensures
            r@ == (HovercrabView {
                camera_entity: Some(camera_entity),
                input_dir: Vec3Raw { x: 0, y: 0, z: 0 },
                input_accel: false,
                input_stop: false,
                target_rotation: Vec3Raw { x: 0, y: 0, z: 0 },
            }),
    {
        Hovercrab::new(camera_entity)
    }
}

/// Decides whether the player is to be created anew: on the first tick, and
/// whenever the reset key goes down. Everything created for the player before
/// is then to be removed, with all that hangs below it.
pub fn spawn_player(keys: &Input, inited: &mut bool) -> (r: Option<PlayerSpawn>)
    ensures
        *final(inited),
        r is Some <==> keys.just_pressed.reset || !*old(inited),
        r matches Some(spawn) ==> {
            &&& spawn.translation@ == (Vec3Raw { x: 0, y: PLAYER_START_HEIGHT_RAW as int, z: 0 })
            &&& !spawn.mouselook.allow_flip
            &&& spawn.orbit_distance@ == PLAYER_CAMERA_DISTANCE_RAW
        },
{
    if keys.just_pressed.reset || !*inited {
        *inited = true;
        Some(
            PlayerSpawn {
                translation: Vec3::new(
                    Fixed::zero(),
                    Fixed::from_raw(PLAYER_START_HEIGHT_RAW),
                    Fixed::zero(),
                ),
                mouselook: MouselookController { allow_flip: false },
                orbit_distance: Fixed::from_raw(PLAYER_CAMERA_DISTANCE_RAW),
            },
        )
    } else {
        None
    }
}

} // verus!
