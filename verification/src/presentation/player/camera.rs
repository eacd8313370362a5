//! The camera that shows the world, and its skybox.
use vstd::prelude::*;
use crate::utils::plan::{App, Plugin, ResourceId, Schedule, SystemEntry, SystemId, free};
use crate::utils::fixed::{Fixed, div_raw};
use crate::utils::math_algorithms::{to_radians, to_radians_raw};

verus! {

/// Horizontal field of view of the world camera, in degrees.
pub const FIELD_OF_VIEW_DEGREES_RAW: i64 = 80_000_000;

/// Width of the picture the world camera is made for.
pub const PICTURE_WIDTH_RAW: i64 = 1_920_000_000;

/// Height of the picture the world camera is made for.
pub const PICTURE_HEIGHT_RAW: i64 = 1_080_000_000;

/// Marks the camera through which the world is seen.
#[derive(Clone, Copy, PartialEq, Eq, Debug, Structural)]
pub struct WorldCamera;

/// The opening of a camera.
#[derive(Clone, Copy, PartialEq, Eq, Debug, Structural)]
pub struct Lens {
    /// Horizontal field of view, in radians.
    pub horizontal_fov: Fixed,
    /// Width of the picture divided by its height.
    pub aspect_ratio: Fixed,
}

impl WorldCamera {
    /// The opening that a world camera is given when it appears.
    pub fn lens(&self) -> (r: Lens)
        ensures
            r.horizontal_fov@ == to_radians_raw(FIELD_OF_VIEW_DEGREES_RAW as int),
            r.aspect_ratio@ == div_raw(PICTURE_WIDTH_RAW as int, PICTURE_HEIGHT_RAW as int),
    {
        Lens {
            horizontal_fov: to_radians(Fixed::from_raw(FIELD_OF_VIEW_DEGREES_RAW)),
            aspect_ratio: Fixed::from_raw(PICTURE_WIDTH_RAW).div(
                Fixed::from_raw(PICTURE_HEIGHT_RAW),
            ),
        }
    }
}

/// Brings the skybox and the system that equips new world cameras.
pub struct CameraPlugin;

impl Plugin for CameraPlugin {
    open spec fn systems(&self) -> Seq<SystemEntry> {
        seq![
            free(Schedule::Startup, SystemId::LoadSkybox),
            free(Schedule::Update, SystemId::ConvertSkybox),
            free(Schedule::Update, SystemId::SetSkybox),
            free(Schedule::Update, SystemId::SpawnWorldCamera),
        ]
    }

    open spec fn resources(&self) -> Seq<ResourceId> {
        seq![ResourceId::SkyboxResource]
    }

    fn build(&self, app: &mut App) {
        app.init_resource(ResourceId::SkyboxResource);
        app.add_system(Schedule::Startup, SystemId::LoadSkybox);
        app.add_system(Schedule::Update, SystemId::ConvertSkybox);
        app.add_system(Schedule::Update, SystemId::SetSkybox);
        app.add_system(Schedule::Update, SystemId::SpawnWorldCamera);
        assert(app@.systems =~= old(app)@.systems + self.systems());
        assert(app@.resources =~= old(app)@.resources + self.resources());
    }
}

/// Whether the skybox picture has been turned into a cube map.
#[derive(Clone, Copy, PartialEq, Eq, Debug, Structural)]
pub struct SkyboxResource {
    pub converted: bool,
}

/// Decides whether the skybox picture is to be converted now: once, as soon
/// as it is loaded. Records that it was.
pub fn convert_skybox(skybox: &mut SkyboxResource, image_loaded: bool) -> (convert: bool)
    ensures
        convert == (!old(skybox).converted && image_loaded),
        final(skybox).converted == (old(skybox).converted || image_loaded),
{
    if !skybox.converted && image_loaded {
        skybox.converted = true;
        true
    } else {
        false
    }
}

/// Whether a camera is to be given the skybox now: once it is converted, and
/// only a camera that has none yet.
pub fn set_skybox(skybox: &SkyboxResource, has_skybox_set: bool) -> (set: bool)
    ensures
        set == (skybox.converted && !has_skybox_set),
{
    skybox.converted && !has_skybox_set
}

} // verus!
