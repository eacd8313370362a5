//! The player's camera and controls.
use vstd::prelude::*;
use crate::utils::plan::{App, Plugin, ResourceId, SystemEntry};

pub mod actions;
pub mod camera;
pub mod mouselook;

verus! {

/// Brings the camera, the mouse look and the key actions.
pub struct PlayerPlugin;

impl Plugin for PlayerPlugin {
    open spec fn systems(&self) -> Seq<SystemEntry> {
        camera::CameraPlugin.systems() + mouselook::MouselookPlugin.systems()
            + actions::ActionsPlugin.systems()
    }

    open spec fn resources(&self) -> Seq<ResourceId> {
        camera::CameraPlugin.resources() + mouselook::MouselookPlugin.resources()
            + actions::ActionsPlugin.resources()
    }

    fn build(&self, app: &mut App) {
        app.add_plugin(&camera::CameraPlugin);
        app.add_plugin(&mouselook::MouselookPlugin);
        app.add_plugin(&actions::ActionsPlugin);
        assert(app@.systems =~= old(app)@.systems + self.systems());
        assert(app@.resources =~= old(app)@.resources + self.resources());
    }
}

} // verus!
