//! What the player sees and touches: camera, mouse look, key actions.
use vstd::prelude::*;
use crate::utils::plan::{App, Plugin, ResourceId, SystemEntry};

pub mod objects;
pub mod player;

verus! {

/// Brings everything of the presentation layer that the game starts with.
pub struct PresentationPlugin;

impl Plugin for PresentationPlugin {
    open spec fn systems(&self) -> Seq<SystemEntry> {
        player::PlayerPlugin.systems()
    }

    open spec fn resources(&self) -> Seq<ResourceId> {
        player::PlayerPlugin.resources()
    }

    fn build(&self, app: &mut App) {
        app.add_plugin(&player::PlayerPlugin);
    }
}

} // verus!
