//! Rules of the game world: what the craft does with the player's intent.
use vstd::prelude::*;
use crate::utils::plan::{App, Plugin, ResourceId, SystemEntry};

pub mod objects;

verus! {

/// Brings the rules of all objects of the game world.
pub struct GameplayPlugin;

impl Plugin for GameplayPlugin {
    open spec fn systems(&self) -> Seq<SystemEntry> {
        objects::hovercrab::HovercrabPlugin.systems()
    }

    open spec fn resources(&self) -> Seq<ResourceId> {
        objects::hovercrab::HovercrabPlugin.resources()
    }

    fn build(&self, app: &mut App) {
        app.add_plugin(&objects::hovercrab::HovercrabPlugin);
    }
}

} // verus!
