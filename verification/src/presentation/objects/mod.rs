//! Looks of the objects of the game world.
use vstd::prelude::*;
use crate::utils::plan::{App, Plugin, ResourceId, SystemEntry};

pub mod hovercrab;

verus! {

/// Brings the looks of all objects.
pub struct ObjectsPlugin;

impl Plugin for ObjectsPlugin {
    open spec fn systems(&self) -> Seq<SystemEntry> {
        hovercrab::HovercrabPlugin.systems()
    }

    open spec fn resources(&self) -> Seq<ResourceId> {
        hovercrab::HovercrabPlugin.resources()
    }

    fn build(&self, app: &mut App) {
        app.add_plugin(&hovercrab::HovercrabPlugin);
    }
}

} // verus!
