//! Plugins that serve the whole game.
use vstd::prelude::*;
use crate::utils::plan::{App, Plugin, ResourceId, SystemEntry};

pub mod scene_utils;

verus! {

/// Brings all utility plugins.
pub struct UtilPlugins;

impl Plugin for UtilPlugins {
    open spec fn systems(&self) -> Seq<SystemEntry> {
        scene_utils::SceneUtilsPlugin.systems()
    }

    open spec fn resources(&self) -> Seq<ResourceId> {
        scene_utils::SceneUtilsPlugin.resources()
    }

    fn build(&self, app: &mut App) {
        app.add_plugin(&scene_utils::SceneUtilsPlugin);
    }
}

} // verus!
