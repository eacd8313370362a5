//! Deterministic flight control for a hovering craft.
//!
//! All quantities are signed decimal fixed-point numbers, so that every
//! participant of a simulation computes bit-identical forces from the same
//! inputs.
use vstd::prelude::*;
use crate::gameplay::GameplayPlugin;
use crate::presentation::PresentationPlugin;
use crate::spawn::TmpPlugin;
use crate::utils::plan::{
    App, Plugin, ResourceId, Schedule, SystemEntry, SystemId, chained, free, runs_before,
};
use crate::utils::plugins::UtilPlugins;

pub mod gameplay;
pub mod presentation;
pub mod spawn;
pub mod utils;

verus! {

/// The systems of the whole game, in the order the plugins plan them.
pub open spec fn game_systems() -> Seq<SystemEntry> {
    UtilPlugins.systems() + TmpPlugin.systems() + GameplayPlugin.systems()
        + PresentationPlugin.systems()
}

/// The resources of the whole game, in the order the plugins plan them.
pub open spec fn game_resources() -> Seq<ResourceId> {
    UtilPlugins.resources() + TmpPlugin.resources() + GameplayPlugin.resources()
        + PresentationPlugin.resources()
}

/// The plan of the whole game.
pub fn game_app() -> (app: App)
    ensures
        app@.systems == game_systems(),
        app@.resources == game_resources(),
        runs_before(app@, Schedule::Update, SystemId::HovercrabInput, SystemId::UpdateHovercrab),
{
    let mut app = App::new();
    app.add_plugin(&UtilPlugins);
    app.add_plugin(&TmpPlugin);
    app.add_plugin(&GameplayPlugin);
    app.add_plugin(&PresentationPlugin);
    assert(app@.systems =~= game_systems());
    assert(app@.resources =~= game_resources());
    proof {
        input_mapper_runs_before_controller();
    }
    app
}

/// In the game's plan the input mapper has completed in every tick before the
/// hover controller starts.
pub proof fn input_mapper_runs_before_controller()
    ensures
        game_systems().contains(free(Schedule::Update, SystemId::HovercrabInput)),
        game_systems().contains(
            chained(Schedule::Update, SystemId::HovercrabInput, SystemId::UpdateHovercrab),
        ),
{
    let s = game_systems();
    assert(s[4] == free(Schedule::Update, SystemId::HovercrabInput));
    assert(s[5] == chained(Schedule::Update, SystemId::HovercrabInput, SystemId::UpdateHovercrab));
}

} // verus!
