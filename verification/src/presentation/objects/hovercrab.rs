//! Looks of the hovering craft.
use vstd::prelude::*;
use crate::utils::plan::{App, Plugin, ResourceId, Schedule, SystemEntry, SystemId, free};

verus! {

/// Brings the system that gives a new craft its model.
pub struct HovercrabPlugin;

impl Plugin for HovercrabPlugin {
    open spec fn systems(&self) -> Seq<SystemEntry> {
        seq![free(Schedule::Update, SystemId::SpawnHovercrabModel)]
    }

    open spec fn resources(&self) -> Seq<ResourceId> {
        Seq::empty()
    }

    fn build(&self, app: &mut App) {
        app.add_system(Schedule::Update, SystemId::SpawnHovercrabModel);
        assert(app@.systems =~= old(app)@.systems + self.systems());
        assert(app@.resources =~= old(app)@.resources + self.resources());
    }
}

} // verus!
