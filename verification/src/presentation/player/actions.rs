//! Actions bound to keys.
use vstd::prelude::*;
use crate::utils::plan::{App, Plugin, ResourceId, Schedule, SystemEntry, SystemId, free};
use crate::utils::input::Input;

verus! {

/// Brings the quit action.
pub struct ActionsPlugin;

impl Plugin for ActionsPlugin {
    open spec fn systems(&self) -> Seq<SystemEntry> {
        seq![free(Schedule::PreUpdate, SystemId::ExitOnCtrlQ)]
    }

    open spec fn resources(&self) -> Seq<ResourceId> {
        Seq::empty()
    }

    fn build(&self, app: &mut App) {
        app.add_system(Schedule::PreUpdate, SystemId::ExitOnCtrlQ);
        assert(app@.systems =~= old(app)@.systems + self.systems());
        assert(app@.resources =~= old(app)@.resources + self.resources());
    }
}

/// Whether the application is to end: the quit key went down while the
/// control modifier, which doubles as the brake, is held.
pub fn exit_on_ctrl_q(keys: &Input) -> (exit: bool)
    ensures
        exit == (keys.just_pressed.quit && keys.pressed.brake),
{
    keys.just_pressed.quit && keys.pressed.brake
}

} // verus!
