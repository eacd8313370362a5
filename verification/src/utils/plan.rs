//! The plan of an application: which systems run in which schedule, and in
//! what order. Plugins write the plan; the host that owns the window and the
//! physics engine reads it and runs the systems accordingly.
use vstd::prelude::*;

verus! {

/// When a system runs.
#[derive(Clone, Copy, PartialEq, Eq, Hash, Debug, Structural)]
pub enum Schedule {
    /// Once, before the first tick.
    Startup,
    /// At the start of every tick, before input is interpreted.
    First,
    /// Every tick, before the game rules.
    PreUpdate,
    /// Every tick: the game rules.
    Update,
}

/// The systems of the game.
#[derive(Clone, Copy, PartialEq, Eq, Hash, Debug, Structural)]
pub enum SystemId {
    SpawnHovercrab,
    HovercrabInput,
    UpdateHovercrab,
    SpawnHovercrabModel,
    ExitOnCtrlQ,
    LoadSkybox,
    ConvertSkybox,
    SetSkybox,
    SpawnWorldCamera,
    MouseUpdate,
    MouselookController,
    OrbitCamera,
    InitialSpawn,
    SpawnPlayer,
    SpawnStaticColliders,
}

/// State shared by systems, created with its default value.
#[derive(Clone, Copy, PartialEq, Eq, Hash, Debug, Structural)]
pub enum ResourceId {
    SkyboxResource,
    MouselookSettings,
    MouseDelta,
    InputControl,
}

/// One system in the plan. Where `after` names a system, that one must have
/// completed in the same tick before this one starts.
#[derive(Clone, Copy, PartialEq, Eq, Debug, Structural)]
pub struct SystemEntry {
    pub schedule: Schedule,
    pub system: SystemId,
    pub after: Option<SystemId>,
}

/// A system that runs in `schedule` in no particular order.
pub open spec fn free(schedule: Schedule, system: SystemId) -> SystemEntry {
    SystemEntry { schedule, system, after: None }
}

/// A system that runs in `schedule` once `first` has completed.
pub open spec fn chained(schedule: Schedule, first: SystemId, system: SystemId) -> SystemEntry {
    SystemEntry { schedule, system, after: Some(first) }
}

/// Mathematical model of an [`App`].
pub struct AppView {
    pub systems: Seq<SystemEntry>,
    pub resources: Seq<ResourceId>,
}

/// `first` is planned in `schedule`, and `second` is planned there to start
/// only after it.
pub open spec fn runs_before(app: AppView, schedule: Schedule, first: SystemId, second: SystemId)
    -> bool {
    &&& app.systems.contains(free(schedule, first)) || exists|earlier: SystemId|
        app.systems.contains(chained(schedule, earlier, first))
    &&& app.systems.contains(chained(schedule, first, second))
}

/// The plan under construction.
pub struct App {
    systems: Vec<SystemEntry>,
    resources: Vec<ResourceId>,
}

impl View for App {
    type V = AppView;

    closed spec fn view(&self) -> AppView {
        AppView { systems: self.systems@, resources: self.resources@ }
    }
}

impl App {
    /// An empty plan.
    pub fn new() -> (r: App)
        ensures
            r@.systems == Seq::<SystemEntry>::empty(),
            r@.resources == Seq::<ResourceId>::empty(),
    {
        App { systems: Vec::new(), resources: Vec::new() }
    }

    /// Plans `system` in `schedule`, in no particular order.
    pub fn add_system(&mut self, schedule: Schedule, system: SystemId)
        ensures
            final(self)@.systems == old(self)@.systems.push(free(schedule, system)),
            final(self)@.resources == old(self)@.resources,
    {
        self.systems.push(SystemEntry { schedule, system, after: None });
    }

    /// Plans `first` and then `second` in `schedule`, the second to start only
    /// when the first has completed.
    pub fn add_chain(&mut self, schedule: Schedule, first: SystemId, second: SystemId)
        ensures
            final(self)@.systems == old(self)@.systems.push(free(schedule, first)).push(
                chained(schedule, first, second),
            ),
            final(self)@.resources == old(self)@.resources,
    {
        self.systems.push(SystemEntry { schedule, system: first, after: None });
        self.systems.push(SystemEntry { schedule, system: second, after: Some(first) });
    }

    /// Plans the creation of `resource` with its default value.
    pub fn init_resource(&mut self, resource: ResourceId)
        ensures
            final(self)@.systems == old(self)@.systems,
            final(self)@.resources == old(self)@.resources.push(resource),
    {
        self.resources.push(resource);
    }

    /// Lets `plugin` add what it brings.
    pub fn add_plugin<P: Plugin>(&mut self, plugin: &P)
        ensures
            final(self)@.systems == old(self)@.systems + plugin.systems(),
            final(self)@.resources == old(self)@.resources + plugin.resources(),
    {
        plugin.build(self);
    }

    /// The systems planned so far, in the order they were added.
    pub fn systems(&self) -> (r: Vec<SystemEntry>)
        ensures
            r@ == self@.systems,
    {
        self.systems.clone()
    }

    /// The resources planned so far, in the order they were added.
    pub fn resources(&self) -> (r: Vec<ResourceId>)
        ensures
            r@ == self@.resources,
    {
        self.resources.clone()
    }
}

/// A part of the game that knows which systems and resources it needs.
pub trait Plugin {
    /// The systems that [`Plugin::build`] plans, in order.
    spec fn systems(&self) -> Seq<SystemEntry>;

    /// The resources that [`Plugin::build`] plans, in order.
    spec fn resources(&self) -> Seq<ResourceId>;

    /// Adds this plugin's systems and resources to the plan.
    fn build(&self, app: &mut App)
        ensures
            final(app)@.systems == old(app)@.systems + self.systems(),
            final(app)@.resources == old(app)@.resources + self.resources(),
    ;
}

} // verus!
