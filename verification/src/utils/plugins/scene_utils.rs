//! Making loaded scenes solid.
use std::collections::HashSet;
use vstd::prelude::*;
use vstd::std_specs::hash::*;
use crate::utils::plan::{App, Plugin, ResourceId, Schedule, SystemEntry, SystemId, free};
use crate::utils::hierarchy::{Hierarchy, iterate_children_recursively, reaches};

verus! {

broadcast use vstd::std_specs::hash::group_hash_axioms;

/// Put this on the root of a loaded scene, and every entity below it that
/// carries a mesh gets a fixed body with a collider made of that mesh.
///
/// Nothing happens until at least one entity of the scene carries a mesh.
/// The mark is taken off once the colliders are made.
#[derive(Clone, Copy, PartialEq, Eq, Debug, Structural)]
pub struct SceneStaticCollider;

/// Brings the system that makes marked scenes solid.
pub struct SceneUtilsPlugin;

impl Plugin for SceneUtilsPlugin {
    open spec fn systems(&self) -> Seq<SystemEntry> {
        seq![free(Schedule::Update, SystemId::SpawnStaticColliders)]
    }

    open spec fn resources(&self) -> Seq<ResourceId> {
        Seq::empty()
    }

    fn build(&self, app: &mut App) {
        app.add_system(Schedule::Update, SystemId::SpawnStaticColliders);
        assert(app@.systems =~= old(app)@.systems + self.systems());
        assert(app@.resources =~= old(app)@.resources + self.resources());
    }
}

/// `entity` is `root` or below it and carries a mesh.
pub open spec fn needs_collider(
    children: Map<u64, Seq<u64>>,
    meshes: Set<u64>,
    root: u64,
    entity: u64,
) -> bool {
    reaches(children, root, entity) && meshes.contains(entity)
}

/// Decides what to do about the scene under the marked entity `root`.
///
/// `meshes` holds the entities that carry a mesh. While the scene has none,
/// the result is `None`: the mark stays and the scene is looked at again next
/// tick. Otherwise the result lists, each once, the entities that are to get
/// a collider, and the mark is to be taken off `root`.
pub fn spawn_static_colliders(root: u64, children: &Hierarchy, meshes: &HashSet<u64>) -> (r:
    Option<Vec<u64>>)
    ensures
        r is None <==> forall|e: u64| !needs_collider(children@, meshes@, root, e),
        r matches Some(colliders) ==> {
            &&& colliders@.no_duplicates()
            &&& forall|e: u64|
                colliders@.contains(e) <==> needs_collider(children@, meshes@, root, e)
        },
{
    let order = iterate_children_recursively(root, children);
    let mut colliders: Vec<u64> = Vec::new();
    let mut i: usize = 0;
    while i < order.len()
        invariant
            i <= order.len(),
            order@.no_duplicates(),
            forall|k: int| 0 <= k < colliders@.len() ==> meshes@.contains(#[trigger] colliders@[k]),
            forall|k: int|
                0 <= k < colliders@.len() ==> exists|j: int|
                    0 <= j < i && order@[j] == #[trigger] colliders@[k],
            forall|j: int|
                0 <= j < i && meshes@.contains(#[trigger] order@[j]) ==> colliders@.contains(
                    order@[j],
                ),
            colliders@.no_duplicates(),
        decreases order.len() - i,
    {
        let entity = order[i];
        if meshes.contains(&entity) {
            let ghost before = colliders@;
            colliders.push(entity);
            assert(colliders@ =~= before.push(entity));
            assert forall|k: int| 0 <= k < colliders@.len() implies exists|j: int|
                0 <= j < i + 1 && order@[j] == #[trigger] colliders@[k] by {
                if k < before.len() {
                    let j = choose|j: int| 0 <= j < i && order@[j] == before[k];
                    assert(order@[j] == colliders@[k]);
                } else {
                    assert(order@[i as int] == colliders@[k]);
                }
            }
            assert forall|j: int|
                0 <= j < i + 1 && meshes@.contains(
                    #[trigger] order@[j],
                ) implies colliders@.contains(order@[j]) by {
                if j < i {
                    let k = choose|k: int| 0 <= k < before.len() && before[k] == order@[j];
                    assert(colliders@[k] == order@[j]);
                } else {
                    assert(colliders@[before.len() as int] == order@[j]);
                }
            }
            assert(colliders@.no_duplicates()) by {
                assert forall|a: int, b: int|
                    0 <= a < colliders@.len() && 0 <= b < colliders@.len() && a
                        != b implies colliders@[a] != colliders@[b] by {
                    if a < before.len() && b < before.len() {
                        assert(before[a] != before[b]);
                    } else if a < before.len() {
                        let j = choose|j: int| 0 <= j < i && order@[j] == before[a];
                        assert(order@[j] != order@[i as int]);
                    } else {
                        let j = choose|j: int| 0 <= j < i && order@[j] == before[b];
                        assert(order@[j] != order@[i as int]);
                    }
                }
            }
        }
        i += 1;
    }
    proof {
        assert forall|e: u64|
            colliders@.contains(e) <==> needs_collider(children@, meshes@, root, e) by {
            if colliders@.contains(e) {
                let k = choose|k: int| 0 <= k < colliders@.len() && colliders@[k] == e;
                let j = choose|j: int| 0 <= j < i && order@[j] == colliders@[k];
                assert(order@.contains(e));
            }
            if needs_collider(children@, meshes@, root, e) {
                assert(order@.contains(e));
                let j = choose|j: int| 0 <= j < order@.len() && order@[j] == e;
                assert(colliders@.contains(order@[j]));
            }
        }
    }
    if colliders.len() == 0 {
        proof {
            assert forall|e: u64| !needs_collider(children@, meshes@, root, e) by {
                if needs_collider(children@, meshes@, root, e) {
                    assert(colliders@.contains(e));
                }
            }
        }
        None
    } else {
        proof {
            assert(colliders@.contains(colliders@[0]));
            assert(needs_collider(children@, meshes@, root, colliders@[0]));
        }
        Some(colliders)
    }
}

} // verus!
