//! Parent-child relations between entities, and the walk over all descendants.
use std::collections::HashMap;
use std::collections::HashSet;
use vstd::prelude::*;
use vstd::std_specs::hash::*;

verus! {

broadcast use vstd::std_specs::hash::group_hash_axioms;

/// `child` is listed among the children of `parent`.
pub open spec fn is_child(h: Map<u64, Seq<u64>>, parent: u64, child: u64) -> bool {
    h.contains_key(parent) && h[parent].contains(child)
}

/// `path` leads from its first entity down to its last, child by child.
pub open spec fn is_path(h: Map<u64, Seq<u64>>, path: Seq<u64>) -> bool {
    &&& path.len() > 0
    &&& forall|i: int| 0 <= i < path.len() - 1 ==> is_child(h, #[trigger] path[i], path[i + 1])
}

/// `entity` is `root` itself or one of its descendants.
pub open spec fn reaches(h: Map<u64, Seq<u64>>, root: u64, entity: u64) -> bool {
    exists|path: Seq<u64>| #[trigger] is_path(h, path) && path[0] == root && path.last() == entity
}

/// Every child of a member of `s` is in `s` or in `pending`.
pub open spec fn closed_up_to(h: Map<u64, Seq<u64>>, s: Set<u64>, pending: Seq<u64>) -> bool {
    forall|p: u64, c: u64|
        s.contains(p) && #[trigger] is_child(h, p, c) ==> s.contains(c) || pending.contains(c)
}

/// Every entity reaches itself.
pub proof fn lemma_reaches_self(h: Map<u64, Seq<u64>>, root: u64)
    ensures
        reaches(h, root, root),
{
    let path = seq![root];
    assert(is_path(h, path));
    assert(path[0] == root && path.last() == root);
}

/// A child of a descendant is a descendant.
pub proof fn lemma_reaches_child(h: Map<u64, Seq<u64>>, root: u64, parent: u64, child: u64)
    requires
        reaches(h, root, parent),
        is_child(h, parent, child),
    ensures
        reaches(h, root, child),
{
    let path = choose|path: Seq<u64>| #[trigger]
        is_path(h, path) && path[0] == root && path.last() == parent;
    let longer = path.push(child);
    assert forall|i: int| 0 <= i < longer.len() - 1 implies is_child(
        h,
        #[trigger] longer[i],
        longer[i + 1],
    ) by {
        if i < path.len() - 1 {
            assert(is_child(h, path[i], path[i + 1]));
        }
    }
    assert(is_path(h, longer));
    assert(longer[0] == root && longer.last() == child);
}

/// A set that holds the first entity of a path and, with each entity, its
/// children, holds the last entity of the path.
proof fn lemma_closed_holds_path(h: Map<u64, Seq<u64>>, s: Set<u64>, path: Seq<u64>)
    requires
        is_path(h, path),
        s.contains(path[0]),
        closed_up_to(h, s, Seq::empty()),
    ensures
        s.contains(path.last()),
    decreases path.len(),
{
    if path.len() > 1 {
        let shorter = path.drop_last();
        assert forall|i: int| 0 <= i < shorter.len() - 1 implies is_child(
            h,
            #[trigger] shorter[i],
            shorter[i + 1],
        ) by {
            assert(is_child(h, path[i], path[i + 1]));
        }
        lemma_closed_holds_path(h, s, shorter);
        let last = path.len() - 2;
        assert(is_child(h, path[last], path[last + 1]));
    }
}

/// For each entity that has children, the list of them.
pub struct Hierarchy {
    children: HashMap<u64, Vec<u64>>,
}

impl View for Hierarchy {
    type V = Map<u64, Seq<u64>>;

    closed spec fn view(&self) -> Map<u64, Seq<u64>> {
        Map::new(|e: u64| self.children@.contains_key(e), |e: u64| self.children@[e]@)
    }
}

impl Hierarchy {
    /// A world in which no entity has children.
    pub fn new() -> (r: Hierarchy)
        ensures
            r@ == Map::<u64, Seq<u64>>::empty(),
    {
        let r = Hierarchy { children: HashMap::new() };
        assert(r@ =~= Map::<u64, Seq<u64>>::empty());
        r
    }

    /// Makes `children` the children of `parent`, in place of any it had.
    pub fn set_children(&mut self, parent: u64, children: Vec<u64>)
        ensures
            final(self)@ == old(self)@.insert(parent, children@),
    {
        let ghost listed = children@;
        self.children.insert(parent, children);
        assert(self@ =~= old(self)@.insert(parent, listed));
    }

    /// The children of `entity`, if it has any listed.
    pub fn children_of(&self, entity: u64) -> (r: Option<&Vec<u64>>)
        ensures
            match r {
                Some(children) => self@.contains_key(entity) && children@ == self@[entity],
                None => !self@.contains_key(entity),
            },
    {
        self.children.get(&entity)
    }

    /// Only finitely many entities have children.
    pub proof fn lemma_finite(&self)
        ensures
            self@.dom().finite(),
    {
        assert(self@.dom() =~= self.children@.dom());
    }
}

/// Appends `items` to `stack`.
fn push_all(stack: &mut Vec<u64>, items: &Vec<u64>)
    ensures
        final(stack)@ == old(stack)@ + items@,
{
    let mut i: usize = 0;
    while i < items.len()
        invariant
            i <= items.len(),
            stack@ == old(stack)@ + items@.subrange(0, i as int),
        decreases items.len() - i,
    {
        stack.push(items[i]);
        i += 1;
        assert(stack@ =~= old(stack)@ + items@.subrange(0, i as int));
    }
    assert(items@.subrange(0, i as int) =~= items@);
}

/// Lists `root` and all children of it, their children, and so on: each
/// entity once, `root` first, the others in no particular order.
pub fn iterate_children_recursively(root: u64, children: &Hierarchy) -> (order: Vec<u64>)
    ensures
        order@.no_duplicates(),
        forall|e: u64| order@.contains(e) <==> reaches(children@, root, e),
        order@.len() > 0,
        order@[0] == root,
{
    let mut order: Vec<u64> = Vec::new();
    let mut seen: HashSet<u64> = HashSet::new();
    let mut entities: Vec<u64> = Vec::new();
    entities.push(root);
    proof {
        children.lemma_finite();
        lemma_reaches_self(children@, root);
        assert(entities@[0] == root);
    }
    while entities.len() > 0
        invariant
            children@.dom().finite(),
            order@.no_duplicates(),
            forall|e: u64| seen@.contains(e) <==> order@.contains(e),
            forall|i: int| 0 <= i < order@.len() ==> reaches(children@, root, #[trigger] order@[i]),
            forall|i: int|
                0 <= i < entities@.len() ==> reaches(children@, root, #[trigger] entities@[i]),
            closed_up_to(children@, seen@, entities@),
            seen@.contains(root) || entities@.contains(root),
            order@.len() > 0 ==> order@[0] == root,
            order@.len() == 0 ==> entities@ =~= seq![root],
        decreases children@.dom().difference(seen@).len(), entities@.len(),
    {
        let ghost before = entities@;
        let ghost seen_before = seen@;
        let ghost order_before = order@;
        let entity = entities.pop().unwrap();
        assert(before =~= entities@.push(entity));
        assert forall|c: u64| before.contains(c) implies entities@.contains(c) || c == entity by {
            let i = choose|i: int| 0 <= i < before.len() && before[i] == c;
            if i < entities@.len() {
                assert(entities@[i] == c);
            }
        }
        assert(reaches(children@, root, entity)) by {
            assert(before[before.len() - 1] == entity);
        }
        if !seen.contains(&entity) {
            seen.insert(entity);
            order.push(entity);
            assert(order@ =~= order_before.push(entity));
            assert(seen@ =~= seen_before.insert(entity));
            assert forall|e: u64| seen@.contains(e) <==> order@.contains(e) by {
                if order@.contains(e) {
                    let i = choose|i: int| 0 <= i < order@.len() && order@[i] == e;
                    if i < order_before.len() {
                        assert(order_before[i] == e);
                    }
                }
                if seen@.contains(e) {
                    if e == entity {
                        assert(order@[order@.len() - 1] == e);
                    } else {
                        assert(seen_before.contains(e));
                        assert(order_before.contains(e));
                        let i = choose|i: int| 0 <= i < order_before.len() && order_before[i] == e;
                        assert(order@[i] == e);
                    }
                }
            }
            assert(order@.no_duplicates()) by {
                assert forall|i: int, j: int|
                    0 <= i < order@.len() && 0 <= j < order@.len() && i != j implies order@[i]
                    != order@[j] by {
                    if i == order@.len() - 1 {
                        assert(order_before[j] == order@[j]);
                    } else if j == order@.len() - 1 {
                        assert(order_before[i] == order@[i]);
                    } else {
                        assert(order_before[i] == order@[i]);
                        assert(order_before[j] == order@[j]);
                    }
                }
            }
            let ghost stack_before = entities@;
            match children.children_of(entity) {
                Some(listed) => {
                    push_all(&mut entities, listed);
                    proof {
                        assert forall|i: int| 0 <= i < entities@.len() implies reaches(
                            children@,
                            root,
                            #[trigger] entities@[i],
                        ) by {
                            if i >= stack_before.len() {
                                let c = listed@[i - stack_before.len()];
                                assert(is_child(children@, entity, c));
                                lemma_reaches_child(children@, root, entity, c);
                            } else {
                                assert(entities@[i] == stack_before[i]);
                            }
                        }
                        assert forall|c: u64|
                            stack_before.contains(c) implies entities@.contains(c) by {
                            let i = choose|i: int| 0 <= i < stack_before.len() && stack_before[i]
                                == c;
                            assert(entities@[i] == c);
                        }
                        assert forall|c: u64| listed@.contains(c) implies entities@.contains(c) by {
                            let i = choose|i: int| 0 <= i < listed@.len() && listed@[i] == c;
                            assert(entities@[stack_before.len() + i] == c);
                        }
                        assert(children@.dom().difference(seen@) =~= children@.dom().difference(
                            seen_before,
                        ).remove(entity));
                    }
                },
                None => {
                    proof {
                        assert(children@.dom().difference(seen@) =~= children@.dom().difference(
                            seen_before,
                        ));
                    }
                },
            }
            assert(closed_up_to(children@, seen@, entities@)) by {
                assert forall|p: u64, c: u64|
                    seen@.contains(p) && #[trigger] is_child(children@, p, c) implies seen@.contains(
                    c,
                ) || entities@.contains(c) by {
                    if p != entity {
                        assert(seen_before.contains(p));
                        assert(seen_before.contains(c) || before.contains(c));
                    }
                }
            }
        }
    }
    proof {
        assert(entities@ =~= Seq::<u64>::empty());
        assert forall|e: u64| order@.contains(e) <==> reaches(children@, root, e) by {
            if reaches(children@, root, e) {
                let path = choose|path: Seq<u64>| #[trigger]
                    is_path(children@, path) && path[0] == root && path.last() == e;
                lemma_closed_holds_path(children@, seen@, path);
            }
            if order@.contains(e) {
                let i = choose|i: int| 0 <= i < order@.len() && order@[i] == e;
                assert(reaches(children@, root, order@[i]));
            }
        }
    }
    order
}

} // verus!
