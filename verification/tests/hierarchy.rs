use hovercrab::utils::hierarchy::{iterate_children_recursively, Hierarchy};
use hovercrab::utils::plugins::scene_utils::spawn_static_colliders;
use std::collections::HashSet;

fn sorted(mut v: Vec<u64>) -> Vec<u64> {
    v.sort();
    v
}

fn scene() -> Hierarchy {
    // 1 -> 2, 3; 2 -> 4, 5; 5 -> 6; and apart from them 10 -> 11
    let mut h = Hierarchy::new();
    h.set_children(1, vec![2, 3]);
    h.set_children(2, vec![4, 5]);
    h.set_children(5, vec![6]);
    h.set_children(10, vec![11]);
    h
}

#[test]
fn walk_visits_every_descendant_once() {
    let order = iterate_children_recursively(1, &scene());
    assert_eq!(order[0], 1);
    assert_eq!(sorted(order), vec![1, 2, 3, 4, 5, 6]);
}

#[test]
fn walk_from_the_middle_stays_below() {
    assert_eq!(sorted(iterate_children_recursively(2, &scene())), vec![2, 4, 5, 6]);
    assert_eq!(iterate_children_recursively(6, &scene()), vec![6]);
    assert_eq!(iterate_children_recursively(99, &scene()), vec![99]);
    assert_eq!(iterate_children_recursively(7, &Hierarchy::new()), vec![7]);
}

#[test]
fn walk_ends_on_shared_children_and_cycles() {
    let mut h = Hierarchy::new();
    h.set_children(1, vec![2, 3, 2]);
    h.set_children(2, vec![4]);
    h.set_children(3, vec![4]);
    h.set_children(4, vec![1]);
    let order = iterate_children_recursively(1, &h);
    assert_eq!(order[0], 1);
    assert_eq!(sorted(order), vec![1, 2, 3, 4]);
}

#[test]
fn children_are_replaced_not_added() {
    let mut h = scene();
    h.set_children(2, vec![7]);
    assert_eq!(h.children_of(2), Some(&vec![7]));
    assert_eq!(h.children_of(3), None);
    assert_eq!(sorted(iterate_children_recursively(1, &h)), vec![1, 2, 3, 7]);
}

#[test]
fn scene_without_meshes_waits() {
    let meshes: HashSet<u64> = HashSet::new();
    assert_eq!(spawn_static_colliders(1, &scene(), &meshes), None);
    // a mesh elsewhere does not count
    let elsewhere: HashSet<u64> = [11].into_iter().collect();
    assert_eq!(spawn_static_colliders(1, &scene(), &elsewhere), None);
}

#[test]
fn scene_with_meshes_gets_a_collider_for_each() {
    let meshes: HashSet<u64> = [3, 6, 11, 1].into_iter().collect();
    let colliders = spawn_static_colliders(1, &scene(), &meshes).unwrap();
    assert_eq!(sorted(colliders), vec![1, 3, 6]);
}
