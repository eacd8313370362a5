use hovercrab::gameplay::objects::controller::ExternalForce;
use hovercrab::gameplay::objects::hovercrab::{
    hovercrab_input, spawn_hovercrab, CraftStage, Hovercrab, RigidBody,
};
use hovercrab::utils::fixed::Fixed;
use hovercrab::utils::input::{Input, Keys};
use hovercrab::utils::quat::Quat;
use hovercrab::utils::vector::Vec3;

fn at(x: i64, y: i64, z: i64) -> Vec3 {
    Vec3::new(Fixed::from_raw(x), Fixed::from_raw(y), Fixed::from_raw(z))
}

fn held(set: fn(&mut Keys)) -> Input {
    let mut input = Input::idle();
    set(&mut input.pressed);
    input
}

fn intent(set: fn(&mut Keys)) -> Vec3 {
    let mut crab = Hovercrab::new(3);
    hovercrab_input(&mut crab, None, &held(set));
    crab.input_dir()
}

#[test]
fn new_craft_has_no_intent() {
    let crab = Hovercrab::new(42);
    assert_eq!(crab.camera_entity(), Some(42));
    assert_eq!(crab.input_dir(), Vec3::zero());
    assert!(!crab.input_accel());
    assert!(!crab.input_stop());
    assert_eq!(crab.target_rotation(), Vec3::zero());
}

#[test]
fn single_keys_give_unit_intents() {
    assert_eq!(intent(|k| k.forward = true), at(0, 0, -1_000_000));
    assert_eq!(intent(|k| k.backward = true), at(0, 0, 1_000_000));
    assert_eq!(intent(|k| k.left = true), at(-1_000_000, 0, 0));
    assert_eq!(intent(|k| k.right = true), at(1_000_000, 0, 0));
    assert_eq!(intent(|k| k.up = true), at(0, 1_000_000, 0));
    assert_eq!(intent(|k| k.down = true), at(0, -1_000_000, 0));
    assert_eq!(intent(|_| ()), Vec3::zero());
}

#[test]
fn diagonal_intent_has_unit_length_in_the_plane() {
    let diagonal = intent(|k| {
        k.forward = true;
        k.right = true;
    });
    assert_eq!(diagonal, at(707_107, 0, -707_107));
    let planar = diagonal.length().raw();
    assert!((planar - 1_000_000).abs() <= 2);
}

#[test]
fn vertical_intent_is_added_after_normalizing() {
    let climbing = intent(|k| {
        k.backward = true;
        k.left = true;
        k.up = true;
    });
    assert_eq!(climbing, at(-707_107, 1_000_000, 707_107));
}

#[test]
fn opposite_keys_cancel() {
    assert_eq!(
        intent(|k| {
            k.forward = true;
            k.backward = true;
            k.left = true;
        }),
        at(-1_000_000, 0, 0)
    );
    assert_eq!(
        intent(|k| {
            k.up = true;
            k.down = true;
        }),
        Vec3::zero()
    );
}

#[test]
fn modifiers_are_captured() {
    let mut crab = Hovercrab::new(3);
    hovercrab_input(&mut crab, None, &held(|k| k.accelerate = true));
    assert!(crab.input_accel() && !crab.input_stop());
    hovercrab_input(&mut crab, None, &held(|k| k.brake = true));
    assert!(!crab.input_accel() && crab.input_stop());
    assert_eq!(crab.camera_entity(), Some(3));
}

#[test]
fn keys_that_only_went_down_do_not_count_as_held() {
    let mut input = Input::idle();
    input.just_pressed.forward = true;
    let mut crab = Hovercrab::new(3);
    hovercrab_input(&mut crab, None, &input);
    assert_eq!(crab.input_dir(), Vec3::zero());
}

#[test]
fn target_heading_is_the_cameras_forward() {
    let mut crab = Hovercrab::new(3);
    hovercrab_input(&mut crab, None, &Input::idle());
    assert_eq!(crab.target_rotation(), at(0, 0, -1_000_000));
    hovercrab_input(&mut crab, Some(Quat::identity()), &Input::idle());
    assert_eq!(crab.target_rotation(), at(0, 0, -1_000_000));
    // half a turn about the vertical looks back
    let about = Quat::from_xyzw(Fixed::zero(), Fixed::one(), Fixed::zero(), Fixed::zero());
    hovercrab_input(&mut crab, Some(about), &Input::idle());
    assert_eq!(crab.target_rotation(), at(0, 0, 1_000_000));
}

#[test]
fn body_is_given_on_the_first_tick_only() {
    let mut stage = CraftStage::Uninitialized;
    let body = spawn_hovercrab(&mut stage).unwrap();
    assert_eq!(stage, CraftStage::PhysicsAttached);
    assert_eq!(body.rigid_body, RigidBody::Dynamic);
    assert_eq!(body.half_extents, at(4_000_000, 1_000_000, 3_000_000));
    assert_eq!(body.mass.raw(), 800_000_000);
    assert_eq!(body.linvel, Vec3::zero());
    assert_eq!(body.angvel, Vec3::zero());
    assert_eq!(body.external_force, ExternalForce::zero());
    assert_eq!(spawn_hovercrab(&mut stage), None);
    assert_eq!(stage, CraftStage::Active);
    assert_eq!(spawn_hovercrab(&mut stage), None);
    assert_eq!(stage, CraftStage::Active);
}
