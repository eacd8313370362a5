use hovercrab::gameplay::objects::controller::{
    air_drag, crab_half_size, heading_directions, probe_direction, probe_force, probe_rays,
    tilt_rotation, update_hovercrab, yaw_torque, ExternalForce, PhysicalState, ProbeHits, ProbeRay,
};
use hovercrab::gameplay::objects::hovercrab::{hovercrab_input, Hovercrab};
use hovercrab::utils::fixed::Fixed;
use hovercrab::utils::input::Input;
use hovercrab::utils::quat::Quat;
use hovercrab::utils::vector::{Vec2, Vec3};

const MASS: i64 = 800_000_000;
const GRAVITY_Y: i64 = -9_810_000;
const SIXTIETH: i64 = 16_667;

fn raw(v: i64) -> Fixed {
    Fixed::from_raw(v)
}

fn vec3(x: i64, y: i64, z: i64) -> Vec3 {
    Vec3::new(raw(x), raw(y), raw(z))
}

fn resting_body() -> PhysicalState {
    PhysicalState {
        translation: vec3(0, 5_000_000, 0),
        rotation: Quat::identity(),
        linvel: Vec3::zero(),
        angvel: Vec3::zero(),
        mass: raw(MASS),
    }
}

fn all_hits(distance: Option<i64>) -> ProbeHits {
    let hit = distance.map(raw);
    ProbeHits { forward: hit, backward: hit, left: hit, right: hit }
}

fn crab_with(forward: bool, right: bool) -> Hovercrab {
    let mut crab = Hovercrab::new(7);
    let mut input = Input::idle();
    input.pressed.forward = forward;
    input.pressed.right = right;
    hovercrab_input(&mut crab, None, &input);
    crab
}

fn idle_crab() -> Hovercrab {
    crab_with(false, false)
}

#[test]
fn craft_at_rest_over_ground_is_carried_by_its_weight() {
    let applied = update_hovercrab(
        &idle_crab(),
        &resting_body(),
        Fixed::zero(),
        Fixed::zero(),
        &all_hits(Some(5_000_000)),
        raw(GRAVITY_Y),
        raw(SIXTIETH),
    )
    .unwrap();
    let weight = 7_848_000_000i64;
    assert_eq!(applied.force, vec3(0, weight, 0));
    assert_eq!(applied.torque, Vec3::zero());
    let magnitude = applied.force.length().raw();
    assert!(weight / 2 <= magnitude && magnitude <= weight / 2 * 3);
}

#[test]
fn craft_at_rest_is_carried_at_any_height() {
    for distance in [Some(0), Some(1), Some(9_999_999), Some(10_000_000), Some(25_000_000), None] {
        let applied = update_hovercrab(
            &idle_crab(),
            &resting_body(),
            raw(1_234_567),
            raw(1_234_567),
            &all_hits(distance),
            raw(GRAVITY_Y),
            raw(SIXTIETH),
        )
        .unwrap();
        assert_eq!(applied.force, vec3(0, 7_848_000_000, 0));
        assert_eq!(applied.torque, Vec3::zero());
    }
}

#[test]
fn weight_that_is_no_multiple_of_four_is_rounded_down() {
    let mut body = resting_body();
    body.mass = raw(1_000_003);
    let applied = update_hovercrab(
        &idle_crab(),
        &body,
        Fixed::zero(),
        Fixed::zero(),
        &all_hits(Some(5_000_000)),
        raw(-1_000_000),
        raw(SIXTIETH),
    )
    .unwrap();
    assert_eq!(applied.force, vec3(0, 1_000_000, 0));
}

#[test]
fn sinking_craft_gets_the_greatest_thrust() {
    let mut body = resting_body();
    body.linvel = vec3(0, -1_000_000, 0);
    let applied = update_hovercrab(
        &idle_crab(),
        &body,
        Fixed::zero(),
        Fixed::zero(),
        &all_hits(Some(5_000_000)),
        raw(GRAVITY_Y),
        raw(SIXTIETH),
    )
    .unwrap();
    // three times the weight, and the drag of the fall on top
    assert_eq!(applied.force, vec3(0, 23_544_882_000, 0));
    assert_eq!(applied.torque, Vec3::zero());
}

#[test]
fn probes_without_ground_give_the_baseline() {
    let mut body = resting_body();
    body.linvel = vec3(0, -1_000_000, 0);
    let applied = update_hovercrab(
        &idle_crab(),
        &body,
        Fixed::zero(),
        Fixed::zero(),
        &all_hits(None),
        raw(GRAVITY_Y),
        raw(SIXTIETH),
    )
    .unwrap();
    assert_eq!(applied.force, vec3(0, 7_848_882_000, 0));
    assert_eq!(applied.torque, Vec3::zero());
}

#[test]
fn one_probe_without_ground_tips_the_craft() {
    let mut body = resting_body();
    body.linvel = vec3(0, -1_000_000, 0);
    let mut hits = all_hits(Some(5_000_000));
    hits.forward = None;
    let applied = update_hovercrab(
        &idle_crab(),
        &body,
        Fixed::zero(),
        Fixed::zero(),
        &hits,
        raw(GRAVITY_Y),
        raw(SIXTIETH),
    )
    .unwrap();
    // forward pushes 1962, the others 5886 each
    assert_eq!(applied.force, vec3(0, 1_962_000_000 + 3 * 5_886_000_000 + 882_000, 0));
    // the levers of left and right cancel; backward outweighs forward by 3924 at 2.4
    assert_eq!(applied.torque, vec3(-9_417_600_000, 0, 0));
}

#[test]
fn short_tick_is_skipped() {
    let hits = all_hits(Some(5_000_000));
    let run = |dt: i64| {
        update_hovercrab(
            &idle_crab(),
            &resting_body(),
            Fixed::zero(),
            raw(1_000_000),
            &hits,
            raw(GRAVITY_Y),
            raw(dt),
        )
    };
    assert_eq!(run(999), None);
    assert_eq!(run(0), None);
    assert_eq!(run(-5_000_000), None);
    assert!(run(1_000).is_some());
}

#[test]
fn general_state_gives_the_expected_force_and_torque() {
    let mut crab = Hovercrab::new(1);
    let mut input = Input::idle();
    input.pressed.backward = true;
    input.pressed.left = true;
    hovercrab_input(&mut crab, None, &input);
    assert_eq!(crab.input_dir(), vec3(-707_107, 0, 707_107));
    let body = PhysicalState {
        translation: vec3(10_000_000, 3_000_000, -20_000_000),
        rotation: Quat::from_xyzw(raw(91_952), raw(387_472), raw(-38_876), raw(916_459)),
        linvel: vec3(2_000_000, -500_000, -3_000_000),
        angvel: vec3(100_000, -200_000, 50_000),
        mass: raw(MASS),
    };
    let hits = ProbeHits {
        forward: Some(raw(2_000_000)),
        backward: None,
        left: Some(raw(9_500_000)),
        right: Some(raw(12_000_000)),
    };
    let applied = update_hovercrab(
        &crab,
        &body,
        raw(300_000),
        raw(-1_200_000),
        &hits,
        raw(GRAVITY_Y),
        raw(20_000),
    )
    .unwrap();
    assert_eq!(
        applied,
        ExternalForce {
            force: vec3(5_930_150_951, 13_338_621_656, 5_775_383_974),
            torque: vec3(-1_502_552_375, 3_014_620_549_802, -13_767_217_418),
        }
    );
    let rays = probe_rays(&crab, &body);
    let direction = vec3(-378_222, -849_708, -367_339);
    let max_distance = raw(10_100_000);
    assert_eq!(
        rays.forward,
        ProbeRay { origin: vec3(6_818_692, 2_669_575, -22_722_417), direction, max_distance, solid: true }
    );
    assert_eq!(
        rays.backward,
        ProbeRay { origin: vec3(10_193_354, 1_715_979, -19_444_885), direction, max_distance, solid: true }
    );
    assert_eq!(
        rays.left,
        ProbeRay { origin: vec3(6_276_560, 2_192_773, -18_788_120), direction, max_distance, solid: true }
    );
    assert_eq!(
        rays.right,
        ProbeRay { origin: vec3(10_735_486, 2_192_781, -23_379_182), direction, max_distance, solid: true }
    );
}

#[test]
fn rays_of_an_upright_craft_point_down_from_below_the_hull() {
    let mut body = resting_body();
    body.translation = Vec3::zero();
    let rays = probe_rays(&idle_crab(), &body);
    let down = vec3(0, -1_000_000, 0);
    assert_eq!(rays.forward.origin, vec3(0, -950_000, -2_400_000));
    assert_eq!(rays.backward.origin, vec3(0, -950_000, 2_400_000));
    assert_eq!(rays.left.origin, vec3(-3_200_000, -950_000, 0));
    assert_eq!(rays.right.origin, vec3(3_200_000, -950_000, 0));
    for ray in [rays.forward, rays.backward, rays.left, rays.right] {
        assert_eq!(ray.direction, down);
        assert_eq!(ray.max_distance.raw(), 10_100_000);
        assert!(ray.solid);
    }
}

#[test]
fn rays_lean_with_the_forward_intent() {
    let crab = crab_with(true, false);
    let body = PhysicalState {
        translation: vec3(1_000_000, 2_000_000, 3_000_000),
        rotation: Quat::identity(),
        linvel: Vec3::zero(),
        angvel: Vec3::zero(),
        mass: raw(MASS),
    };
    let rays = probe_rays(&crab, &body);
    assert_eq!(rays.right.origin, vec3(4_200_000, 1_328_247, 5_085_963));
    assert_eq!(rays.right.direction, vec3(0, -707_108, 707_106));
}

#[test]
fn thrust_direction_for_each_intent() {
    let id = Quat::identity();
    assert_eq!(probe_direction(id, raw(0)), vec3(0, 1_000_000, 0));
    assert_eq!(probe_direction(id, raw(-1_000_000)), vec3(0, 707_108, -707_106));
    assert_eq!(probe_direction(id, raw(1_000_000)), vec3(0, 707_108, 707_106));
    assert_eq!(probe_direction(id, raw(707_107)), vec3(0, 849_710, 527_250));
    assert_eq!(probe_direction(id, raw(-707_107)), vec3(0, 849_710, -527_250));
    // a craft lying on its side thrusts as if it were upright
    let rolled = Quat::from_xyzw(raw(0), raw(0), raw(707_107), raw(707_107));
    let d = probe_direction(rolled, raw(0));
    assert!(d.x.raw().abs() <= 2 && (d.y.raw() - 1_000_000).abs() <= 2 && d.z.raw().abs() <= 2);
}

#[test]
fn tilt_for_each_intent() {
    let q = |x: i64, w: i64| Quat::from_xyzw(raw(x), raw(0), raw(0), raw(w));
    assert_eq!(tilt_rotation(raw(1_000_000)), q(382_683, 923_880));
    assert_eq!(tilt_rotation(raw(-1_000_000)), q(-382_683, 923_880));
    assert_eq!(tilt_rotation(raw(707_107)), q(274_126, 961_694));
    assert_eq!(tilt_rotation(raw(-707_107)), q(-274_126, 961_694));
    assert_eq!(tilt_rotation(raw(0)), Quat::identity());
}

#[test]
fn probe_force_formula() {
    let g = raw(9_810_000);
    let dt = raw(SIXTIETH);
    // no ground: baseline, whatever the sink rate
    assert_eq!(probe_force(None, raw(-3_000_000), g, dt), g);
    // rising or resting: baseline
    assert_eq!(probe_force(Some(raw(5_000_000)), raw(2_000_000), g, dt), g);
    assert_eq!(probe_force(Some(raw(5_000_000)), raw(0), g, dt), g);
    // sinking fast over near ground: baseline plus twice the gravity
    assert_eq!(probe_force(Some(raw(5_000_000)), raw(-1_000_000), g, dt).raw(), 29_430_000);
    // sinking slowly near the end of the ray: 0.001 * 0.1 * 50 / dt on top
    assert_eq!(probe_force(Some(raw(9_000_000)), raw(-1_000), g, dt).raw(), 10_109_994);
    assert_eq!(probe_force(Some(raw(9_000_000)), raw(-1_000), g, raw(500_000)).raw(), 9_820_000);
    // ground beyond the ray's length counts as out of reach
    assert_eq!(probe_force(Some(raw(10_100_000)), raw(-1_000_000), g, dt), g);
}

#[test]
fn yaw_torque_vanishes_when_facing_the_target() {
    for angle in [0, 1_000_000, -3_141_593, 3_141_592, 40_000_000] {
        let torque = yaw_torque(raw(angle), raw(0), raw(angle), raw(SIXTIETH), raw(MASS));
        assert_eq!(torque.raw(), 0);
    }
    let applied = update_hovercrab(
        &idle_crab(),
        &resting_body(),
        raw(700_000),
        raw(700_000),
        &all_hits(None),
        raw(GRAVITY_Y),
        raw(SIXTIETH),
    )
    .unwrap();
    assert!(applied.torque.y.raw().abs() <= 1_000);
}

#[test]
fn yaw_torque_formula() {
    let torque = yaw_torque(raw(0), raw(0), raw(100_000), raw(SIXTIETH), raw(MASS));
    assert_eq!(torque.raw(), 287_988_480_000);
    let torque = yaw_torque(raw(500_000), raw(200_000), raw(-400_000), raw(SIXTIETH), raw(MASS));
    assert_eq!(torque.raw(), -2_582_297_665_600);
    let applied = update_hovercrab(
        &idle_crab(),
        &resting_body(),
        raw(0),
        raw(100_000),
        &all_hits(None),
        raw(GRAVITY_Y),
        raw(SIXTIETH),
    )
    .unwrap();
    assert_eq!(applied.torque, vec3(0, -287_988_480_000, 0));
}

#[test]
fn air_drag_formula() {
    assert_eq!(air_drag(vec3(3_000_000, 0, 4_000_000)), vec3(13_230_000, 0, 17_640_000));
    assert_eq!(air_drag(Vec3::zero()), Vec3::zero());
}

#[test]
fn force_at_a_point_twists() {
    let applied = ExternalForce::at_point(
        vec3(0, 2_000_000, 0),
        vec3(1_000_000, 0, 3_000_000),
        vec3(0, 0, 1_000_000),
    );
    assert_eq!(applied.force, vec3(0, 2_000_000, 0));
    assert_eq!(applied.torque, vec3(-4_000_000, 0, 2_000_000));
    assert_eq!(ExternalForce::zero().add(applied), applied);
    assert_eq!(applied.add(applied).torque, vec3(-8_000_000, 0, 4_000_000));
}

#[test]
fn headings_are_projected_to_the_plane() {
    let mut crab = Hovercrab::new(1);
    let looking_left = Quat::from_xyzw(raw(0), raw(707_107), raw(0), raw(707_107));
    hovercrab_input(&mut crab, Some(looking_left), &Input::idle());
    let (current, target) = heading_directions(&crab, &resting_body());
    assert_eq!(current, Vec2::new(raw(0), raw(-1_000_000)));
    assert_eq!(target, crab.target_rotation().xz());
    assert!((target.x.raw() + 1_000_000).abs() <= 2 && target.y.raw().abs() <= 2);
}

#[test]
fn gravity_counts_by_its_size() {
    let up = probe_force(Some(raw(5_000_000)), raw(-1_000_000), raw(9_810_000), raw(SIXTIETH));
    let down = probe_force(Some(raw(5_000_000)), raw(-1_000_000), raw(-9_810_000), raw(SIXTIETH));
    assert_eq!(up, down);
}

#[test]
fn hull_size() {
    assert_eq!(crab_half_size(), vec3(4_000_000, 1_000_000, 3_000_000));
}
