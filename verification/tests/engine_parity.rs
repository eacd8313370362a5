//! The fixed-point arithmetic of the library against the floating-point
//! arithmetic of the engine's own vector and physics types.

use bevy::math::{Quat, Vec2, Vec3};
use bevy_rapier3d::prelude::{ExternalForce, Velocity};
use hovercrab::gameplay::objects::controller::{
    self, heading_directions, probe_rays, update_hovercrab, PhysicalState, ProbeHits,
};
use hovercrab::gameplay::objects::hovercrab::{hovercrab_input, Hovercrab};
use hovercrab::utils::fixed::Fixed;
use hovercrab::utils::input::Input;
use hovercrab::utils::math_algorithms;
use hovercrab::utils::{quat, vector};
use std::f32::consts::PI;

const ERROR: f32 = 0.0001;

fn fixed(v: f32) -> Fixed {
    Fixed::from_raw((v as f64 * 1_000_000.).round() as i64)
}

fn float(v: Fixed) -> f32 {
    (v.raw() as f64 / 1_000_000.) as f32
}

fn fixed3(v: Vec3) -> vector::Vec3 {
    vector::Vec3::new(fixed(v.x), fixed(v.y), fixed(v.z))
}

fn float3(v: vector::Vec3) -> Vec3 {
    Vec3::new(float(v.x), float(v.y), float(v.z))
}

fn fixed_q(q: Quat) -> quat::Quat {
    quat::Quat::from_xyzw(fixed(q.x), fixed(q.y), fixed(q.z), fixed(q.w))
}

fn float_q(q: quat::Quat) -> Quat {
    Quat::from_xyzw(float(q.x), float(q.y), float(q.z), float(q.w))
}

fn near(a: f32, b: f32, tolerance: f32) -> bool {
    (a - b).abs() <= tolerance * (1. + a.abs().max(b.abs()))
}

fn assert_near3(a: Vec3, b: Vec3, tolerance: f32) {
    assert!(
        near(a.x, b.x, tolerance) && near(a.y, b.y, tolerance) && near(a.z, b.z, tolerance),
        "{a} is not near {b}"
    );
}

fn samples() -> Vec<Quat> {
    vec![
        Quat::IDENTITY,
        Quat::from_rotation_y(0.8),
        Quat::from_rotation_x(-0.3),
        Quat::from_rotation_y(2.9) * Quat::from_rotation_x(0.4) * Quat::from_rotation_z(-0.2),
        Quat::from_rotation_z(1.1) * Quat::from_rotation_y(-2.),
    ]
}

#[test]
fn third_party() {
    assert!((0f32 - ERROR * 0.99).abs() <= ERROR);
    assert!((0f32 - ERROR * 1.01).abs() > ERROR);

    assert!((Vec2::X.angle_between(Vec2::Y) - PI / 2.).abs() <= ERROR);
    assert!((Vec2::Y.angle_between(Vec2::X) - -PI / 2.).abs() <= ERROR);
}

#[test]
fn rotations_agree() {
    let v = Vec3::new(1.5, -2., 0.25);
    for q in samples() {
        assert_near3(float3(fixed_q(q).mul_vec3(fixed3(v))), q * v, 1e-5);
        for p in samples() {
            let product = float_q(fixed_q(q).mul(fixed_q(p)));
            let expected = q * p;
            assert!(product.abs_diff_eq(expected, 1e-5), "{product} is not near {expected}");
        }
    }
}

#[test]
fn vectors_agree() {
    let a = Vec3::new(1.5, -2., 0.25);
    let b = Vec3::new(-0.5, 4., 3.);
    assert_near3(float3(fixed3(a).cross(fixed3(b))), a.cross(b), 1e-5);
    assert!(near(float(fixed3(a).dot(fixed3(b))), a.dot(b), 1e-5));
    assert!(near(float(fixed3(a).length()), a.length(), 1e-5));
    assert_near3(float3(fixed3(a).normalize_or_zero()), a.normalize_or_zero(), 1e-5);
    assert_near3(float3(fixed3(a).project_onto(fixed3(b))), a.project_onto(b), 1e-5);
    assert_eq!(float3(fixed3(Vec3::ZERO).normalize_or_zero()), Vec3::ZERO.normalize_or_zero());
}

fn float_quat_component(rotation: Quat, axis: Vec3) -> Quat {
    let (rot_axis, angle) = rotation.to_axis_angle();
    let axis = rot_axis.project_onto_normalized(axis);
    Quat::from_axis_angle(axis, angle).normalize()
}

#[test]
fn quat_component_agrees() {
    for q in samples() {
        let ours = float_q(math_algorithms::quat_component(fixed_q(q), fixed3(Vec3::Y)));
        let theirs = float_quat_component(q, Vec3::Y);
        // a rotation and its negative are the same rotation
        let same = ours.abs_diff_eq(theirs, 1e-4) || ours.abs_diff_eq(-theirs, 1e-4);
        assert!(same, "{ours} is not near {theirs}");
    }
}

#[test]
fn force_at_a_point_agrees() {
    let force = Vec3::new(10., 250., -3.);
    let point = Vec3::new(1., 2., -3.);
    let center = Vec3::new(0.5, 2.5, 0.);
    let ours = controller::ExternalForce::at_point(fixed3(force), fixed3(point), fixed3(center));
    let theirs = ExternalForce::at_point(force, point, center);
    assert_near3(float3(ours.force), theirs.force, 1e-5);
    assert_near3(float3(ours.torque), theirs.torque, 1e-5);
}

struct State {
    translation: Vec3,
    rotation: Quat,
    velocity: Velocity,
    mass: f32,
    input_dir: Vec3,
    target_rotation: Vec3,
}

/// The controller in floating point.
fn float_controller(s: &State, hits: [Option<f32>; 4], gravity_y: f32, dt: f32) -> ExternalForce {
    let half_size = Vec3::new(4., 1., 3.);
    let ray_max_offset = half_size * 0.8;
    let ray_length = 10.;
    let center_of_mass = s.translation;
    let mut ext_force = ExternalForce::default();
    {
        let current_dir = (s.rotation * Vec3::NEG_Z).truncate_y();
        let target_dir = s.target_rotation.truncate_y();
        let next_angle = Vec2::Y.angle_between(current_dir) + -s.velocity.angvel.y * dt;
        let target_angle = Vec2::Y.angle_between(target_dir);
        let delta_angle = (target_angle - next_angle + PI).rem_euclid(2. * PI) - PI;
        ext_force.torque.y -= delta_angle / dt / dt * s.mass;
    }
    let dirs = [(0., -1.), (0., 1.), (-1., 0.), (1., 0.)];
    for ((x_dir, z_dir), hit) in dirs.into_iter().zip(hits) {
        let ray_pos = center_of_mass + s.rotation * (Vec3::new(x_dir, 0., z_dir) * ray_max_offset);
        let ray_dir = float_quat_component(s.rotation, Vec3::Y)
            * Quat::from_rotation_x(s.input_dir.z * 45f32.to_radians())
            * Vec3::Y;
        let gravity = gravity_y.abs();
        let mut force = gravity;
        if let Some(hit_distance) = hit {
            let distance_factor = (ray_length - hit_distance).max(0.) / ray_length;
            let current_velocity = s
                .velocity
                .linear_velocity_at_point(ray_pos, center_of_mass)
                .project_onto(ray_dir)
                .y
                .min(0.);
            let target_force = (0. - current_velocity).max(0.) * distance_factor * 50. / dt;
            force += target_force.clamp(-2. * gravity, 2. * gravity);
        }
        ext_force += ExternalForce::at_point(ray_dir * force * s.mass / 4., ray_pos, center_of_mass);
    }
    {
        let speed = s.velocity.linvel.length();
        let dir = s.velocity.linvel.normalize_or_zero();
        let force = 0.5 * 1.225 * speed.powi(2) * (half_size.x * half_size.y * 4.) * 0.09;
        ext_force.force -= dir * force;
    }
    ext_force
}

trait TruncateY {
    fn truncate_y(self) -> Vec2;
}

impl TruncateY for Vec3 {
    fn truncate_y(self) -> Vec2 {
        Vec2::new(self.x, self.z)
    }
}

#[test]
fn controller_agrees() {
    let cameras = [Quat::from_rotation_y(0.3), Quat::from_rotation_y(-2.5)];
    let keys: [fn(&mut Input); 3] = [
        |_| (),
        |i| i.pressed.forward = true,
        |i| {
            i.pressed.backward = true;
            i.pressed.right = true;
        },
    ];
    let hits = [Some(2.), None, Some(9.5), Some(12.)];
    for (n, rotation) in samples().into_iter().enumerate() {
        let mut input = Input::idle();
        keys[n % 3](&mut input);
        let mut crab = Hovercrab::new(1);
        hovercrab_input(&mut crab, Some(fixed_q(cameras[n % 2])), &input);
        let s = State {
            translation: Vec3::new(10., 3., -20.),
            rotation,
            velocity: Velocity {
                linvel: Vec3::new(2., -0.5, -3.),
                angvel: Vec3::new(0.1, -0.2, 0.05),
            },
            mass: 800.,
            input_dir: float3(crab.input_dir()),
            target_rotation: float3(crab.target_rotation()),
        };
        assert_near3(s.target_rotation, cameras[n % 2] * Vec3::NEG_Z, 1e-5);
        let body = PhysicalState {
            translation: fixed3(s.translation),
            rotation: fixed_q(s.rotation),
            linvel: fixed3(s.velocity.linvel),
            angvel: fixed3(s.velocity.angvel),
            mass: fixed(s.mass),
        };
        let (current_dir, target_dir) = heading_directions(&crab, &body);
        let angle = |d: vector::Vec2| fixed(Vec2::Y.angle_between(Vec2::new(float(d.x), float(d.y))));
        let ours = update_hovercrab(
            &crab,
            &body,
            angle(current_dir),
            angle(target_dir),
            &ProbeHits {
                forward: hits[0].map(fixed),
                backward: hits[1].map(fixed),
                left: hits[2].map(fixed),
                right: hits[3].map(fixed),
            },
            fixed(-9.81),
            fixed(0.02),
        )
        .unwrap();
        let theirs = float_controller(&s, hits, -9.81, 0.02);
        assert_near3(float3(ours.force), theirs.force, 1e-3);
        // the yaw torque is large, and the rest is measured against it
        let scale = theirs.torque.length();
        let off = (float3(ours.torque) - theirs.torque).length();
        assert!(off <= 1e-3 * scale, "{} is not near {}", float3(ours.torque), theirs.torque);

        // the rays start below the hull and run against the thrust
        let rays = probe_rays(&crab, &body);
        let ray_dir = float_quat_component(s.rotation, Vec3::Y)
            * Quat::from_rotation_x(s.input_dir.z * 45f32.to_radians())
            * Vec3::Y;
        assert_near3(float3(rays.left.direction), -ray_dir, 1e-4);
        let ray_pos = s.translation + s.rotation * (Vec3::new(-1., 0., 0.) * Vec3::new(3.2, 0.8, 2.4));
        let origin = ray_pos + ray_dir * 0.05 + -ray_dir * Vec3::new(4., 1., 3.);
        assert_near3(float3(rays.left.origin), origin, 1e-4);
        assert!(near(float(rays.left.max_distance), 10.1, 1e-6));
    }
}
