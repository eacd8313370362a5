use hovercrab::presentation::player::actions::exit_on_ctrl_q;
use hovercrab::presentation::player::camera::{
    convert_skybox, set_skybox, SkyboxResource, WorldCamera,
};
use hovercrab::presentation::player::mouselook::{
    is_mouselook_active, mouse_update, mouselook_controller, new_camera_rotation, orbit_camera,
    CursorGrabMode,
    InputControl, MouseDelta, MouselookController, MouselookSettings, OrbitCamera, Window,
};
use hovercrab::spawn::spawn_player;
use hovercrab::utils::fixed::Fixed;
use hovercrab::utils::input::Input;
use hovercrab::utils::quat::Quat;
use hovercrab::utils::vector::{Vec2, Vec3};

fn num(v: f64) -> Fixed {
    Fixed::from_raw((v * 1_000_000.0).round() as i64)
}

fn about_x(angle: f64) -> Quat {
    Quat::from_xyzw(num((angle / 2.).sin()), num(0.), num(0.), num((angle / 2.).cos()))
}

fn about_y(angle: f64) -> Quat {
    Quat::from_xyzw(num(0.), num((angle / 2.).sin()), num(0.), num((angle / 2.).cos()))
}

fn window() -> Window {
    Window {
        focused: true,
        width: num(1920.),
        cursor_visible: true,
        cursor_grab_mode: CursorGrabMode::Free,
    }
}

#[test]
fn quit_needs_both_keys() {
    let mut input = Input::idle();
    assert!(!exit_on_ctrl_q(&input));
    input.just_pressed.quit = true;
    assert!(!exit_on_ctrl_q(&input));
    input.pressed.brake = true;
    assert!(exit_on_ctrl_q(&input));
    input.just_pressed.quit = false;
    input.pressed.quit = true;
    assert!(!exit_on_ctrl_q(&input));
}

#[test]
fn skybox_is_converted_once() {
    let mut skybox = SkyboxResource { converted: false };
    assert!(!convert_skybox(&mut skybox, false));
    assert!(!skybox.converted);
    assert!(!set_skybox(&skybox, false));
    assert!(convert_skybox(&mut skybox, true));
    assert!(skybox.converted);
    assert!(!convert_skybox(&mut skybox, true));
    assert!(skybox.converted);
    assert!(set_skybox(&skybox, false));
    assert!(!set_skybox(&skybox, true));
}

#[test]
fn world_camera_lens() {
    let lens = WorldCamera.lens();
    assert_eq!(lens.horizontal_fov.raw(), 1_396_263);
    assert_eq!(lens.aspect_ratio.raw(), 1_777_777);
}

#[test]
fn defaults() {
    assert_eq!(MouselookSettings::default().sensitivity_degrees.raw(), 200_000_000);
    assert!(InputControl::default().mouselook_enabled);
}

#[test]
fn mouse_movement_is_summed_and_scaled() {
    let mut delta = MouseDelta { value: Vec2::zero() };
    let mut w = window();
    let motion = vec![
        Vec2::new(num(96.), num(-10.)),
        Vec2::new(num(-192.), num(4.)),
        Vec2::new(num(0.), num(198.)),
    ];
    mouse_update(&mut delta, &motion, &mut w, 500_000_001, &InputControl::default());
    assert_eq!(delta.value, Vec2::new(num(-0.05), num(0.1)));
    assert!(!w.cursor_visible);
    assert_eq!(w.cursor_grab_mode, CursorGrabMode::Locked);
    assert!(w.focused);
    assert_eq!(w.width, num(1920.));

    mouse_update(&mut delta, &Vec::new(), &mut w, 500_000_001, &InputControl::default());
    assert_eq!(delta.value, Vec2::zero());
    assert!(!w.cursor_visible);
}

#[test]
fn mouse_look_is_off_without_focus_early_or_when_disabled() {
    let motion = vec![Vec2::new(num(96.), num(-10.))];
    let run = |focused: bool, elapsed: u128, enabled: bool| {
        let mut delta = MouseDelta { value: Vec2::new(num(1.), num(1.)) };
        let mut w = window();
        w.focused = focused;
        w.cursor_visible = false;
        w.cursor_grab_mode = CursorGrabMode::Locked;
        mouse_update(&mut delta, &motion, &mut w, elapsed, &InputControl { mouselook_enabled: enabled });
        (delta.value, w.cursor_visible, w.cursor_grab_mode)
    };
    assert!(!is_mouselook_active(&InputControl::default(), true, 500_000_000));
    assert!(is_mouselook_active(&InputControl::default(), true, 500_000_001));
    assert!(!is_mouselook_active(&InputControl::default(), false, 500_000_001));
    let off = (Vec2::zero(), true, CursorGrabMode::Free);
    assert_eq!(run(false, 10_000_000_000, true), off);
    assert_eq!(run(true, 500_000_000, true), off);
    assert_eq!(run(true, 10_000_000_000, false), off);
    // -10 / 1920 = -0.0052083.., rounded toward zero
    assert_eq!(
        run(true, 500_000_001, true),
        (Vec2::new(num(0.05), Fixed::from_raw(-5_208)), false, CursorGrabMode::Locked)
    );
}

#[test]
fn mouse_movement_becomes_angles() {
    let delta = MouseDelta { value: Vec2::new(num(0.5), num(-0.25)) };
    let angles = mouselook_controller(&delta, &MouselookSettings::default());
    assert_eq!(angles, Vec2::new(Fixed::from_raw(1_745_329), Fixed::from_raw(-872_664)));
}

#[test]
fn camera_turns_and_nods() {
    let r = new_camera_rotation(about_y(-0.3), about_x(-0.2), Quat::identity(), false);
    let expected = about_y(-0.3).mul(Quat::identity()).mul(about_x(-0.2));
    assert_eq!(r, expected);
    assert_eq!(new_camera_rotation(about_y(-0.3), about_x(-0.2), Quat::identity(), true), expected);
}

#[test]
fn camera_does_not_tip_over_unless_allowed() {
    let old = about_x(1.5);
    let yaw = about_y(-0.3);
    let pitch = about_x(0.2);
    // nodding further would put the camera on its back
    let blocked = new_camera_rotation(yaw, pitch, old, false);
    assert_eq!(blocked, yaw.mul(old));
    let flipped = new_camera_rotation(yaw, pitch, old, true);
    assert_eq!(flipped, yaw.conjugate().mul(old).mul(pitch));
}

#[test]
fn orbit_keeps_its_distance() {
    let camera = OrbitCamera { target: Some(5), distance: num(12.) };
    let target = Vec3::new(num(1.), num(2.), num(3.));
    assert_eq!(
        orbit_camera(Some(target), Quat::identity(), &camera),
        Vec3::new(num(1.), num(2.), num(15.))
    );
    assert_eq!(
        orbit_camera(None, Quat::identity(), &camera),
        Vec3::new(num(0.), num(0.), num(12.))
    );
    let looking_back = Quat::from_xyzw(num(0.), num(1.), num(0.), num(0.));
    assert_eq!(
        orbit_camera(Some(target), looking_back, &camera),
        Vec3::new(num(1.), num(2.), num(-9.))
    );
}

#[test]
fn player_is_spawned_at_first_and_on_reset() {
    let mut inited = false;
    let spawn = spawn_player(&Input::idle(), &mut inited).unwrap();
    assert!(inited);
    assert_eq!(spawn.translation, Vec3::new(num(0.), num(5.), num(0.)));
    assert_eq!(spawn.mouselook, MouselookController { allow_flip: false });
    assert_eq!(spawn.orbit(17), OrbitCamera { target: Some(17), distance: num(12.) });
    assert_eq!(spawn.craft(18).camera_entity(), Some(18));
    assert_eq!(spawn_player(&Input::idle(), &mut inited), None);
    assert!(inited);
    let mut reset = Input::idle();
    reset.just_pressed.reset = true;
    assert!(spawn_player(&reset, &mut inited).is_some());
    reset.just_pressed.reset = false;
    reset.pressed.reset = true;
    assert_eq!(spawn_player(&reset, &mut inited), None);
}
