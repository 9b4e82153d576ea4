use third_dimension::{
    axis_input, AxisInput, CameraBindings, CameraControl, FramePlan, Key, Motion, Speed,
};

fn bindings() -> CameraBindings {
    CameraBindings::default()
}

fn ready() -> CameraControl {
    CameraControl { initialized: true, enabled: true, move_toggled: false }
}

#[test]
fn default_bindings_are_wasd() {
    let b = bindings();
    assert_eq!(b.forward, Key::W);
    assert_eq!(b.back, Key::S);
    assert_eq!(b.left, Key::A);
    assert_eq!(b.right, Key::D);
    assert_eq!(b.up, Key::E);
    assert_eq!(b.down, Key::Q);
    assert_eq!(b.run, Key::ShiftLeft);
    assert_eq!(b.toggle_capture, Key::M);
}

#[test]
fn axis_input_combines_opposite_keys() {
    let b = bindings();
    assert_eq!(axis_input(&b, &[]), AxisInput { x: 0, y: 0, z: 0 });
    assert_eq!(axis_input(&b, &[Key::D]), AxisInput { x: 1, y: 0, z: 0 });
    assert_eq!(axis_input(&b, &[Key::A]), AxisInput { x: -1, y: 0, z: 0 });
    assert_eq!(axis_input(&b, &[Key::A, Key::D]), AxisInput { x: 0, y: 0, z: 0 });
    assert_eq!(axis_input(&b, &[Key::Q, Key::S]), AxisInput { x: 0, y: -1, z: -1 });
    assert_eq!(axis_input(&b, &[Key::E, Key::W, Key::D]), AxisInput { x: 1, y: 1, z: 1 });
}

#[test]
fn new_controller_seeds_orientation_once() {
    let b = bindings();
    let mut c = CameraControl::new();
    assert_eq!(c, CameraControl { initialized: false, enabled: true, move_toggled: false });
    let first = c.plan(&[], &b, false, false);
    assert!(first.seed_orientation);
    assert!(c.initialized);
    let second = c.plan(&[], &b, false, false);
    assert!(!second.seed_orientation);
}

#[test]
fn forward_key_snaps_to_walk_speed_forward() {
    let b = bindings();
    let mut c = ready();
    let p = c.plan(&[Key::W], &b, false, false);
    assert_eq!(
        p,
        FramePlan {
            seed_orientation: false,
            active: true,
            motion: Motion::Snap { direction: AxisInput { x: 0, y: 0, z: 1 }, speed: Speed::Walk },
            look: false,
        }
    );
}

#[test]
fn run_key_selects_run_speed() {
    let b = bindings();
    let mut c = ready();
    let p = c.plan(&[Key::D, Key::ShiftLeft], &b, false, false);
    assert_eq!(
        p.motion,
        Motion::Snap { direction: AxisInput { x: 1, y: 0, z: 0 }, speed: Speed::Run }
    );
    let p = c.plan(&[Key::D], &b, false, false);
    assert_eq!(
        p.motion,
        Motion::Snap { direction: AxisInput { x: 1, y: 0, z: 0 }, speed: Speed::Walk }
    );
}

#[test]
fn run_key_alone_decays() {
    let b = bindings();
    let mut c = ready();
    let p = c.plan(&[Key::ShiftLeft], &b, false, false);
    assert_eq!(p.motion, Motion::Decay);
}

#[test]
fn no_input_decays_on_every_frame() {
    let b = bindings();
    let mut c = ready();
    for _ in 0..5 {
        let p = c.plan(&[Key::Space], &b, false, false);
        assert_eq!(p.motion, Motion::Decay);
        assert!(p.active);
        assert!(!p.look);
    }
}

#[test]
fn disabled_controller_is_idle() {
    let b = bindings();
    let mut c = CameraControl { initialized: true, enabled: false, move_toggled: false };
    let p = c.plan(&[Key::W, Key::ShiftLeft], &b, true, true);
    assert_eq!(
        p,
        FramePlan { seed_orientation: false, active: false, motion: Motion::Hold, look: false }
    );
    assert_eq!(c, CameraControl { initialized: true, enabled: false, move_toggled: false });
}

#[test]
fn disabled_controller_still_seeds_once() {
    let b = bindings();
    let mut c = CameraControl { initialized: false, enabled: false, move_toggled: true };
    let p = c.plan(&[], &b, false, true);
    assert!(p.seed_orientation);
    assert!(!p.active);
    assert_eq!(c, CameraControl { initialized: true, enabled: false, move_toggled: true });
}

#[test]
fn capture_held_turns_camera() {
    let b = bindings();
    let mut c = ready();
    let p = c.plan(&[], &b, true, false);
    assert!(p.look);
    assert_eq!(p.motion, Motion::Decay);
}

#[test]
fn toggle_keeps_mouse_look_until_toggled_again() {
    let b = bindings();
    let mut c = ready();
    assert!(c.plan(&[], &b, false, true).look);
    assert!(c.move_toggled);
    assert!(c.plan(&[], &b, false, false).look);
    assert!(!c.plan(&[], &b, false, true).look);
    assert!(!c.move_toggled);
    assert!(c.plan(&[], &b, true, false).look);
}

#[test]
fn re_enabling_seeds_orientation_again() {
    let b = bindings();
    let mut c = ready();
    c.set_enabled(true);
    assert!(c.initialized);
    c.set_enabled(false);
    assert!(c.initialized);
    assert!(!c.enabled);
    c.set_enabled(true);
    assert!(!c.initialized);
    assert!(c.enabled);
    assert!(c.plan(&[], &b, false, false).seed_orientation);
    assert!(!c.plan(&[], &b, false, false).seed_orientation);
}

#[test]
fn axis_input_is_zero_only_without_movement() {
    assert!(AxisInput { x: 0, y: 0, z: 0 }.is_zero());
    assert!(!AxisInput { x: 0, y: -1, z: 0 }.is_zero());
}
