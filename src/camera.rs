use vstd::prelude::*;

use crate::keys::{held, is_held, Key};

verus! {

/// Key bindings of the free-flying camera.
#[derive(Clone, Copy, Debug, PartialEq, Eq, Structural)]
pub struct CameraBindings {
    pub forward: Key,
    pub back: Key,
    pub left: Key,
    pub right: Key,
    pub up: Key,
    pub down: Key,
    pub run: Key,
    pub toggle_capture: Key,
}

impl CameraBindings {
    /// The usual bindings: W/S/A/D to move, E/Q to rise and sink, left shift
    /// to run and M to toggle mouse capture.
    pub open spec fn spec_standard() -> CameraBindings {
        CameraBindings {
            forward: Key::W,
            back: Key::S,
            left: Key::A,
            right: Key::D,
            up: Key::E,
            down: Key::Q,
            run: Key::ShiftLeft,
            toggle_capture: Key::M,
        }
    }
}

impl Default for CameraBindings {
    fn default() -> (r: CameraBindings)
        ensures
            r == CameraBindings::spec_standard(),
    {
        CameraBindings {
            forward: Key::W,
            back: Key::S,
            left: Key::A,
            right: Key::D,
            up: Key::E,
            down: Key::Q,
            run: Key::ShiftLeft,
            toggle_capture: Key::M,
        }
    }
}

/// Movement input in the camera's local basis: right, up and forward, each
/// component in `-1..=1`.
#[derive(Clone, Copy, Debug, PartialEq, Eq, Structural)]
pub struct AxisInput {
    pub x: i8,
    pub y: i8,
    pub z: i8,
}

impl AxisInput {
    pub open spec fn spec_is_zero(self) -> bool {
        self.x == 0 && self.y == 0 && self.z == 0
    }

    /// Whether no movement is asked for along any axis.
    pub fn is_zero(&self) -> (r: bool)
        ensures
            r == self.spec_is_zero(),
    {
        self.x == 0 && self.y == 0 && self.z == 0
    }
}

/// One for a held key, zero for a released one.
pub open spec fn unit(b: bool) -> int {
    if b {
        1
    } else {
        0
    }
}

/// A key pressed in the positive direction minus a key in the negative one.
pub open spec fn axis_value(keys: Seq<Key>, pos: Key, neg: Key) -> i8 {
    (unit(held(keys, pos)) - unit(held(keys, neg))) as i8
}

/// The local movement input that the held keys give under `b`.
pub open spec fn axis_of(b: CameraBindings, keys: Seq<Key>) -> AxisInput {
    AxisInput {
        x: axis_value(keys, b.right, b.left),
        y: axis_value(keys, b.up, b.down),
        z: axis_value(keys, b.forward, b.back),
    }
}

fn axis_component(keys: &[Key], pos: Key, neg: Key) -> (r: i8)
    ensures
        r == axis_value(keys@, pos, neg),
        -1 <= r <= 1,
{
    let p: i8 = if is_held(keys, pos) {
        1
    } else {
        0
    };
    let n: i8 = if is_held(keys, neg) {
        1
    } else {
        0
    };
    p - n
}

/// The local movement input that the held keys give under `bindings`.
pub fn axis_input(bindings: &CameraBindings, keys: &[Key]) -> (r: AxisInput)
    ensures
        r == axis_of(*bindings, keys@),
{
    AxisInput {
        x: axis_component(keys, bindings.right, bindings.left),
        y: axis_component(keys, bindings.up, bindings.down),
        z: axis_component(keys, bindings.forward, bindings.back),
    }
}

/// Which of the configured speeds a movement snaps to.
#[derive(Clone, Copy, Debug, PartialEq, Eq, Structural)]
pub enum Speed {
    Walk,
    Run,
}

/// What becomes of the camera's velocity this frame.
#[derive(Clone, Copy, Debug, PartialEq, Eq, Structural)]
pub enum Motion {
    /// The controller is disabled: velocity and position stay as they are.
    Hold,
    /// No movement input: the velocity is scaled by one minus the friction,
    /// and snapped to zero when it has become negligible.
    Decay,
    /// The velocity becomes the normalised `direction` times the chosen speed.
    Snap { direction: AxisInput, speed: Speed },
}

/// The work a frame asks of the host, which holds the camera's position,
/// velocity, yaw and pitch.
#[derive(Clone, Copy, Debug, PartialEq, Eq, Structural)]
pub struct FramePlan {
    /// Derive yaw and pitch from the camera's current world orientation
    /// before anything else.
    pub seed_orientation: bool,
    /// When false, position and orientation are handed back unchanged.
    pub active: bool,
    /// The velocity update.
    pub motion: Motion,
    /// Whether this frame's mouse delta turns the camera.
    pub look: bool,
}

/// The motion that the held keys ask for while the controller is enabled.
pub open spec fn motion_of(b: CameraBindings, keys: Seq<Key>) -> Motion {
    let a = axis_of(b, keys);
    if a.spec_is_zero() {
        Motion::Decay
    } else {
        Motion::Snap {
            direction: a,
            speed: if held(keys, b.run) {
                Speed::Run
            } else {
                Speed::Walk
            },
        }
    }
}

/// The flags of the free-flying camera controller that persist from frame
/// to frame.
#[derive(Clone, Copy, Debug, PartialEq, Eq, Structural)]
pub struct CameraControl {
    /// Yaw and pitch have been derived from the camera's world orientation.
    pub initialized: bool,
    /// When false, an update changes nothing but the seeding of yaw and pitch.
    pub enabled: bool,
    /// Mouse-look stays on without the capture button held.
    pub move_toggled: bool,
}

/// The controller's flags after one update.
pub open spec fn next_control(
    s: CameraControl,
    keys: Seq<Key>,
    b: CameraBindings,
    capture_held: bool,
    toggle_pressed: bool,
) -> CameraControl {
    CameraControl {
        initialized: true,
        enabled: s.enabled,
        move_toggled: if s.enabled {
            s.move_toggled != toggle_pressed
        } else {
            s.move_toggled
        },
    }
}

/// The work that one update asks of the host.
pub open spec fn frame_plan(
    s: CameraControl,
    keys: Seq<Key>,
    b: CameraBindings,
    capture_held: bool,
    toggle_pressed: bool,
) -> FramePlan {
    if !s.enabled {
        FramePlan { seed_orientation: !s.initialized, active: false, motion: Motion::Hold, look: false }
    } else {
        FramePlan {
            seed_orientation: !s.initialized,
            active: true,
            motion: motion_of(b, keys),
            look: capture_held || (s.move_toggled != toggle_pressed),
        }
    }
}

/// The controller's flags after it is switched on or off.
pub open spec fn enabled_control(s: CameraControl, enabled: bool) -> CameraControl {
    CameraControl {
        initialized: s.initialized && (s.enabled || !enabled),
        enabled,
        move_toggled: s.move_toggled,
    }
}

impl CameraControl {
    /// A new controller: enabled, not yet seeded, mouse-look not toggled.
    pub fn new() -> (r: CameraControl)
        ensures
            r == (CameraControl { initialized: false, enabled: true, move_toggled: false }),
    {
        CameraControl { initialized: false, enabled: true, move_toggled: false }
    }

    /// Switches the controller on or off; switching it back on has yaw and
    /// pitch seeded again on the next update.
    pub fn set_enabled(&mut self, enabled: bool)
        ensures
            *final(self) == enabled_control(*old(self), enabled),
    {
        if enabled && !self.enabled {
            self.initialized = false;
        }
        self.enabled = enabled;
    }

    /// One frame's decisions: seeds yaw and pitch once, stops at a disabled
    /// controller, flips the mouse-look toggle, and picks the velocity update
    /// and whether the mouse turns the camera.
    pub fn plan(
        &mut self,
        keys: &[Key],
        bindings: &CameraBindings,
        capture_held: bool,
        toggle_pressed: bool,
    ) -> (r: FramePlan)
        ensures
            *final(self) == next_control(*old(self), keys@, *bindings, capture_held, toggle_pressed),
            r == frame_plan(*old(self), keys@, *bindings, capture_held, toggle_pressed),
    {
        let seed = !self.initialized;
        self.initialized = true;
        if !self.enabled {
            return FramePlan { seed_orientation: seed, active: false, motion: Motion::Hold, look: false };
        }
        if toggle_pressed {
            self.move_toggled = !self.move_toggled;
        }
        let axis = axis_input(bindings, keys);
        let motion = if axis.is_zero() {
            Motion::Decay
        } else {
            let speed = if is_held(keys, bindings.run) {
                Speed::Run
            } else {
                Speed::Walk
            };
            Motion::Snap { direction: axis, speed }
        };
        FramePlan { seed_orientation: seed, active: true, motion, look: capture_held || self.move_toggled }
    }
}

/// A disabled controller does nothing: no movement, no turn, and its
/// enabled and mouse-look flags stay as they are, whatever the input.
pub proof fn lemma_disabled_update_is_idle(
    s: CameraControl,
    keys: Seq<Key>,
    b: CameraBindings,
    capture_held: bool,
    toggle_pressed: bool,
)
    requires
        !s.enabled,
    ensures
        !frame_plan(s, keys, b, capture_held, toggle_pressed).active,
        frame_plan(s, keys, b, capture_held, toggle_pressed).motion == Motion::Hold,
        !frame_plan(s, keys, b, capture_held, toggle_pressed).look,
        next_control(s, keys, b, capture_held, toggle_pressed).enabled == s.enabled,
        next_control(s, keys, b, capture_held, toggle_pressed).move_toggled == s.move_toggled,
{
}

/// Yaw and pitch are seeded from the world orientation on the first update
/// and never on the one after it; switching a disabled controller back on
/// has them seeded once more.
pub proof fn lemma_orientation_seeded_once(
    s: CameraControl,
    keys1: Seq<Key>,
    capture1: bool,
    toggle1: bool,
    keys2: Seq<Key>,
    capture2: bool,
    toggle2: bool,
    b: CameraBindings,
)
    ensures
        frame_plan(s, keys1, b, capture1, toggle1).seed_orientation == !s.initialized,
        !frame_plan(next_control(s, keys1, b, capture1, toggle1), keys2, b, capture2, toggle2).seed_orientation,
        !s.enabled ==> frame_plan(enabled_control(s, true), keys2, b, capture2, toggle2).seed_orientation,
{
}

/// While movement keys give a non-zero input, the velocity snaps to that
/// direction at the run speed when the run key is held and at the walk speed
/// when it is not.
pub proof fn lemma_run_key_selects_speed(
    s: CameraControl,
    keys: Seq<Key>,
    b: CameraBindings,
    capture_held: bool,
    toggle_pressed: bool,
)
    requires
        s.enabled,
        !axis_of(b, keys).spec_is_zero(),
    ensures
        held(keys, b.run) ==> frame_plan(s, keys, b, capture_held, toggle_pressed).motion
            == (Motion::Snap { direction: axis_of(b, keys), speed: Speed::Run }),
        !held(keys, b.run) ==> frame_plan(s, keys, b, capture_held, toggle_pressed).motion
            == (Motion::Snap { direction: axis_of(b, keys), speed: Speed::Walk }),
{
}

/// With no movement key held, an enabled controller decays its velocity and
/// stays enabled, so every frame of a run of such frames decays it.
pub proof fn lemma_no_input_decays(
    s: CameraControl,
    keys: Seq<Key>,
    b: CameraBindings,
    capture_held: bool,
    toggle_pressed: bool,
)
    requires
        s.enabled,
        !held(keys, b.forward),
        !held(keys, b.back),
        !held(keys, b.left),
        !held(keys, b.right),
        !held(keys, b.up),
        !held(keys, b.down),
    ensures
        frame_plan(s, keys, b, capture_held, toggle_pressed).motion == Motion::Decay,
        next_control(s, keys, b, capture_held, toggle_pressed).enabled,
{
}

/// Pressing the capture toggle on two frames leaves the mouse-look toggle as
/// it was.
pub proof fn lemma_toggle_twice_restores(
    s: CameraControl,
    keys1: Seq<Key>,
    capture1: bool,
    keys2: Seq<Key>,
    capture2: bool,
    b: CameraBindings,
)
    ensures
        next_control(next_control(s, keys1, b, capture1, true), keys2, b, capture2, true).move_toggled
            == s.move_toggled,
{
}

/// An enabled controller turns with the mouse exactly when the capture
/// button is held or mouse-look is toggled on after this frame's toggle.
pub proof fn lemma_look_gate(
    s: CameraControl,
    keys: Seq<Key>,
    b: CameraBindings,
    capture_held: bool,
    toggle_pressed: bool,
)
    requires
        s.enabled,
    ensures
        frame_plan(s, keys, b, capture_held, toggle_pressed).look == (capture_held
            || next_control(s, keys, b, capture_held, toggle_pressed).move_toggled),
{
}

} // verus!
