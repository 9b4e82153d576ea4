//! Input and state logic of a small third-person 3D game: key bindings,
//! the discrete half of a free-flying camera controller, planar player
//! movement and the skybox cubemap cycle.
//!
//! Everything numeric in floating point (vectors, angles, speeds) is done by
//! the host around this library; the library decides what is to be done.

mod camera;
mod game_control;
mod keys;
mod player;
mod skybox;

pub use camera::{
    axis_input, axis_of, axis_value, enabled_control, frame_plan, lemma_disabled_update_is_idle,
    lemma_look_gate, lemma_no_input_decays, lemma_orientation_seeded_once,
    lemma_run_key_selects_speed, lemma_toggle_twice_restores, motion_of, next_control,
    unit, AxisInput, CameraBindings, CameraControl, FramePlan, Motion, Speed,
};
pub use game_control::{get_movement, movement_of, GameControl};
pub use keys::{held, is_held, Key};
pub use player::{gravity_applies, planar_input, planar_of, BodyKind, PlanarInput};
pub use skybox::{cubemap_layers, skybox_at, skybox_for_index, Cubemap, SkyboxKind, SKYBOX_COUNT};
