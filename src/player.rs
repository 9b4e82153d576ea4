use vstd::prelude::*;

use crate::game_control::{get_movement, movement_of, GameControl};
use crate::keys::Key;

verus! {

/// Planar movement input of the player, relative to the camera: `forward`
/// along the camera's forward direction projected on the ground, `right`
/// along its right direction; each in `-1..=1`.
#[derive(Clone, Copy, Debug, PartialEq, Eq, Structural)]
pub struct PlanarInput {
    pub forward: i8,
    pub right: i8,
}

/// The planar input that the held keys give: forward minus back, right
/// minus left.
pub open spec fn planar_of(keys: Seq<Key>) -> PlanarInput {
    PlanarInput {
        forward: (movement_of(GameControl::Up, keys) - movement_of(GameControl::Down, keys)) as i8,
        right: (movement_of(GameControl::Right, keys) - movement_of(GameControl::Left, keys)) as i8,
    }
}

/// The planar input that the held keys give. The player moves by
/// `forward * f + right * r` per second, with `f` and `r` the camera's
/// ground directions normalised, and turns to face that direction.
pub fn planar_input(keys: &[Key]) -> (r: PlanarInput)
    ensures
        r == planar_of(keys@),
        -1 <= r.forward <= 1,
        -1 <= r.right <= 1,
{
    let up = get_movement(GameControl::Up, keys);
    let down = get_movement(GameControl::Down, keys);
    let right = get_movement(GameControl::Right, keys);
    let left = get_movement(GameControl::Left, keys);
    PlanarInput { forward: up - down, right: right - left }
}

impl PlanarInput {
    pub open spec fn spec_is_moving(self) -> bool {
        self.forward != 0 || self.right != 0
    }

    /// Whether the player moves, and so turns to face where it moves.
    pub fn is_moving(&self) -> (r: bool)
        ensures
            r == self.spec_is_moving(),
    {
        self.forward != 0 || self.right != 0
    }
}

/// How a physical body is simulated.
#[derive(Clone, Copy, Debug, PartialEq, Eq, Structural)]
pub enum BodyKind {
    Dynamic,
    Fixed,
    KinematicPositionBased,
    KinematicVelocityBased,
}

/// Whether gravity pulls a body of this kind down: every kind but a fixed one.
pub fn gravity_applies(body: BodyKind) -> (r: bool)
    ensures
        r == (body != BodyKind::Fixed),
{
    match body {
        BodyKind::Fixed => false,
        _ => true,
    }
}

} // verus!
