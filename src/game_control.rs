use vstd::prelude::*;

use crate::keys::{held, is_held, Key};

verus! {

/// The four planar movement controls of the player.
#[derive(Clone, Copy, Debug, PartialEq, Eq, Structural)]
pub enum GameControl {
    Up,
    Down,
    Left,
    Right,
}

impl GameControl {
    /// The key bound to this control.
    pub open spec fn spec_key(self) -> Key {
        match self {
            GameControl::Up => Key::W,
            GameControl::Down => Key::R,
            GameControl::Left => Key::A,
            GameControl::Right => Key::S,
        }
    }

    /// The key bound to this control.
    pub fn key(&self) -> (r: Key)
        ensures
            r == self.spec_key(),
    {
        match self {
            GameControl::Up => Key::W,
            GameControl::Down => Key::R,
            GameControl::Left => Key::A,
            GameControl::Right => Key::S,
        }
    }

    /// Whether the key bound to this control is held down.
    pub fn pressed(&self, keys: &[Key]) -> (r: bool)
        ensures
            r == held(keys@, self.spec_key()),
    {
        is_held(keys, self.key())
    }
}

/// One when the control's key is held down, zero otherwise.
pub open spec fn movement_of(control: GameControl, keys: Seq<Key>) -> i8 {
    if held(keys, control.spec_key()) {
        1
    } else {
        0
    }
}

/// One when the control's key is held down, zero otherwise.
pub fn get_movement(control: GameControl, keys: &[Key]) -> (r: i8)
    ensures
        r == movement_of(control, keys@),
{
    if control.pressed(keys) {
        1
    } else {
        0
    }
}

} // verus!
