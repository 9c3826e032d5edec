//! The input sampler boundary: the four keys the game reads, the fixed
//! key-to-player binding table, and one frame's sample of which keys are held.
//!
//! The host polls the real input device once per frame and fills an
//! [`InputState`]; the simulation only ever asks "is this key held".

use vstd::prelude::*;

verus! {

/// The four keys the game reads: W/S steer paddle 0, Up/Down steer paddle 1.
#[derive(Clone, Copy, PartialEq, Eq, Structural, Debug)]
pub enum Key {
    W,
    S,
    Up,
    Down,
}

/// The up/down key pair bound to one player.
#[derive(Clone, Copy, PartialEq, Eq, Structural, Debug)]
pub struct KeyBinding {
    pub up: Key,
    pub down: Key,
}

/// The fixed binding table: player 0 steers with W/S, player 1 with Up/Down.
pub open spec fn spec_player_keys(index: int) -> KeyBinding {
    if index == 0 {
        KeyBinding { up: Key::W, down: Key::S }
    } else {
        KeyBinding { up: Key::Up, down: Key::Down }
    }
}

/// Looks up the key pair bound to a player index.
pub fn player_keys(index: usize) -> (r: KeyBinding)
    requires
        index < 2,
    ensures
        r == spec_player_keys(index as int),
{
    if index == 0 {
        KeyBinding { up: Key::W, down: Key::S }
    } else {
        KeyBinding { up: Key::Up, down: Key::Down }
    }
}

/// One frame's sample of the key state: one flag per key the game reads.
#[derive(Clone, Copy, PartialEq, Eq, Structural, Debug)]
pub struct InputState {
    pub w: bool,
    pub s: bool,
    pub up: bool,
    pub down: bool,
}

impl InputState {
    /// Whether a key is held in this sample.
    pub open spec fn spec_pressed(self, key: Key) -> bool {
        match key {
            Key::W => self.w,
            Key::S => self.s,
            Key::Up => self.up,
            Key::Down => self.down,
        }
    }

    /// Answers "is this key currently held" for one sampled frame.
    pub fn pressed(&self, key: Key) -> (r: bool)
        ensures
            r == self.spec_pressed(key),
    {
        match key {
            Key::W => self.w,
            Key::S => self.s,
            Key::Up => self.up,
            Key::Down => self.down,
        }
    }

    /// A sample in which no key is held.
    pub fn none_held() -> (r: InputState)
        ensures
            r == (InputState { w: false, s: false, up: false, down: false }),
    {
        InputState { w: false, s: false, up: false, down: false }
    }
}

} // verus!
