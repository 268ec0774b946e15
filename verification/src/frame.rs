//! What the host reports to the rules once per frame.

use vstd::prelude::*;

verus! {

/// The four keys that move the rackets.
#[derive(Clone, Copy, Debug, PartialEq, Eq, Structural)]
pub enum Key {
    /// Player one, up.
    W,
    /// Player one, down.
    S,
    /// Player two, up.
    Up,
    /// Player two, down.
    Down,
}

/// A snapshot of the host at the start of a frame: the size of the
/// drawable surface in units, the ticks elapsed since the previous frame,
/// and which keys are held.
#[derive(Clone, Copy, Debug, PartialEq, Eq, Structural)]
pub struct Frame {
    pub screen_width: u32,
    pub screen_height: u32,
    pub dt: u64,
    pub w: bool,
    pub s: bool,
    pub up: bool,
    pub down: bool,
}

impl Frame {
    /// Whether `key` is held in this frame.
    pub open spec fn key_pressed(&self, key: Key) -> bool {
        match key {
            Key::W => self.w,
            Key::S => self.s,
            Key::Up => self.up,
            Key::Down => self.down,
        }
    }

    /// Whether `key` is held in this frame.
    pub fn is_key_pressed(&self, key: Key) -> (held: bool)
        ensures
            held == self.key_pressed(key),
    {
        match key {
            Key::W => self.w,
            Key::S => self.s,
            Key::Up => self.up,
            Key::Down => self.down,
        }
    }
}

} // verus!
