//! The units of measure and the fixed dimensions of the playing field.
//!
//! Lengths are whole numbers of *units*, a thousandth of a pixel each;
//! time is counted in *ticks*, a millionth of a second each; speeds are in
//! units per second.

use vstd::prelude::*;

verus! {

/// Units in one pixel.
pub const UNITS_PER_PIXEL: i64 = 1_000;

/// Ticks in one second.
pub const TICKS_PER_SECOND: u64 = 1_000_000;

/// Gap between a racket and the side of the field behind it.
pub const PADDING: i64 = 40_000;

/// Width of a racket.
pub const RACKET_WIDTH: i64 = 20_000;

/// Height of a racket.
pub const RACKET_HEIGHT: i64 = 100_000;

/// Speed of a racket while its key is held, in units per second.
pub const RACKET_SPEED: i64 = 500_000;

/// Half the side of the square that stands for the ball.
pub const BALL_RADIUS: i64 = 15_000;

/// Speed of a served ball along each axis, in units per second.
pub const BALL_VELOCITY: i64 = 300_000;

/// Per cent of its served speed that the ball gains with every racket hit.
pub const SPEED_INCREASE_PER_BOUNCE: u64 = 5;

} // verus!
