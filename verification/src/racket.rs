//! Racket motion: a racket moves up or down while its key is held and
//! never leaves the screen.

use vstd::prelude::*;
use crate::frame::{Frame, Key};
use crate::numeric::{advance, advanced, clamp, clamped_int};
use crate::point::Point;
use crate::units::{RACKET_HEIGHT, RACKET_SPEED};

verus! {

/// The lowest height at which the centre of a racket may stand.
pub open spec fn racket_min_y() -> int {
    RACKET_HEIGHT / 2
}

/// The greatest height at which the centre of a racket may stand on a
/// screen of the given height.
pub open spec fn racket_max_y(screen_height: int) -> int {
    screen_height - RACKET_HEIGHT / 2
}

/// Whether a racket centred at height `y` is wholly on the screen.
pub open spec fn racket_on_screen(y: int, frame: Frame) -> bool {
    racket_min_y() <= y <= racket_max_y(frame.screen_height as int)
}

/// The height of a racket's centre after one call of [`move_racket`].
///
/// While `key` is held the racket moves at `y_dir` times the racket speed
/// for the frame's ticks. Held or not, the height is then clamped to the
/// screen. On a screen lower than a racket the clamp range is inverted: a
/// height below [`racket_min_y`] becomes that minimum, any other becomes
/// [`racket_max_y`].
pub open spec fn racket_moved(y: int, key: Key, y_dir: int, frame: Frame) -> int {
    let moved = if frame.key_pressed(key) {
        advanced(y, y_dir * RACKET_SPEED, frame.dt as nat, 100)
    } else {
        y
    };
    clamped_int(moved, racket_min_y(), racket_max_y(frame.screen_height as int))
}

/// Moves a racket for one frame in answer to one key.
///
/// `y_dir` is the direction that `key` stands for: `-1` for up, `1` for
/// down.
pub fn move_racket(pos: &mut Point, key: Key, y_dir: i8, frame: &Frame)
    ensures
        final(pos).x == old(pos).x,
        final(pos).y == racket_moved(old(pos).y as int, key, y_dir as int, *frame),
        frame.screen_height >= RACKET_HEIGHT ==> racket_on_screen(final(pos).y as int, *frame),
{
    if frame.is_key_pressed(key) {
        pos.y = advance(pos.y, y_dir as i64 * RACKET_SPEED, frame.dt, 100);
    }
    let screen_height: i64 = frame.screen_height as i64;
    pos.y = clamp(pos.y, RACKET_HEIGHT / 2, screen_height - RACKET_HEIGHT / 2);
}

} // verus!
