//! Ball motion: the ball speeds up with every racket hit, stays between
//! the two sides of the field, and turns back at the top and bottom walls
//! and at the rackets.

use vstd::prelude::*;
use crate::frame::Frame;
use crate::numeric::{
    advance, advanced, clamp, clamped_int, magnitude, saturated, saturating_magnitude,
};
use crate::point::{Point, Vec2};
use crate::units::{BALL_RADIUS, RACKET_HEIGHT, RACKET_WIDTH, SPEED_INCREASE_PER_BOUNCE};

verus! {

/// The per cent of its own velocity at which the ball travels after
/// `bounces` racket hits in the current rally.
pub open spec fn speed_percent(bounces: nat) -> nat {
    100 + bounces * SPEED_INCREASE_PER_BOUNCE as nat
}

/// A velocity component of the size of `speed` that points from
/// `coordinate` toward `middle`: negative beyond the middle, positive at
/// or before it. The size saturates, so `i64::MIN` gives `i64::MAX`.
pub open spec fn toward_middle(coordinate: int, middle: int, speed: int) -> int {
    if coordinate > middle {
        -saturated(magnitude(speed))
    } else {
        saturated(magnitude(speed))
    }
}

/// The velocity after one call of [`flip_ball_velocity`]: one component,
/// horizontal if `flip_x` and vertical otherwise, is pointed toward the
/// middle of the screen; the other is kept.
pub open spec fn flipped(vel: Vec2, pos: Vec2, frame: Frame, flip_x: bool) -> Vec2 {
    if flip_x {
        Vec2 { x: toward_middle(pos.x, frame.screen_width as int / 2, vel.x), y: vel.y }
    } else {
        Vec2 { x: vel.x, y: toward_middle(pos.y, frame.screen_height as int / 2, vel.y) }
    }
}

/// Whether a ball centred at height `y` touches the top or the bottom wall.
pub open spec fn at_wall(y: int, frame: Frame) -> bool {
    y <= BALL_RADIUS || y >= frame.screen_height - BALL_RADIUS
}

/// Whether a ball centred at `x` is between the two sides of the field,
/// the sides included.
pub open spec fn between_sides(x: int, frame: Frame) -> bool {
    BALL_RADIUS <= x <= frame.screen_width - BALL_RADIUS
}

/// Whether a ball centred at `x` has reached the left side of the field.
pub open spec fn at_left_side(x: int) -> bool {
    x <= BALL_RADIUS
}

/// Whether a ball centred at `x` has reached the right side of the field.
pub open spec fn at_right_side(x: int, frame: Frame) -> bool {
    x >= frame.screen_width - BALL_RADIUS
}

/// The position and the velocity of the ball after one call of
/// [`move_ball`].
///
/// Both coordinates advance by the velocity for the frame's ticks at
/// [`speed_percent`]. The horizontal one is then clamped between the two
/// sides of the field. The vertical one is left as it is, and where it
/// touches a wall the vertical velocity is pointed back toward the middle.
/// On a field narrower than the ball the clamp range is inverted: a ball
/// left of [`BALL_RADIUS`] is put there, any other at the screen's width
/// less [`BALL_RADIUS`].
pub open spec fn ball_moved(pos: Vec2, vel: Vec2, bounces: nat, frame: Frame) -> (Vec2, Vec2) {
    let percent = speed_percent(bounces);
    let y = advanced(pos.y, vel.y, frame.dt as nat, percent);
    let x = clamped_int(
        advanced(pos.x, vel.x, frame.dt as nat, percent),
        BALL_RADIUS as int,
        frame.screen_width - BALL_RADIUS,
    );
    let new_pos = Vec2 { x, y };
    if at_wall(y, frame) {
        (new_pos, flipped(vel, new_pos, frame, false))
    } else {
        (new_pos, vel)
    }
}

/// Whether the square around a ball at `ball` and the rectangle of a
/// racket at `racket` overlap. Squares that only touch do not overlap.
pub open spec fn overlaps(ball: Vec2, racket: Vec2) -> bool {
    &&& ball.x - BALL_RADIUS < racket.x + RACKET_WIDTH / 2
    &&& ball.x + BALL_RADIUS > racket.x - RACKET_WIDTH / 2
    &&& ball.y - BALL_RADIUS < racket.y + RACKET_HEIGHT / 2
    &&& ball.y + BALL_RADIUS > racket.y - RACKET_HEIGHT / 2
}

/// Points one component of the ball's velocity toward the middle of the
/// screen: the horizontal one if `flip_x`, the vertical one otherwise. The
/// position is read and left as it is.
pub fn flip_ball_velocity(frame: &Frame, ball_vel: &mut Point, ball_pos: &mut Point, flip_x: bool)
    ensures
        final(ball_vel)@ == flipped(old(ball_vel)@, old(ball_pos)@, *frame, flip_x),
        *final(ball_pos) == *old(ball_pos),
{
    if flip_x {
        if ball_pos.x > (frame.screen_width / 2) as i64 {
            ball_vel.x = -saturating_magnitude(ball_vel.x);
        } else {
            ball_vel.x = saturating_magnitude(ball_vel.x);
        }
    } else {
        if ball_pos.y > (frame.screen_height / 2) as i64 {
            ball_vel.y = -saturating_magnitude(ball_vel.y);
        } else {
            ball_vel.y = saturating_magnitude(ball_vel.y);
        }
    }
}

/// Moves the ball for one frame.
pub fn move_ball(ball_pos: &mut Point, ball_vel: &mut Point, number_of_bounces: &u32, frame: &Frame)
    ensures
        (final(ball_pos)@, final(ball_vel)@) == ball_moved(
            old(ball_pos)@,
            old(ball_vel)@,
            *number_of_bounces as nat,
            *frame,
        ),
        frame.screen_width >= 2 * BALL_RADIUS ==> between_sides(final(ball_pos).x as int, *frame),
        2 * BALL_RADIUS < frame.screen_height && final(ball_pos).y <= BALL_RADIUS
            ==> final(ball_vel).y >= 0,
        2 * BALL_RADIUS < frame.screen_height && final(ball_pos).y >= frame.screen_height
            - BALL_RADIUS ==> final(ball_vel).y <= 0,
{
    let percent: u64 = 100 + *number_of_bounces as u64 * SPEED_INCREASE_PER_BOUNCE;
    ball_pos.y = advance(ball_pos.y, ball_vel.y, frame.dt, percent);
    ball_pos.x = advance(ball_pos.x, ball_vel.x, frame.dt, percent);

    let screen_width: i64 = frame.screen_width as i64;
    let screen_height: i64 = frame.screen_height as i64;
    ball_pos.x = clamp(ball_pos.x, BALL_RADIUS, screen_width - BALL_RADIUS);

    if ball_pos.y <= BALL_RADIUS || ball_pos.y >= screen_height - BALL_RADIUS {
        flip_ball_velocity(frame, ball_vel, ball_pos, false);
    }
}

/// Whether the ball overlaps a racket.
pub fn ball_intersects(ball_pos: &Point, racket_pos: &Point) -> (hit: bool)
    ensures
        hit == overlaps(ball_pos@, racket_pos@),
{
    let ball_x: i128 = ball_pos.x as i128;
    let ball_y: i128 = ball_pos.y as i128;
    let racket_x: i128 = racket_pos.x as i128;
    let racket_y: i128 = racket_pos.y as i128;
    let radius: i128 = BALL_RADIUS as i128;
    let half_width: i128 = (RACKET_WIDTH / 2) as i128;
    let half_height: i128 = (RACKET_HEIGHT / 2) as i128;
    ball_x - radius < racket_x + half_width && ball_x + radius > racket_x - half_width && ball_y
        - radius < racket_y + half_height && ball_y + radius > racket_y - half_height
}

} // verus!
