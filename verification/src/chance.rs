//! The random direction in which a ball is served.

use rand::seq::SliceRandom;
use vstd::prelude::*;
use crate::point::{Point, Vec2};
use crate::units::BALL_VELOCITY;

verus! {

/// Whether `v` is a velocity that a ball may be served with: the serving
/// speed along each axis, in either direction, the two axes chosen apart.
pub open spec fn is_serve(v: Vec2) -> bool {
    &&& v.x == BALL_VELOCITY || v.x == -BALL_VELOCITY
    &&& v.y == BALL_VELOCITY || v.y == -BALL_VELOCITY
}

/// Calls `rand::seq::SliceRandom::choose` on `options` with the generator
/// that `rand::thread_rng` hands out.
///
/// Trusted, not proved: `choose` returns `None` for an empty slice and
/// otherwise a reference to one of the slice's elements, which is copied
/// out here. Which element it is depends on chance, so nothing more is
/// claimed. `thread_rng` panics if the operating system cannot seed the
/// generator.
#[verifier::external_body]
fn pick_one(options: &Vec<i64>) -> (picked: Option<i64>)
    ensures
        options@.len() == 0 ==> picked is None,
        options@.len() > 0 ==> picked is Some && options@.contains(picked->0),
{
    options.choose(&mut rand::thread_rng()).copied()
}

/// Picks `-1` or `1` at random.
pub fn random_sign() -> (sign: i64)
    ensures
        sign == -1 || sign == 1,
{
    let options: Vec<i64> = vec![-1, 1];
    let picked = pick_one(&options);
    picked.unwrap()
}

/// Picks at random one of the four velocities that a ball may be served
/// with, the sign of each axis drawn on its own.
pub fn random_serve() -> (serve: Point)
    ensures
        is_serve(serve@),
{
    let x: i64 = random_sign() * BALL_VELOCITY;
    let y: i64 = random_sign() * BALL_VELOCITY;
    Point { x, y }
}

} // verus!
