//! What holds of every frame and of every run of frames, proved from the
//! definitions of the rules.

use vstd::prelude::*;
use crate::ball::{at_left_side, ball_moved, between_sides, speed_percent};
use crate::chance::is_serve;
use crate::frame::Frame;
use crate::game::{ball_out, center, kickoff, rallied, step, Game};
use crate::numeric::{magnitude, saturated};
use crate::point::Vec2;
use crate::racket::racket_on_screen;
use crate::units::{BALL_RADIUS, BALL_VELOCITY, RACKET_HEIGHT};

verus! {

/// A frame together with the velocity to serve with, should it end a rally.
pub type Turn = (Frame, Vec2);

/// The match after the frames of `turns` have been played in order.
pub open spec fn played(g: Game, turns: Seq<Turn>) -> Game
    decreases turns.len(),
{
    if turns.len() == 0 {
        g
    } else {
        step(played(g, turns.drop_last()), turns.last().0, turns.last().1)
    }
}

/// How many of the frames of `turns`, played in order from `g`, end a
/// rally.
pub open spec fn points_scored(g: Game, turns: Seq<Turn>) -> nat
    decreases turns.len(),
{
    if turns.len() == 0 {
        0
    } else {
        let before = played(g, turns.drop_last());
        let scored: nat = if ball_out(rallied(before, turns.last().0), turns.last().0) {
            1
        } else {
            0
        };
        points_scored(g, turns.drop_last()) + scored
    }
}

/// On a screen at least as high as a racket, both rackets are wholly on
/// the screen after every frame, wherever they were before and whatever
/// keys are held.
pub proof fn lemma_rackets_stay_on_screen(g: Game, frame: Frame, serve: Vec2)
    requires
        frame.screen_height >= RACKET_HEIGHT,
    ensures
        racket_on_screen(step(g, frame, serve).player_one_pos.y, frame),
        racket_on_screen(step(g, frame, serve).player_two_pos.y, frame),
{
}

/// On a field at least as wide as the ball, the centre of the ball is
/// between the two sides after every frame.
pub proof fn lemma_ball_stays_between_sides(g: Game, frame: Frame, serve: Vec2)
    requires
        frame.screen_width >= 2 * BALL_RADIUS,
    ensures
        between_sides(step(g, frame, serve).ball_pos.x, frame),
{
}

/// The more racket hits, the faster the ball.
pub proof fn lemma_speed_percent_grows(fewer: nat, more: nat)
    requires
        fewer <= more,
    ensures
        100 <= speed_percent(fewer) <= speed_percent(more),
{
}

/// Within a rally the ball never slows down: a frame that does not end the
/// rally leaves the count of hits as it is or raises it by one. A frame
/// that ends the rally puts the ball back to its served speed.
pub proof fn lemma_speed_within_rally(g: Game, frame: Frame, serve: Vec2)
    ensures
        !ball_out(rallied(g, frame), frame) ==> {
            let next = step(g, frame, serve);
            &&& g.number_of_bounces <= next.number_of_bounces <= g.number_of_bounces + 1
            &&& speed_percent(g.number_of_bounces) <= speed_percent(next.number_of_bounces)
        },
        ball_out(rallied(g, frame), frame) ==> {
            let next = step(g, frame, serve);
            &&& next.number_of_bounces == 0
            &&& speed_percent(next.number_of_bounces) == 100
        },
{
}

/// On a screen higher than the ball, a ball that touches the top wall
/// leaves the frame moving down and one that touches the bottom wall
/// leaves it moving up, whichever way it moved before. Its vertical speed
/// is kept.
pub proof fn lemma_wall_turns_ball_back(pos: Vec2, vel: Vec2, bounces: nat, frame: Frame)
    requires
        2 * BALL_RADIUS < frame.screen_height,
    ensures
        ({
            let (new_pos, new_vel) = ball_moved(pos, vel, bounces, frame);
            &&& new_pos.y <= BALL_RADIUS ==> {
                &&& new_vel.y == saturated(magnitude(vel.y))
                &&& new_vel.y >= 0
                &&& vel.y != 0 ==> new_vel.y > 0
            }
            &&& new_pos.y >= frame.screen_height - BALL_RADIUS ==> {
                &&& new_vel.y == -saturated(magnitude(vel.y))
                &&& new_vel.y <= 0
                &&& vel.y != 0 ==> new_vel.y < 0
            }
            &&& new_vel.x == vel.x
        }),
{
}

/// A frame that ends a rally gives one point to exactly one player: to
/// player two if the ball is at the left side, to player one otherwise.
/// Any other frame leaves both scores as they are.
pub proof fn lemma_point_goes_to_one_player(g: Game, frame: Frame, serve: Vec2)
    ensures
        ({
            let r = rallied(g, frame);
            let next = step(g, frame, serve);
            if !ball_out(r, frame) {
                &&& next.player_one_score == g.player_one_score
                &&& next.player_two_score == g.player_two_score
            } else if at_left_side(r.ball_pos.x) {
                &&& next.player_one_score == g.player_one_score
                &&& next.player_two_score == g.player_two_score + 1
            } else {
                &&& next.player_one_score == g.player_one_score + 1
                &&& next.player_two_score == g.player_two_score
            }
        }),
{
}

/// Over any run of frames the two scores together grow by the number of
/// frames that end a rally.
pub proof fn lemma_scores_count_points(g: Game, turns: Seq<Turn>)
    ensures
        played(g, turns).player_one_score + played(g, turns).player_two_score
            == g.player_one_score + g.player_two_score + points_scored(g, turns),
    decreases turns.len(),
{
    if turns.len() > 0 {
        lemma_scores_count_points(g, turns.drop_last());
        lemma_point_goes_to_one_player(
            played(g, turns.drop_last()),
            turns.last().0,
            turns.last().1,
        );
    }
}

/// From the start of a match on, the two scores together are the number
/// of rallies that have ended.
pub proof fn lemma_scores_from_kickoff(first: Frame, serve: Vec2, turns: Seq<Turn>)
    ensures
        played(kickoff(first, serve), turns).player_one_score + played(
            kickoff(first, serve),
            turns,
        ).player_two_score == points_scored(kickoff(first, serve), turns),
{
    lemma_scores_count_points(kickoff(first, serve), turns);
}

/// Right after a rally has ended the ball is at the centre of the screen
/// with the velocity it was served with, and no hit is counted. A served
/// ball has the serving speed along each axis, in either direction.
pub proof fn lemma_serve_follows_point(g: Game, frame: Frame, serve: Vec2)
    requires
        ball_out(rallied(g, frame), frame),
    ensures
        step(g, frame, serve).ball_pos == center(frame),
        step(g, frame, serve).ball_vel == serve,
        step(g, frame, serve).number_of_bounces == 0,
        is_serve(serve) ==> {
            let v = step(g, frame, serve).ball_vel;
            &&& v.x == BALL_VELOCITY || v.x == -BALL_VELOCITY
            &&& v.y == BALL_VELOCITY || v.y == -BALL_VELOCITY
        },
{
}

} // verus!
