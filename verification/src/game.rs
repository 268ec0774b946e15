//! The match: two rackets, a ball, two scores and the count of racket
//! hits in the running rally, advanced one frame at a time.

use vstd::prelude::*;
use crate::ball::{
    at_left_side, at_right_side, ball_intersects, ball_moved, flip_ball_velocity, flipped,
    move_ball, overlaps,
};
use crate::chance::{is_serve, random_serve};
use crate::frame::{Frame, Key};
use crate::point::{Point, Vec2};
use crate::racket::{move_racket, racket_moved, racket_on_screen};
use crate::units::{BALL_RADIUS, BALL_VELOCITY, PADDING, RACKET_HEIGHT, RACKET_WIDTH};

verus! {

/// The state of a match. Positions are centres.
#[derive(Clone, Copy, Debug, PartialEq, Eq, Structural)]
pub struct MainState {
    pub player_one_pos: Point,
    pub player_two_pos: Point,
    pub ball_pos: Point,
    pub ball_vel: Point,
    pub player_one_score: u32,
    pub player_two_score: u32,
    pub number_of_bounces: u32,
}

/// The match that a [`MainState`] stands for, with unbounded counters.
pub ghost struct Game {
    pub player_one_pos: Vec2,
    pub player_two_pos: Vec2,
    pub ball_pos: Vec2,
    pub ball_vel: Vec2,
    pub player_one_score: nat,
    pub player_two_score: nat,
    pub number_of_bounces: nat,
}

impl View for MainState {
    type V = Game;

    open spec fn view(&self) -> Game {
        Game {
            player_one_pos: self.player_one_pos@,
            player_two_pos: self.player_two_pos@,
            ball_pos: self.ball_pos@,
            ball_vel: self.ball_vel@,
            player_one_score: self.player_one_score as nat,
            player_two_score: self.player_two_score as nat,
            number_of_bounces: self.number_of_bounces as nat,
        }
    }
}

/// The middle of the screen, where the ball is served from.
pub open spec fn center(frame: Frame) -> Vec2 {
    Vec2 { x: frame.screen_width as int / 2, y: frame.screen_height as int / 2 }
}

/// The match at its start on the screen of `frame`: each racket at the
/// middle height, [`PADDING`] away from its side of the field, the ball at
/// the centre with velocity `serve`, nothing scored and nothing hit.
pub open spec fn kickoff(frame: Frame, serve: Vec2) -> Game {
    Game {
        player_one_pos: Vec2 { x: RACKET_WIDTH / 2 + PADDING, y: frame.screen_height as int / 2 },
        player_two_pos: Vec2 {
            x: frame.screen_width - (RACKET_WIDTH / 2 + PADDING),
            y: frame.screen_height as int / 2,
        },
        ball_pos: center(frame),
        ball_vel: serve,
        player_one_score: 0,
        player_two_score: 0,
        number_of_bounces: 0,
    }
}

/// A racket after its two keys have been answered in turn, `up` first.
/// Each answer clamps, so with both keys held the racket may end away from
/// where it began.
pub open spec fn racket_driven(pos: Vec2, up: Key, down: Key, frame: Frame) -> Vec2 {
    Vec2 { x: pos.x, y: racket_moved(racket_moved(pos.y, up, -1, frame), down, 1, frame) }
}

/// The match after the part of a frame that comes before scoring: both
/// rackets are driven, the ball is moved, and if the ball then overlaps
/// either racket its horizontal velocity is pointed toward the middle and
/// one hit is counted, once even if it overlaps both.
pub open spec fn rallied(g: Game, frame: Frame) -> Game {
    let one = racket_driven(g.player_one_pos, Key::W, Key::S, frame);
    let two = racket_driven(g.player_two_pos, Key::Up, Key::Down, frame);
    let (pos, vel) = ball_moved(g.ball_pos, g.ball_vel, g.number_of_bounces, frame);
    let hit = overlaps(pos, one) || overlaps(pos, two);
    Game {
        player_one_pos: one,
        player_two_pos: two,
        ball_pos: pos,
        ball_vel: if hit {
            flipped(vel, pos, frame, true)
        } else {
            vel
        },
        number_of_bounces: if hit {
            g.number_of_bounces + 1
        } else {
            g.number_of_bounces
        },
        ..g
    }
}

/// Whether the ball has reached a side of the field, which ends the rally.
pub open spec fn ball_out(g: Game, frame: Frame) -> bool {
    at_left_side(g.ball_pos.x) || at_right_side(g.ball_pos.x, frame)
}

/// The match after a rally has ended: a ball at the left side gives a
/// point to player two, any other to player one; the ball goes back to the
/// centre with velocity `serve`, and the count of hits starts anew. On a
/// field so narrow that the ball is at both sides, the left side counts.
pub open spec fn served(g: Game, frame: Frame, serve: Vec2) -> Game {
    let left = at_left_side(g.ball_pos.x);
    Game {
        player_one_score: if left {
            g.player_one_score
        } else {
            g.player_one_score + 1
        },
        player_two_score: if left {
            g.player_two_score + 1
        } else {
            g.player_two_score
        },
        ball_pos: center(frame),
        ball_vel: serve,
        number_of_bounces: 0,
        ..g
    }
}

/// The match after one whole frame: [`rallied`], and then [`served`] with
/// `serve` if the ball is out. A frame scores at most one point.
pub open spec fn step(g: Game, frame: Frame, serve: Vec2) -> Game {
    let r = rallied(g, frame);
    if ball_out(r, frame) {
        served(r, frame, serve)
    } else {
        r
    }
}

impl MainState {
    /// Whether each of the three counters can still be raised by one.
    pub open spec fn has_room(&self) -> bool {
        &&& self.player_one_score < u32::MAX
        &&& self.player_two_score < u32::MAX
        &&& self.number_of_bounces < u32::MAX
    }

    /// A match at its start on the screen of `frame`, the ball served with
    /// the velocity `serve`.
    pub fn with_serve(frame: &Frame, serve: Point) -> (state: Self)
        ensures
            state@ == kickoff(*frame, serve@),
    {
        let screen_width: i64 = frame.screen_width as i64;
        let middle_x: i64 = (frame.screen_width / 2) as i64;
        let middle_y: i64 = (frame.screen_height / 2) as i64;
        MainState {
            player_one_pos: Point { x: RACKET_WIDTH / 2 + PADDING, y: middle_y },
            player_two_pos: Point { x: screen_width - (RACKET_WIDTH / 2 + PADDING), y: middle_y },
            ball_pos: Point { x: middle_x, y: middle_y },
            ball_vel: serve,
            player_one_score: 0,
            player_two_score: 0,
            number_of_bounces: 0,
        }
    }

    /// A match at its start on the screen of `frame`, the ball served in a
    /// direction picked at random.
    pub fn new(frame: &Frame) -> (state: Self)
        ensures
            exists|serve: Vec2| is_serve(serve) && state@ == kickoff(*frame, serve),
    {
        let serve = random_serve();
        let state = MainState::with_serve(frame, serve);
        assert(is_serve(serve@) && state@ == kickoff(*frame, serve@));
        state
    }

    /// Plays the part of a frame that comes before scoring.
    pub fn rally(&mut self, frame: &Frame)
        requires
            old(self).number_of_bounces < u32::MAX,
        ensures
            final(self)@ == rallied(old(self)@, *frame),
    {
        move_racket(&mut self.player_one_pos, Key::W, -1, frame);
        move_racket(&mut self.player_one_pos, Key::S, 1, frame);
        move_racket(&mut self.player_two_pos, Key::Up, -1, frame);
        move_racket(&mut self.player_two_pos, Key::Down, 1, frame);

        move_ball(&mut self.ball_pos, &mut self.ball_vel, &self.number_of_bounces, frame);

        let ball_intersects_player_one = ball_intersects(&self.ball_pos, &self.player_one_pos);
        let ball_intersects_player_two = ball_intersects(&self.ball_pos, &self.player_two_pos);

        if ball_intersects_player_one || ball_intersects_player_two {
            flip_ball_velocity(frame, &mut self.ball_vel, &mut self.ball_pos, true);
            self.number_of_bounces += 1;
        }
    }

    /// Whether the ball has reached a side of the field.
    pub fn ball_is_out(&self, frame: &Frame) -> (out: bool)
        ensures
            out == ball_out(self@, *frame),
    {
        self.ball_pos.x <= BALL_RADIUS || self.ball_pos.x >= frame.screen_width as i64
            - BALL_RADIUS
    }

    /// Ends a rally: awards the point and serves the ball anew with the
    /// velocity `serve`.
    pub fn award_point(&mut self, frame: &Frame, serve: Point)
        requires
            old(self).player_one_score < u32::MAX,
            old(self).player_two_score < u32::MAX,
        ensures
            final(self)@ == served(old(self)@, *frame, serve@),
    {
        if self.ball_pos.x <= BALL_RADIUS {
            self.player_two_score += 1;
        } else {
            self.player_one_score += 1;
        }
        self.ball_pos = Point {
            x: (frame.screen_width / 2) as i64,
            y: (frame.screen_height / 2) as i64,
        };
        self.ball_vel = serve;
        self.number_of_bounces = 0;
    }

    /// Plays one frame. If the frame ends the rally, the ball is served
    /// anew with the velocity `serve`; otherwise `serve` is not used.
    pub fn advance(&mut self, frame: &Frame, serve: Point)
        requires
            old(self).has_room(),
        ensures
            final(self)@ == step(old(self)@, *frame, serve@),
            frame.screen_height >= RACKET_HEIGHT ==> {
                &&& racket_on_screen(final(self).player_one_pos.y as int, *frame)
                &&& racket_on_screen(final(self).player_two_pos.y as int, *frame)
            },
    {
        self.rally(frame);
        if self.ball_is_out(frame) {
            self.award_point(frame, serve);
        }
    }

    /// Plays one frame. If the frame ends the rally, the ball is served
    /// anew in a direction picked at random.
    ///
    /// The new state is that of [`step`] for one of the four serves. The
    /// further clauses spell out what that means: the rackets end on the
    /// screen; a frame that does not end the rally is [`rallied`] and
    /// counts at most one more hit; a frame that ends it gives one point
    /// to one player, puts the ball at the centre with a serving velocity
    /// and counts no hit.
    pub fn update(&mut self, frame: &Frame)
        requires
            old(self).has_room(),
        ensures
            exists|serve: Vec2| is_serve(serve) && final(self)@ == step(old(self)@, *frame, serve),
            frame.screen_height >= RACKET_HEIGHT ==> {
                &&& racket_on_screen(final(self).player_one_pos.y as int, *frame)
                &&& racket_on_screen(final(self).player_two_pos.y as int, *frame)
            },
            !ball_out(rallied(old(self)@, *frame), *frame) ==> {
                &&& final(self)@ == rallied(old(self)@, *frame)
                &&& old(self).number_of_bounces <= final(self).number_of_bounces
                    <= old(self).number_of_bounces + 1
                &&& final(self).player_one_score == old(self).player_one_score
                &&& final(self).player_two_score == old(self).player_two_score
            },
            ball_out(rallied(old(self)@, *frame), *frame) ==> {
                &&& final(self).ball_pos@ == center(*frame)
                &&& is_serve(final(self).ball_vel@)
                &&& final(self).number_of_bounces == 0
                &&& final(self).player_one_score + final(self).player_two_score
                    == old(self).player_one_score + old(self).player_two_score + 1
                &&& final(self).player_one_score == old(self).player_one_score
                    || final(self).player_two_score == old(self).player_two_score
            },
    {
        self.rally(frame);
        if self.ball_is_out(frame) {
            let serve = random_serve();
            self.award_point(frame, serve);
            assert(is_serve(serve@) && self@ == step(old(self)@, *frame, serve@));
        } else {
            let ghost unused = Vec2 { x: BALL_VELOCITY as int, y: BALL_VELOCITY as int };
            assert(is_serve(unused) && self@ == step(old(self)@, *frame, unused));
        }
    }
}

} // verus!
