//! The rules of a two-player Pong match: two rackets, a ball that speeds
//! up with every racket hit, and two scores.
//!
//! The rules are kept apart from the window, the keyboard and the clock.
//! A host calls [`MainState::new`] once and [`MainState::update`] once per
//! frame, each time with a [`Frame`] that says how large the screen is,
//! how much time has passed and which keys are held, and then draws the
//! positions and scores that it finds in the [`MainState`].
//!
//! All arithmetic is on integers. Lengths are in thousandths of a pixel
//! and time is in microseconds (see [`units`]); a distance covered is
//! rounded toward zero, and coordinates saturate at the ends of the `i64`
//! range instead of overflowing. Every function is specified against a
//! mathematical model of the match ([`game::Game`], [`game::step`]), and
//! [`laws`] proves what holds of every frame of that model.

pub mod ball;
pub mod chance;
pub mod frame;
pub mod game;
pub mod laws;
pub mod numeric;
pub mod point;
pub mod racket;
pub mod units;

pub use ball::{ball_intersects, flip_ball_velocity, move_ball};
pub use frame::{Frame, Key};
pub use game::MainState;
pub use numeric::clamp;
pub use point::Point;
pub use racket::move_racket;
