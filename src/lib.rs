//! The rules engine of a two-player Pong game: ball kinematics, paddle
//! control, collision resolution, scoring and the round state machine.
//!
//! All quantities are integers. Lengths are measured in thousandths of a
//! pixel, speeds in thousandths of a pixel per second and durations in
//! microseconds. `Game` holds the whole simulation and runs one tick at a
//! time: the paddles move, then in `Play` the ball flies and bounces, then a
//! goal is looked for.

pub mod ball;
pub mod field;
pub mod game;
pub mod game_state;
pub mod geometry;
pub mod paddle;
pub mod score;

mod rng;

pub use ball::{
    bounce, Ball, BALL_INITIAL_X_MAX, BALL_INITIAL_X_MIN, BALL_INITIAL_Y_MAX, BALL_INITIAL_Y_MIN,
    BALL_SCALE, BOUNCE_DENOMINATOR, BOUNCE_NUMERATOR, POSITION_LIMIT, SPEED_LIMIT,
};
pub use field::{Playfield, FIELD_LIMIT};
pub use game::{Draws, Game};
pub use game_state::AppState;
pub use geometry::{displacement, overlaps, Vec2, MICROS_PER_SECOND};
pub use paddle::{
    clamp_to_field, direction_of, drive, paddle_ai_movement, paddle_movement, pursuit, Control,
    Intent, Paddle, Player, PADDLE_MARGIN, PADDLE_SCALE_X, PADDLE_SCALE_Y, PADDLE_SPEED,
};
pub use score::{goal_scorer, Event, Scoreboard, VICTORY_SCORE};
