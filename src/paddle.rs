use vstd::prelude::*;

use crate::field::Playfield;
use crate::geometry::{displacement, travel, Vec2};

verus! {

/// Vertical speed of a moving paddle, per second.
pub const PADDLE_SPEED: i64 = 500_000;

/// Width of a paddle.
pub const PADDLE_SCALE_X: i64 = 20_000;

/// Height of a paddle.
pub const PADDLE_SCALE_Y: i64 = 100_000;

/// Distance from a side edge of the field to the center of the paddle on
/// that side.
pub const PADDLE_MARGIN: i64 = 20_000;

#[derive(Clone, Copy, Debug, PartialEq, Eq, Structural)]
pub enum Player {
    Player1,
    Player2,
}

impl Player {
    pub open spec fn opponent(self) -> Player {
        match self {
            Player::Player1 => Player::Player2,
            Player::Player2 => Player::Player1,
        }
    }

    /// The player on the other side.
    pub fn other(self) -> (r: Player)
        ensures
            r == self.opponent(),
            r != self,
    {
        match self {
            Player::Player1 => Player::Player2,
            Player::Player2 => Player::Player1,
        }
    }
}

/// What a human player asks of their paddle during one tick.
#[derive(Clone, Copy, Debug, PartialEq, Eq, Structural)]
pub enum Intent {
    Up,
    Down,
    Neutral,
}

/// Who moves a paddle: a human through intents, or the computer, which
/// follows the ball.
#[derive(Clone, Copy, Debug, PartialEq, Eq, Structural)]
pub enum Control {
    Human,
    Computer,
}

#[derive(Clone, Copy, Debug, PartialEq, Eq, Structural)]
pub struct Paddle {
    pub player: Player,
    pub control: Control,
    pub position: Vec2,
}

pub open spec fn intent_direction(intent: Intent) -> int {
    match intent {
        Intent::Up => 1,
        Intent::Down => -1,
        Intent::Neutral => 0,
    }
}

/// The computer moves toward the ball, and stands still while the ball is
/// within a quarter of the paddle's height of its center.
pub open spec fn pursuit_direction(paddle_y: int, ball_y: int) -> int {
    if paddle_y + PADDLE_SCALE_Y / 4 < ball_y {
        1
    } else if paddle_y - PADDLE_SCALE_Y / 4 > ball_y {
        -1
    } else {
        0
    }
}

/// How far from the middle line a paddle's center may go.
pub open spec fn max_height(field: Playfield) -> int {
    field.half_height() - PADDLE_SCALE_Y / 2
}

pub open spec fn min_height(field: Playfield) -> int {
    -field.half_height() + PADDLE_SCALE_Y / 2
}

pub open spec fn clamp_height(y: int, field: Playfield) -> int {
    if y > max_height(field) {
        max_height(field)
    } else if y < min_height(field) {
        min_height(field)
    } else {
        y
    }
}

/// Where a paddle's center lands after moving for `dt` microseconds in
/// `direction` (1 up, -1 down, 0 still), kept inside the field.
pub open spec fn moved_height(y: int, direction: int, dt: int, field: Playfield) -> int {
    clamp_height(y + travel(direction * PADDLE_SPEED, dt), field)
}

/// The horizontal position of a player's paddle: the left side for
/// `Player1`, the right side for `Player2`.
pub open spec fn paddle_x(player: Player, field: Playfield) -> int {
    match player {
        Player::Player1 => -field.half_width() + PADDLE_MARGIN,
        Player::Player2 => field.half_width() - PADDLE_MARGIN,
    }
}

/// A paddle's center never leaves the band that keeps the whole paddle in
/// the field, wherever it started and however far it was pushed.
pub proof fn lemma_clamped_paddle_in_field(y: int, field: Playfield)
    requires
        field.wf(),
        field.height >= PADDLE_SCALE_Y,
    ensures
        -max_height(field) <= clamp_height(y, field) <= max_height(field),
{
}

/// Maps an intent to a direction: up 1, down -1, none 0.
pub fn direction_of(intent: Intent) -> (r: i64)
    ensures
        r == intent_direction(intent),
{
    match intent {
        Intent::Up => 1,
        Intent::Down => -1,
        Intent::Neutral => 0,
    }
}

/// The direction in which the computer moves a paddle at `paddle_y` toward
/// a ball at `ball_y`.
pub fn pursuit(paddle_y: i64, ball_y: i64) -> (r: i64)
    ensures
        r == pursuit_direction(paddle_y as int, ball_y as int),
{
    let y: i128 = paddle_y as i128;
    let target: i128 = ball_y as i128;
    let dead_zone: i128 = (PADDLE_SCALE_Y / 4) as i128;
    if y + dead_zone < target {
        1
    } else if y - dead_zone > target {
        -1
    } else {
        0
    }
}

/// Keeps a paddle's center between `min_height` and `max_height`.
pub fn clamp_to_field(y: i128, field: Playfield) -> (r: i64)
    requires
        field.wf(),
    ensures
        r == clamp_height(y as int, field),
        field.height >= PADDLE_SCALE_Y ==> -max_height(field) <= r <= max_height(field),
{
    let max: i64 = field.height / 2 - PADDLE_SCALE_Y / 2;
    let min: i64 = -(field.height / 2) + PADDLE_SCALE_Y / 2;
    if y > max as i128 {
        max
    } else if y < min as i128 {
        min
    } else {
        y as i64
    }
}

impl Paddle {
    /// A paddle at the middle height of its player's side.
    pub fn new(player: Player, control: Control, field: Playfield) -> (r: Paddle)
        requires
            field.wf(),
        ensures
            r.player == player,
            r.control == control,
            r.position.x == paddle_x(player, field),
            r.position.y == 0,
    {
        let x: i64 = match player {
            Player::Player1 => -(field.width / 2) + PADDLE_MARGIN,
            Player::Player2 => field.width / 2 - PADDLE_MARGIN,
        };
        Paddle { player, control, position: Vec2 { x, y: 0 } }
    }

    /// Half the paddle's size on each axis.
    pub open spec fn half_extents() -> Vec2 {
        Vec2 { x: (PADDLE_SCALE_X / 2) as i64, y: (PADDLE_SCALE_Y / 2) as i64 }
    }

    pub fn half_size() -> (r: Vec2)
        ensures
            r == Self::half_extents(),
    {
        Vec2 { x: PADDLE_SCALE_X / 2, y: PADDLE_SCALE_Y / 2 }
    }

    /// The paddle after moving in `direction` for `dt` microseconds.
    pub open spec fn moved(self, direction: int, dt: int, field: Playfield) -> Paddle {
        Paddle {
            position: Vec2 { y: moved_height(self.position.y as int, direction, dt, field) as i64, ..self.position },
            ..self
        }
    }

    /// Moves the paddle in `direction` (1 up, -1 down, 0 still) for `dt`
    /// microseconds at `PADDLE_SPEED`, and keeps it inside the field.
    pub fn move_in(&mut self, direction: i64, dt: u32, field: Playfield)
        requires
            field.wf(),
            -1 <= direction <= 1,
        ensures
            *final(self) == old(self).moved(direction as int, dt as int, field),
            final(self).position.y == moved_height(old(self).position.y as int, direction as int, dt as int, field),
    {
        let target: i128 = self.position.y as i128 + displacement(direction * PADDLE_SPEED, dt);
        self.position.y = clamp_to_field(target, field);
    }
}

/// The direction in which a paddle moves this tick: a human's paddle as
/// the intent asks, the computer's toward the ball at height `ball_y`.
pub open spec fn steering(paddle: Paddle, intent: Intent, ball_y: int) -> int {
    match paddle.control {
        Control::Human => intent_direction(intent),
        Control::Computer => pursuit_direction(paddle.position.y as int, ball_y),
    }
}

/// Moves a paddle by its control: a human's one by `intent`, the
/// computer's one toward the ball at height `ball_y`.
pub fn drive(paddle: &mut Paddle, intent: Intent, ball_y: i64, dt: u32, field: Playfield)
    requires
        field.wf(),
    ensures
        *final(paddle) == old(paddle).moved(steering(*old(paddle), intent, ball_y as int), dt as int, field),
{
    match paddle.control {
        Control::Human => paddle_movement(paddle, intent, dt, field),
        Control::Computer => paddle_ai_movement(paddle, ball_y, dt, field),
    }
}

/// Moves a human player's paddle as their intent asks.
pub fn paddle_movement(paddle: &mut Paddle, intent: Intent, dt: u32, field: Playfield)
    requires
        field.wf(),
    ensures
        *final(paddle) == old(paddle).moved(intent_direction(intent), dt as int, field),
{
    let direction = direction_of(intent);
    paddle.move_in(direction, dt, field);
}

/// Moves the computer's paddle toward a ball whose center is at height
/// `ball_y`.
pub fn paddle_ai_movement(paddle: &mut Paddle, ball_y: i64, dt: u32, field: Playfield)
    requires
        field.wf(),
    ensures
        *final(paddle) == old(paddle).moved(
            pursuit_direction(old(paddle).position.y as int, ball_y as int),
            dt as int,
            field,
        ),
{
    let direction = pursuit(paddle.position.y, ball_y);
    paddle.move_in(direction, dt, field);
}

} // verus!
