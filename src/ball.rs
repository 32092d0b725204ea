use vstd::prelude::*;

use crate::field::Playfield;
use crate::geometry::{abs, boxes_overlap, displacement, fits_i64, lemma_travel_bounded, overlaps, travel, Vec2};
use crate::paddle::{Paddle, Player, PADDLE_SCALE_X};
use crate::rng::random_in;

verus! {

/// Smallest horizontal serve speed, per second.
pub const BALL_INITIAL_X_MIN: i64 = 140_000;

/// Horizontal serve speeds stay below this, per second.
pub const BALL_INITIAL_X_MAX: i64 = 200_000;

/// Smallest vertical serve speed, per second.
pub const BALL_INITIAL_Y_MIN: i64 = -50_000;

/// Vertical serve speeds stay below this, per second; it is also the
/// largest vertical speed after a paddle bounce.
pub const BALL_INITIAL_Y_MAX: i64 = 50_000;

/// Side length of the square ball.
pub const BALL_SCALE: i64 = 15_000;

/// A paddle bounce multiplies the horizontal speed by
/// `BOUNCE_NUMERATOR / BOUNCE_DENOMINATOR`.
pub const BOUNCE_NUMERATOR: i64 = 11;

pub const BOUNCE_DENOMINATOR: i64 = 10;

/// Largest coordinate of a ball that may be simulated for a tick.
pub const POSITION_LIMIT: i64 = 0x1000_0000_0000_0000;

/// Largest speed component of a ball that may be simulated for a tick.
pub const SPEED_LIMIT: i64 = 0x4_0000_0000_0000;

#[derive(Clone, Copy, Debug, PartialEq, Eq, Structural)]
pub struct Ball {
    pub position: Vec2,
    pub velocity: Vec2,
}

/// The horizontal velocity after a paddle bounce: reversed and made larger
/// by a tenth, rounded toward zero.
pub open spec fn bounced(v: int) -> int {
    if v >= 0 {
        -(v * BOUNCE_NUMERATOR / BOUNCE_DENOMINATOR as int)
    } else {
        (-v) * BOUNCE_NUMERATOR / BOUNCE_DENOMINATOR as int
    }
}

/// The vertical velocity after a paddle bounce: the drawn `magnitude`,
/// upward if the ball was moving upward and downward otherwise.
pub open spec fn rebound_y(vy: int, magnitude: int) -> int {
    if vy > 0 {
        magnitude
    } else {
        -magnitude
    }
}

impl Ball {
    /// A ball at rest at the center of the field.
    pub fn new() -> (r: Ball)
        ensures
            r.position == (Vec2 { x: 0, y: 0 }),
            r.velocity == (Vec2 { x: 0, y: 0 }),
    {
        Ball { position: Vec2 { x: 0, y: 0 }, velocity: Vec2 { x: 0, y: 0 } }
    }

    /// Position and velocity are small enough for a tick of any length to
    /// be computed without overflow.
    pub open spec fn in_bounds(self) -> bool {
        &&& abs(self.position.x as int) <= POSITION_LIMIT
        &&& abs(self.position.y as int) <= POSITION_LIMIT
        &&& abs(self.velocity.x as int) <= SPEED_LIMIT
        &&& abs(self.velocity.y as int) <= SPEED_LIMIT
    }

    pub fn is_in_bounds(&self) -> (r: bool)
        ensures
            r == self.in_bounds(),
    {
        -POSITION_LIMIT <= self.position.x && self.position.x <= POSITION_LIMIT
            && -POSITION_LIMIT <= self.position.y && self.position.y <= POSITION_LIMIT
            && -SPEED_LIMIT <= self.velocity.x && self.velocity.x <= SPEED_LIMIT
            && -SPEED_LIMIT <= self.velocity.y && self.velocity.y <= SPEED_LIMIT
    }

    /// Half the ball's size on each axis.
    pub open spec fn half_extents() -> Vec2 {
        Vec2 { x: (BALL_SCALE / 2) as i64, y: (BALL_SCALE / 2) as i64 }
    }

    pub fn half_size() -> (r: Vec2)
        ensures
            r == Self::half_extents(),
    {
        Vec2 { x: BALL_SCALE / 2, y: BALL_SCALE / 2 }
    }

    /// The ball's box overlaps the paddle's box.
    pub open spec fn hits(self, paddle: Paddle) -> bool {
        boxes_overlap(self.position, Self::half_extents(), paddle.position, Paddle::half_extents())
    }

    pub fn touches(&self, paddle: &Paddle) -> (r: bool)
        ensures
            r == self.hits(*paddle),
    {
        overlaps(self.position, Self::half_size(), paddle.position, Paddle::half_size())
    }

    pub open spec fn can_move(self, dt: int) -> bool {
        &&& fits_i64(self.position.x + travel(self.velocity.x as int, dt))
        &&& fits_i64(self.position.y + travel(self.velocity.y as int, dt))
    }

    /// The ball after flying for `dt` microseconds.
    pub open spec fn moved(self, dt: int) -> Ball {
        Ball {
            position: Vec2 {
                x: (self.position.x + travel(self.velocity.x as int, dt)) as i64,
                y: (self.position.y + travel(self.velocity.y as int, dt)) as i64,
            },
            velocity: self.velocity,
        }
    }

    /// Advances the ball along its velocity for `dt` microseconds.
    pub fn ball_movement(&mut self, dt: u32)
        requires
            old(self).can_move(dt as int),
        ensures
            *final(self) == old(self).moved(dt as int),
    {
        let dx = displacement(self.velocity.x, dt);
        let dy = displacement(self.velocity.y, dt);
        self.position.x = (self.position.x as i128 + dx) as i64;
        self.position.y = (self.position.y as i128 + dy) as i64;
    }

    /// A ball in bounds can fly for any duration, and lands within a bound
    /// that leaves room for the rest of the tick.
    pub proof fn lemma_move_in_bounds(self, dt: u32)
        requires
            self.in_bounds(),
        ensures
            self.can_move(dt as int),
            abs(self.moved(dt as int).position.x as int) <= 6 * POSITION_LIMIT,
            abs(self.moved(dt as int).position.y as int) <= 6 * POSITION_LIMIT,
            self.moved(dt as int).velocity == self.velocity,
    {
        lemma_travel_bounded(self.velocity.x as int, dt as int, SPEED_LIMIT as int);
        lemma_travel_bounded(self.velocity.y as int, dt as int, SPEED_LIMIT as int);
        assert(SPEED_LIMIT * dt <= SPEED_LIMIT * 0x1_0000_0000) by (nonlinear_arith)
            requires
                0 <= dt <= 0x1_0000_0000,
        ;
        assert(SPEED_LIMIT * dt / 1_000_000 <= SPEED_LIMIT * 0x1_0000_0000 / 1_000_000) by (nonlinear_arith)
            requires
                SPEED_LIMIT * dt <= SPEED_LIMIT * 0x1_0000_0000,
        ;
    }

    /// The ball after bouncing off the top and bottom walls: the vertical
    /// velocity turns when the ball's edge is beyond a wall.
    pub open spec fn wall_reflected(self, field: Playfield) -> Ball {
        let top = field.half_height() - BALL_SCALE / 2;
        let bottom = -field.half_height() + BALL_SCALE / 2;
        let vy1 = if self.position.y > top {
            -self.velocity.y
        } else {
            self.velocity.y as int
        };
        let vy2 = if self.position.y < bottom {
            -vy1
        } else {
            vy1
        };
        Ball { velocity: Vec2 { y: vy2 as i64, ..self.velocity }, ..self }
    }

    pub fn reflect_off_walls(&mut self, field: Playfield)
        requires
            field.wf(),
            old(self).velocity.y > i64::MIN,
        ensures
            *final(self) == old(self).wall_reflected(field),
    {
        if self.position.y > field.height / 2 - BALL_SCALE / 2 {
            self.velocity.y = -self.velocity.y;
        }
        if self.position.y < -(field.height / 2) + BALL_SCALE / 2 {
            self.velocity.y = -self.velocity.y;
        }
    }

    /// The ball after the pushes and bounces of the paddles that were hit:
    /// `Player1`'s paddle, on the left, pushes it right by half its size;
    /// `Player2`'s pushes it left. Each hit reverses and speeds up the
    /// horizontal velocity, and any hit draws the vertical speed anew.
    pub open spec fn after_hits(self, hit1: bool, hit2: bool, magnitude: i64) -> Ball {
        let x1 = if hit1 {
            self.position.x + BALL_SCALE / 2
        } else {
            self.position.x as int
        };
        let vx1 = if hit1 {
            bounced(self.velocity.x as int)
        } else {
            self.velocity.x as int
        };
        let x2 = if hit2 {
            x1 - BALL_SCALE / 2
        } else {
            x1
        };
        let vx2 = if hit2 {
            bounced(vx1)
        } else {
            vx1
        };
        let vy = if hit1 || hit2 {
            rebound_y(self.velocity.y as int, magnitude as int)
        } else {
            self.velocity.y as int
        };
        Ball {
            position: Vec2 { x: x2 as i64, ..self.position },
            velocity: Vec2 { x: vx2 as i64, y: vy as i64 },
        }
    }

    pub fn resolve_hits(&mut self, hit1: bool, hit2: bool, magnitude: i64)
        requires
            abs(old(self).position.x as int) <= i64::MAX - BALL_SCALE,
            abs(old(self).velocity.x as int) <= SPEED_LIMIT,
            0 < magnitude,
        ensures
            *final(self) == old(self).after_hits(hit1, hit2, magnitude),
    {
        if hit1 {
            self.position.x = self.position.x + BALL_SCALE / 2;
            self.velocity.x = bounce(self.velocity.x);
        }
        if hit2 {
            self.position.x = self.position.x - BALL_SCALE / 2;
            self.velocity.x = bounce(self.velocity.x);
        }
        if hit1 || hit2 {
            self.velocity.y = if self.velocity.y > 0 {
                magnitude
            } else {
                -magnitude
            };
        }
    }

    /// Whether one of the two paddles that belongs to `player` overlaps
    /// the ball.
    pub open spec fn hit_by(self, a: Paddle, b: Paddle, player: Player) -> bool {
        (a.player == player && self.hits(a)) || (b.player == player && self.hits(b))
    }

    /// The ball after one collision pass against the walls and the paddles
    /// `a` and `b`, with `magnitude` as the vertical speed drawn for a bounce.
    pub open spec fn collided(self, a: Paddle, b: Paddle, field: Playfield, magnitude: i64) -> Ball {
        self.wall_reflected(field).after_hits(
            self.hit_by(a, b, Player::Player1),
            self.hit_by(a, b, Player::Player2),
            magnitude,
        )
    }

    pub open spec fn can_collide(self) -> bool {
        &&& abs(self.position.x as int) <= i64::MAX - BALL_SCALE
        &&& abs(self.velocity.x as int) <= SPEED_LIMIT
        &&& self.velocity.y > i64::MIN
    }

    /// Bounces the ball off the walls and off the paddles `a` and `b`, with
    /// `magnitude` as the new vertical speed should a paddle be hit.
    pub fn collide_with(&mut self, a: &Paddle, b: &Paddle, field: Playfield, magnitude: i64)
        requires
            field.wf(),
            old(self).can_collide(),
            0 < magnitude,
        ensures
            *final(self) == old(self).collided(*a, *b, field, magnitude),
    {
        let hit1 = (a.player == Player::Player1 && self.touches(a)) || (b.player == Player::Player1
            && self.touches(b));
        let hit2 = (a.player == Player::Player2 && self.touches(a)) || (b.player == Player::Player2
            && self.touches(b));
        self.reflect_off_walls(field);
        self.resolve_hits(hit1, hit2, magnitude);
    }

    /// Bounces the ball off the walls and off the paddles `a` and `b`; a
    /// paddle hit gives the ball a random vertical speed between 1 and
    /// `BALL_INITIAL_Y_MAX`, in the direction it was moving.
    pub fn ball_collision(&mut self, a: &Paddle, b: &Paddle, field: Playfield)
        requires
            field.wf(),
            old(self).can_collide(),
        ensures
            exists|m: i64|
                0 < m <= BALL_INITIAL_Y_MAX && *final(self) == old(self).collided(*a, *b, field, m),
    {
        let magnitude = random_in(1, BALL_INITIAL_Y_MAX + 1);
        self.collide_with(a, b, field, magnitude);
    }
}

/// Reverses a horizontal velocity and makes it larger by a tenth.
pub fn bounce(v: i64) -> (r: i64)
    requires
        abs(v as int) <= 4 * SPEED_LIMIT,
    ensures
        r == bounced(v as int),
        v > 0 ==> r < 0,
        v < 0 ==> r > 0,
        abs(v as int) <= abs(r as int),
        abs(v as int) <= SPEED_LIMIT ==> abs(r as int) <= 2 * SPEED_LIMIT,
{
    if v >= 0 {
        -(v * BOUNCE_NUMERATOR / BOUNCE_DENOMINATOR)
    } else {
        (-v) * BOUNCE_NUMERATOR / BOUNCE_DENOMINATOR
    }
}

/// A ball that reaches a paddle no deeper than the paddle's front face
/// leaves the collision with its horizontal velocity reversed and made
/// larger by a tenth, pushed back out so that it overlaps that paddle no
/// more.
pub proof fn lemma_bounce_clears_paddle(
    ball: Ball,
    hit: Paddle,
    other: Paddle,
    field: Playfield,
    magnitude: i64,
)
    requires
        hit.player != other.player,
        ball.hits(hit),
        !ball.hits(other),
        abs(ball.position.x as int) <= i64::MAX - BALL_SCALE,
        abs(ball.velocity.x as int) <= SPEED_LIMIT,
        hit.player == Player::Player1 ==> ball.position.x - hit.position.x >= PADDLE_SCALE_X / 2,
        hit.player == Player::Player2 ==> hit.position.x - ball.position.x >= PADDLE_SCALE_X / 2,
    ensures
        ball.collided(hit, other, field, magnitude).velocity.x == bounced(ball.velocity.x as int),
        !ball.collided(hit, other, field, magnitude).hits(hit),
{
}

/// A paddle bounce draws a new vertical speed but keeps the vertical
/// direction in which the ball reached the paddle.
pub proof fn lemma_bounce_keeps_vertical_direction(
    ball: Ball,
    a: Paddle,
    b: Paddle,
    field: Playfield,
    magnitude: i64,
)
    requires
        0 < magnitude,
        ball.hit_by(a, b, Player::Player1) || ball.hit_by(a, b, Player::Player2),
    ensures
        ball.wall_reflected(field).velocity.y > 0 ==> ball.collided(a, b, field, magnitude).velocity.y
            == magnitude,
        ball.wall_reflected(field).velocity.y <= 0 ==> ball.collided(a, b, field, magnitude).velocity.y
            == -magnitude,
{
}

} // verus!
