use vstd::prelude::*;

use crate::ball::Ball;
use crate::field::Playfield;
use crate::paddle::Player;

verus! {

/// Points that win the game.
pub const VICTORY_SCORE: u32 = 2;

#[derive(Clone, Copy, Debug, PartialEq, Eq, Structural)]
pub struct Scoreboard {
    pub player1: u32,
    pub player2: u32,
}

/// What a tick tells the presentation: a point was scored, or a point was
/// scored that won the game.
#[derive(Clone, Copy, Debug, PartialEq, Eq, Structural)]
pub enum Event {
    Scored(Player),
    Won(Player),
}

/// The player who scores with the ball where it is: `Player1` once its
/// center is beyond the right edge, `Player2` once beyond the left edge.
pub open spec fn goal_of(ball: Ball, field: Playfield) -> Option<Player> {
    if ball.position.x > field.half_width() {
        Some(Player::Player1)
    } else if ball.position.x < -field.half_width() {
        Some(Player::Player2)
    } else {
        None
    }
}

/// Which player, if any, has scored with the ball where it is.
pub fn goal_scorer(ball: &Ball, field: Playfield) -> (r: Option<Player>)
    requires
        field.wf(),
    ensures
        r == goal_of(*ball, field),
{
    if ball.position.x > field.width / 2 {
        Some(Player::Player1)
    } else if ball.position.x < -(field.width / 2) {
        Some(Player::Player2)
    } else {
        None
    }
}

impl Scoreboard {
    pub fn new() -> (r: Scoreboard)
        ensures
            r.player1 == 0,
            r.player2 == 0,
    {
        Scoreboard { player1: 0, player2: 0 }
    }

    pub open spec fn zero() -> Scoreboard {
        Scoreboard { player1: 0, player2: 0 }
    }

    pub open spec fn points(self, player: Player) -> u32 {
        match player {
            Player::Player1 => self.player1,
            Player::Player2 => self.player2,
        }
    }

    pub open spec fn with_point(self, player: Player) -> Scoreboard {
        match player {
            Player::Player1 => Scoreboard { player1: (self.player1 + 1) as u32, ..self },
            Player::Player2 => Scoreboard { player2: (self.player2 + 1) as u32, ..self },
        }
    }

    /// The points of `player`.
    pub fn of(&self, player: Player) -> (r: u32)
        ensures
            r == self.points(player),
    {
        match player {
            Player::Player1 => self.player1,
            Player::Player2 => self.player2,
        }
    }

    /// Gives `player` one more point.
    pub fn add_point(&mut self, player: Player)
        requires
            old(self).points(player) < u32::MAX,
        ensures
            *final(self) == old(self).with_point(player),
            final(self).points(player) == old(self).points(player) + 1,
            final(self).points(player.opponent()) == old(self).points(player.opponent()),
    {
        match player {
            Player::Player1 => self.player1 = self.player1 + 1,
            Player::Player2 => self.player2 = self.player2 + 1,
        }
    }
}

} // verus!
