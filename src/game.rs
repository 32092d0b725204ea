use vstd::prelude::*;

use crate::ball::{
    Ball, BALL_INITIAL_X_MAX, BALL_INITIAL_X_MIN, BALL_INITIAL_Y_MAX, BALL_INITIAL_Y_MIN,
};
use crate::field::Playfield;
use crate::game_state::AppState;
use crate::geometry::{abs, Vec2};
use crate::paddle::{
    drive, max_height, paddle_x, steering, Control, Intent, Paddle, Player, PADDLE_SCALE_Y,
};
use crate::rng::random_in;
use crate::score::{goal_of, goal_scorer, Event, Scoreboard, VICTORY_SCORE};

verus! {

/// The values a tick may draw at random: the vertical speed after a paddle
/// bounce, and the serve velocity should a point be scored.
#[derive(Clone, Copy, Debug, PartialEq, Eq, Structural)]
pub struct Draws {
    pub bounce_y: i64,
    pub serve_x: i64,
    pub serve_y: i64,
}

/// A serve speed: horizontal from `BALL_INITIAL_X_MIN` up to
/// `BALL_INITIAL_X_MAX`, vertical from `BALL_INITIAL_Y_MIN` up to
/// `BALL_INITIAL_Y_MAX`, upper bounds excluded.
pub open spec fn valid_serve(speed_x: i64, speed_y: i64) -> bool {
    &&& BALL_INITIAL_X_MIN <= speed_x < BALL_INITIAL_X_MAX
    &&& BALL_INITIAL_Y_MIN <= speed_y < BALL_INITIAL_Y_MAX
}

/// The serve velocity: toward `Player2` when `Player1` serves, toward
/// `Player1` when `Player2` serves.
pub open spec fn serve_velocity(server: Player, speed_x: i64, speed_y: i64) -> Vec2 {
    Vec2 {
        x: match server {
            Player::Player1 => speed_x,
            Player::Player2 => (-speed_x) as i64,
        },
        y: speed_y,
    }
}

impl Draws {
    pub open spec fn valid(self) -> bool {
        &&& 0 < self.bounce_y <= BALL_INITIAL_Y_MAX
        &&& valid_serve(self.serve_x, self.serve_y)
    }

    /// Draws each value at random from its range.
    pub fn draw() -> (r: Draws)
        ensures
            r.valid(),
    {
        let bounce_y = random_in(1, BALL_INITIAL_Y_MAX + 1);
        let serve_x = random_in(BALL_INITIAL_X_MIN, BALL_INITIAL_X_MAX);
        let serve_y = random_in(BALL_INITIAL_Y_MIN, BALL_INITIAL_Y_MAX);
        Draws { bounce_y, serve_x, serve_y }
    }
}

/// The whole simulation: the field, the ball, both paddles, the score, the
/// player who serves next and the round's state.
#[derive(Clone, Copy, Debug, PartialEq, Eq, Structural)]
pub struct Game {
    pub field: Playfield,
    pub ball: Ball,
    pub paddle1: Paddle,
    pub paddle2: Paddle,
    pub scoreboard: Scoreboard,
    pub server: Player,
    pub state: AppState,
}

impl Game {
    /// The field is valid, both paddles are inside it, and until the game is
    /// over neither player has reached `VICTORY_SCORE`.
    pub open spec fn wf(self) -> bool {
        &&& self.field.wf()
        &&& self.field.height >= PADDLE_SCALE_Y ==> {
            &&& abs(self.paddle1.position.y as int) <= max_height(self.field)
            &&& abs(self.paddle2.position.y as int) <= max_height(self.field)
        }
        &&& self.state != AppState::Done ==> {
            &&& self.scoreboard.player1 < VICTORY_SCORE
            &&& self.scoreboard.player2 < VICTORY_SCORE
        }
    }

    /// The ball back at the center with the serve velocity of the current
    /// server.
    pub open spec fn served(self, speed_x: i64, speed_y: i64) -> Game {
        Game {
            ball: Ball {
                position: Vec2 { x: 0, y: 0 },
                velocity: serve_velocity(self.server, speed_x, speed_y),
            },
            ..self
        }
    }

    /// Entering `Start`: scores back to zero, and the ball served.
    pub open spec fn started(self, speed_x: i64, speed_y: i64) -> Game {
        Game { scoreboard: Scoreboard::zero(), ..self.served(speed_x, speed_y) }
    }

    /// Places the ball at the center with the serve velocity for the
    /// current server and the drawn speeds.
    pub fn enter_serve_state_with(&mut self, speed_x: i64, speed_y: i64)
        requires
            valid_serve(speed_x, speed_y),
        ensures
            *final(self) == old(self).served(speed_x, speed_y),
    {
        let vx: i64 = match self.server {
            Player::Player1 => speed_x,
            Player::Player2 => -speed_x,
        };
        self.ball.position = Vec2 { x: 0, y: 0 };
        self.ball.velocity = Vec2 { x: vx, y: speed_y };
    }

    /// Serves the ball from the center toward the receiving player, with
    /// speeds drawn at random.
    pub fn enter_serve_state(&mut self)
        ensures
            exists|sx: i64, sy: i64|
                valid_serve(sx, sy) && *final(self) == old(self).served(sx, sy),
    {
        let speed_x = random_in(BALL_INITIAL_X_MIN, BALL_INITIAL_X_MAX);
        let speed_y = random_in(BALL_INITIAL_Y_MIN, BALL_INITIAL_Y_MAX);
        self.enter_serve_state_with(speed_x, speed_y);
        assert(valid_serve(speed_x, speed_y) && *self == old(self).served(speed_x, speed_y));
    }

    /// Resets the scores and serves the ball with the drawn speeds.
    pub fn enter_start_state_with(&mut self, speed_x: i64, speed_y: i64)
        requires
            valid_serve(speed_x, speed_y),
        ensures
            *final(self) == old(self).started(speed_x, speed_y),
    {
        self.scoreboard = Scoreboard::new();
        self.enter_serve_state_with(speed_x, speed_y);
    }

    /// Resets the scores and serves the ball with speeds drawn at random.
    pub fn enter_start_state(&mut self)
        ensures
            exists|sx: i64, sy: i64|
                valid_serve(sx, sy) && *final(self) == old(self).started(sx, sy),
            final(self).scoreboard == Scoreboard::zero(),
            final(self).ball.position == (Vec2 { x: 0, y: 0 }),
            old(self).server == Player::Player1 ==> BALL_INITIAL_X_MIN <= final(self).ball.velocity.x
                < BALL_INITIAL_X_MAX,
            old(self).server == Player::Player2 ==> -BALL_INITIAL_X_MAX < final(self).ball.velocity.x
                <= -BALL_INITIAL_X_MIN,
    {
        let speed_x = random_in(BALL_INITIAL_X_MIN, BALL_INITIAL_X_MAX);
        let speed_y = random_in(BALL_INITIAL_Y_MIN, BALL_INITIAL_Y_MAX);
        self.enter_start_state_with(speed_x, speed_y);
    }
}

/// The serve sends the ball away from the server: rightward when `Player1`
/// serves, leftward when `Player2` does.
pub open spec fn serves_away_from(ball: Ball, server: Player) -> bool {
    match server {
        Player::Player1 => ball.velocity.x > 0,
        Player::Player2 => ball.velocity.x < 0,
    }
}

/// Where the ball is pushed when a point wins the game: one field width
/// further beyond the edge it crossed.
pub open spec fn shoved_off(ball: Ball, scorer: Player, field: Playfield) -> Ball {
    let x = match scorer {
        Player::Player1 => ball.position.x + field.width,
        Player::Player2 => ball.position.x - field.width,
    };
    Ball { position: Vec2 { x: x as i64, ..ball.position }, ..ball }
}

impl Game {
    /// A new game on `field` in `Start`: `Player1`'s paddle on the left
    /// under human control, `Player2`'s on the right under the computer's,
    /// `Player1` serving, scores at zero and the ball served with the given
    /// speeds.
    pub open spec fn initial(field: Playfield, speed_x: i64, speed_y: i64) -> Game {
        Game {
            field,
            ball: Ball {
                position: Vec2 { x: 0, y: 0 },
                velocity: serve_velocity(Player::Player1, speed_x, speed_y),
            },
            paddle1: Paddle {
                player: Player::Player1,
                control: Control::Human,
                position: Vec2 { x: paddle_x(Player::Player1, field) as i64, y: 0 },
            },
            paddle2: Paddle {
                player: Player::Player2,
                control: Control::Computer,
                position: Vec2 { x: paddle_x(Player::Player2, field) as i64, y: 0 },
            },
            scoreboard: Scoreboard::zero(),
            server: Player::Player1,
            state: AppState::Start,
        }
    }

    pub fn new_with(field: Playfield, speed_x: i64, speed_y: i64) -> (r: Game)
        requires
            field.wf(),
            valid_serve(speed_x, speed_y),
        ensures
            r == Game::initial(field, speed_x, speed_y),
            r.wf(),
    {
        let mut game = Game {
            field,
            ball: Ball::new(),
            paddle1: Paddle::new(Player::Player1, Control::Human, field),
            paddle2: Paddle::new(Player::Player2, Control::Computer, field),
            scoreboard: Scoreboard::new(),
            server: Player::Player1,
            state: AppState::Start,
        };
        game.enter_start_state_with(speed_x, speed_y);
        game
    }

    /// A new game on `field`, in `Start`, with a serve drawn at random.
    pub fn new(field: Playfield) -> (r: Game)
        requires
            field.wf(),
        ensures
            exists|sx: i64, sy: i64| valid_serve(sx, sy) && r == Game::initial(field, sx, sy),
            r.wf(),
    {
        let speed_x = random_in(BALL_INITIAL_X_MIN, BALL_INITIAL_X_MAX);
        let speed_y = random_in(BALL_INITIAL_Y_MIN, BALL_INITIAL_Y_MAX);
        let game = Game::new_with(field, speed_x, speed_y);
        assert(valid_serve(speed_x, speed_y) && game == Game::initial(field, speed_x, speed_y));
        game
    }

    /// The game after the advance trigger: from `Start` to `Serve`, which
    /// serves the ball with the given speeds; from `Serve` to `Play`; no
    /// change in `Play` or `Done`.
    pub open spec fn confirmed(self, speed_x: i64, speed_y: i64) -> Game {
        match self.state {
            AppState::Start => Game { state: AppState::Serve, ..self.served(speed_x, speed_y) },
            AppState::Serve => Game { state: AppState::Play, ..self },
            _ => self,
        }
    }

    pub fn change_state_with(&mut self, speed_x: i64, speed_y: i64)
        requires
            old(self).wf(),
            valid_serve(speed_x, speed_y),
        ensures
            *final(self) == old(self).confirmed(speed_x, speed_y),
            final(self).state == old(self).state.confirmed(),
            final(self).wf(),
    {
        let next = self.state.after_confirm();
        if next != self.state {
            if next == AppState::Serve {
                self.enter_serve_state_with(speed_x, speed_y);
            }
            self.state = next;
        }
    }

    /// Handles the advance trigger (the enter key); a serve it causes is
    /// drawn at random.
    pub fn change_state_using_enter_key(&mut self)
        requires
            old(self).wf(),
        ensures
            exists|sx: i64, sy: i64|
                valid_serve(sx, sy) && *final(self) == old(self).confirmed(sx, sy),
            final(self).state == old(self).state.confirmed(),
            final(self).wf(),
    {
        let speed_x = random_in(BALL_INITIAL_X_MIN, BALL_INITIAL_X_MAX);
        let speed_y = random_in(BALL_INITIAL_Y_MIN, BALL_INITIAL_Y_MAX);
        self.change_state_with(speed_x, speed_y);
        assert(valid_serve(speed_x, speed_y) && *self == old(self).confirmed(speed_x, speed_y));
    }

    /// The game after a full reset: back in `Start`, scores at zero, the
    /// ball served with the given speeds.
    pub open spec fn restarted(self, speed_x: i64, speed_y: i64) -> Game {
        Game { state: AppState::Start, ..self.started(speed_x, speed_y) }
    }

    pub fn restart_with(&mut self, speed_x: i64, speed_y: i64)
        requires
            old(self).wf(),
            valid_serve(speed_x, speed_y),
        ensures
            *final(self) == old(self).restarted(speed_x, speed_y),
            final(self).wf(),
    {
        self.state = AppState::Start;
        self.enter_start_state_with(speed_x, speed_y);
    }

    /// Starts the game over, with a serve drawn at random.
    pub fn restart(&mut self)
        requires
            old(self).wf(),
        ensures
            exists|sx: i64, sy: i64|
                valid_serve(sx, sy) && *final(self) == old(self).restarted(sx, sy),
            final(self).wf(),
    {
        let speed_x = random_in(BALL_INITIAL_X_MIN, BALL_INITIAL_X_MAX);
        let speed_y = random_in(BALL_INITIAL_Y_MIN, BALL_INITIAL_Y_MAX);
        self.restart_with(speed_x, speed_y);
        assert(valid_serve(speed_x, speed_y) && *self == old(self).restarted(speed_x, speed_y));
    }

    /// The game after `scorer` scores: one more point, the other player
    /// serves next; at `VICTORY_SCORE` the game is `Done` and the ball is
    /// pushed off the field, else the round goes to `Serve` with the given
    /// serve speeds.
    pub open spec fn goal_scored(self, scorer: Player, speed_x: i64, speed_y: i64) -> (Game, Event) {
        let board = self.scoreboard.with_point(scorer);
        let after = Game { scoreboard: board, server: scorer.opponent(), ..self };
        if board.points(scorer) >= VICTORY_SCORE {
            (
                Game { state: AppState::Done, ball: shoved_off(self.ball, scorer, self.field), ..after },
                Event::Won(scorer),
            )
        } else {
            (Game { state: AppState::Serve, ..after.served(speed_x, speed_y) }, Event::Scored(scorer))
        }
    }

    /// The game after looking for a goal.
    pub open spec fn goal_checked(self, speed_x: i64, speed_y: i64) -> (Game, Option<Event>) {
        match goal_of(self.ball, self.field) {
            Some(scorer) => {
                let (after, event) = self.goal_scored(scorer, speed_x, speed_y);
                (after, Some(event))
            },
            None => (self, None),
        }
    }

    /// Looks for a goal and scores it; a `Serve` that follows uses the
    /// given speeds.
    pub fn scored(&mut self, speed_x: i64, speed_y: i64) -> (r: Option<Event>)
        requires
            old(self).wf(),
            old(self).state == AppState::Play,
            valid_serve(speed_x, speed_y),
            abs(old(self).ball.position.x as int) + old(self).field.width <= i64::MAX,
        ensures
            (*final(self), r) == old(self).goal_checked(speed_x, speed_y),
            final(self).wf(),
    {
        match goal_scorer(&self.ball, self.field) {
            Some(scorer) => {
                self.scoreboard.add_point(scorer);
                self.server = scorer.other();
                if self.scoreboard.of(scorer) >= VICTORY_SCORE {
                    match scorer {
                        Player::Player1 => self.ball.position.x = self.ball.position.x + self.field.width,
                        Player::Player2 => self.ball.position.x = self.ball.position.x - self.field.width,
                    }
                    self.state = AppState::Done;
                    Some(Event::Won(scorer))
                } else {
                    self.state = AppState::Serve;
                    self.enter_serve_state_with(speed_x, speed_y);
                    Some(Event::Scored(scorer))
                }
            },
            None => None,
        }
    }

    /// Both paddles after moving for `dt` microseconds: each by its control,
    /// the computer's toward the ball.
    pub open spec fn paddles_moved(self, dt: int, intent1: Intent, intent2: Intent) -> Game {
        let ball_y = self.ball.position.y as int;
        Game {
            paddle1: self.paddle1.moved(steering(self.paddle1, intent1, ball_y), dt, self.field),
            paddle2: self.paddle2.moved(steering(self.paddle2, intent2, ball_y), dt, self.field),
            ..self
        }
    }

    /// The ball after flying for `dt` microseconds and bouncing off walls
    /// and paddles.
    pub open spec fn flown(self, dt: int, magnitude: i64) -> Game {
        Game {
            ball: self.ball.moved(dt).collided(self.paddle1, self.paddle2, self.field, magnitude),
            ..self
        }
    }

    /// One tick of `dt` microseconds: the paddles move; in `Play` the ball
    /// flies and bounces, and then a goal is looked for.
    pub open spec fn advanced(self, dt: int, intent1: Intent, intent2: Intent, draws: Draws) -> (
        Game,
        Option<Event>,
    ) {
        let moved = self.paddles_moved(dt, intent1, intent2);
        if moved.state == AppState::Play {
            moved.flown(dt, draws.bounce_y).goal_checked(draws.serve_x, draws.serve_y)
        } else {
            (moved, None)
        }
    }

    /// Runs one tick of `dt` microseconds with the players' intents and
    /// the given draws, and reports a point or a win.
    pub fn advance_with(&mut self, dt: u32, intent1: Intent, intent2: Intent, draws: Draws) -> (r:
        Option<Event>)
        requires
            old(self).wf(),
            draws.valid(),
            old(self).state == AppState::Play ==> old(self).ball.in_bounds(),
        ensures
            (*final(self), r) == old(self).advanced(dt as int, intent1, intent2, draws),
            final(self).wf(),
            old(self).state != AppState::Play ==> final(self).ball == old(self).ball && r.is_none(),
            old(self).scoreboard.player1 <= final(self).scoreboard.player1,
            old(self).scoreboard.player2 <= final(self).scoreboard.player2,
    {
        let ball_y = self.ball.position.y;
        drive(&mut self.paddle1, intent1, ball_y, dt, self.field);
        drive(&mut self.paddle2, intent2, ball_y, dt, self.field);
        if self.state == AppState::Play {
            proof {
                self.ball.lemma_move_in_bounds(dt);
            }
            self.ball.ball_movement(dt);
            self.ball.collide_with(&self.paddle1, &self.paddle2, self.field, draws.bounce_y);
            self.scored(draws.serve_x, draws.serve_y)
        } else {
            None
        }
    }

    /// Runs one tick of `dt` microseconds with the players' intents; what
    /// the tick needs at random is drawn.
    pub fn advance(&mut self, dt: u32, intent1: Intent, intent2: Intent) -> (r: Option<Event>)
        requires
            old(self).wf(),
            old(self).state == AppState::Play ==> old(self).ball.in_bounds(),
        ensures
            exists|d: Draws|
                d.valid() && (*final(self), r) == old(self).advanced(dt as int, intent1, intent2, d),
            final(self).wf(),
            old(self).state != AppState::Play ==> final(self).ball == old(self).ball && r.is_none(),
            old(self).scoreboard.player1 <= final(self).scoreboard.player1,
            old(self).scoreboard.player2 <= final(self).scoreboard.player2,
    {
        let draws = Draws::draw();
        let r = self.advance_with(dt, intent1, intent2, draws);
        assert(draws.valid() && (*self, r) == old(self).advanced(dt as int, intent1, intent2, draws));
        r
    }
}

/// Entering `Start` twice in a row leaves the scores at zero each time,
/// serves each time away from the current server, and ends as entering
/// once with the second serve.
pub proof fn lemma_start_entry_idempotent(
    game: Game,
    speed_x1: i64,
    speed_y1: i64,
    speed_x2: i64,
    speed_y2: i64,
)
    requires
        valid_serve(speed_x1, speed_y1),
        valid_serve(speed_x2, speed_y2),
    ensures
        game.started(speed_x1, speed_y1).scoreboard == Scoreboard::zero(),
        game.started(speed_x1, speed_y1).started(speed_x2, speed_y2).scoreboard == Scoreboard::zero(),
        serves_away_from(game.started(speed_x1, speed_y1).ball, game.server),
        serves_away_from(game.started(speed_x1, speed_y1).started(speed_x2, speed_y2).ball, game.server),
        game.started(speed_x1, speed_y1).started(speed_x2, speed_y2) == game.started(speed_x2, speed_y2),
{
}

/// Outside `Play` the ball physics does not run: a tick leaves the ball as
/// it was and raises no event.
pub proof fn lemma_ball_waits_outside_play(
    game: Game,
    dt: int,
    intent1: Intent,
    intent2: Intent,
    draws: Draws,
)
    requires
        game.state != AppState::Play,
    ensures
        game.advanced(dt, intent1, intent2, draws).0.ball == game.ball,
        game.advanced(dt, intent1, intent2, draws).1.is_none(),
{
}

} // verus!
