use pong::{
    bounce, clamp_to_field, direction_of, displacement, drive, goal_scorer, overlaps,
    paddle_ai_movement, paddle_movement, pursuit, AppState, Ball, Control, Draws, Event, Game,
    Intent, Paddle, Player, Playfield, Scoreboard, Vec2, BALL_INITIAL_X_MAX, BALL_INITIAL_X_MIN,
    BALL_INITIAL_Y_MAX, BALL_INITIAL_Y_MIN, FIELD_LIMIT, VICTORY_SCORE,
};

fn window() -> Playfield {
    Playfield::new(1_080_000, 720_000).unwrap()
}

fn playing_game() -> Game {
    let mut game = Game::new_with(window(), 150_000, 10_000);
    game.change_state_with(150_000, 10_000);
    game.change_state_with(150_000, 10_000);
    assert_eq!(game.state, AppState::Play);
    game
}

fn draws() -> Draws {
    Draws { bounce_y: 30_000, serve_x: 160_000, serve_y: -20_000 }
}

#[test]
fn goal_on_the_right_scores_for_player1_and_serves() {
    let mut game = playing_game();
    assert_eq!(game.scoreboard, Scoreboard { player1: 0, player2: 0 });
    assert_eq!(game.server, Player::Player1);
    game.ball.position.x = 540_000 + 1_000;
    let event = game.advance_with(0, Intent::Neutral, Intent::Neutral, draws());
    assert_eq!(event, Some(Event::Scored(Player::Player1)));
    assert_eq!(game.scoreboard.player1, 1);
    assert_eq!(game.scoreboard.player2, 0);
    assert_eq!(game.server, Player::Player2);
    assert_eq!(game.state, AppState::Serve);
    assert_eq!(game.ball.position, Vec2::new(0, 0));
    assert_eq!(game.ball.velocity, Vec2::new(-160_000, -20_000));
}

#[test]
fn winning_goal_ends_the_game_and_pushes_the_ball_away() {
    let mut game = playing_game();
    game.scoreboard.player1 = VICTORY_SCORE - 1;
    game.ball.position.x = 540_000 + 1_000;
    let event = game.advance_with(0, Intent::Neutral, Intent::Neutral, draws());
    assert_eq!(event, Some(Event::Won(Player::Player1)));
    assert_eq!(game.state, AppState::Done);
    assert_eq!(game.scoreboard.player1, VICTORY_SCORE);
    assert_eq!(game.ball.position.x, 541_000 + 1_080_000);
    assert_eq!(game.server, Player::Player2);
}

#[test]
fn goal_on_the_left_scores_for_player2() {
    let mut game = playing_game();
    game.ball.position.x = -541_000;
    let event = game.advance_with(0, Intent::Neutral, Intent::Neutral, draws());
    assert_eq!(event, Some(Event::Scored(Player::Player2)));
    assert_eq!(game.scoreboard, Scoreboard { player1: 0, player2: 1 });
    assert_eq!(game.server, Player::Player1);
    assert_eq!(game.state, AppState::Serve);
    assert_eq!(game.ball.velocity.x, 160_000);
}

#[test]
fn winning_goal_on_the_left_pushes_the_ball_left() {
    let mut game = playing_game();
    game.scoreboard.player2 = VICTORY_SCORE - 1;
    game.ball.position.x = -541_000;
    let event = game.advance_with(0, Intent::Neutral, Intent::Neutral, draws());
    assert_eq!(event, Some(Event::Won(Player::Player2)));
    assert_eq!(game.state, AppState::Done);
    assert_eq!(game.ball.position.x, -541_000 - 1_080_000);
}

#[test]
fn ball_exactly_on_the_edge_is_no_goal() {
    let mut game = playing_game();
    game.ball.position.x = 540_000;
    let event = game.advance_with(0, Intent::Neutral, Intent::Neutral, draws());
    assert_eq!(event, None);
    assert_eq!(game.state, AppState::Play);
    assert_eq!(goal_scorer(&game.ball, game.field), None);
}

#[test]
fn ai_paddle_moves_toward_the_ball() {
    let field = window();
    let mut paddle = Paddle::new(Player::Player2, Control::Computer, field);
    paddle_ai_movement(&mut paddle, 100_000, 100_000, field);
    assert_eq!(paddle.position.y, 50_000);
}

#[test]
fn ai_paddle_rests_within_its_dead_zone() {
    let field = window();
    let mut paddle = Paddle::new(Player::Player2, Control::Computer, field);
    paddle_ai_movement(&mut paddle, 25_000, 100_000, field);
    assert_eq!(paddle.position.y, 0);
    assert_eq!(pursuit(0, 25_001), 1);
    assert_eq!(pursuit(0, -25_001), -1);
    assert_eq!(pursuit(0, -25_000), 0);
}

#[test]
fn ai_paddle_is_clamped_at_the_top() {
    let field = window();
    let mut paddle = Paddle::new(Player::Player2, Control::Computer, field);
    paddle.position.y = 300_000;
    paddle_ai_movement(&mut paddle, 360_000, 100_000, field);
    assert_eq!(paddle.position.y, 310_000);
}

#[test]
fn paddle_stays_inside_the_field() {
    let field = window();
    assert_eq!(clamp_to_field(10_000_000, field), 310_000);
    assert_eq!(clamp_to_field(-10_000_000, field), -310_000);
    assert_eq!(clamp_to_field(123, field), 123);
    let mut paddle = Paddle::new(Player::Player1, Control::Human, field);
    for _ in 0..20 {
        paddle_movement(&mut paddle, Intent::Up, 100_000, field);
        assert!(paddle.position.y <= 310_000);
    }
    assert_eq!(paddle.position.y, 310_000);
    for _ in 0..40 {
        paddle_movement(&mut paddle, Intent::Down, 100_000, field);
        assert!(paddle.position.y >= -310_000);
    }
    assert_eq!(paddle.position.y, -310_000);
}

#[test]
fn human_paddle_follows_intent() {
    let field = window();
    assert_eq!(direction_of(Intent::Up), 1);
    assert_eq!(direction_of(Intent::Down), -1);
    assert_eq!(direction_of(Intent::Neutral), 0);
    let mut paddle = Paddle::new(Player::Player1, Control::Human, field);
    paddle_movement(&mut paddle, Intent::Down, 16_667, field);
    assert_eq!(paddle.position.y, -8_333);
    drive(&mut paddle, Intent::Neutral, 300_000, 16_667, field);
    assert_eq!(paddle.position.y, -8_333);
}

#[test]
fn paddles_start_at_their_sides() {
    let field = window();
    let left = Paddle::new(Player::Player1, Control::Human, field);
    let right = Paddle::new(Player::Player2, Control::Computer, field);
    assert_eq!(left.position, Vec2::new(-520_000, 0));
    assert_eq!(right.position, Vec2::new(520_000, 0));
}

#[test]
fn ball_waits_outside_play() {
    let mut game = Game::new_with(window(), 150_000, 10_000);
    let before = game.ball;
    assert_eq!(game.advance_with(500_000, Intent::Up, Intent::Neutral, draws()), None);
    assert_eq!(game.ball, before);
    game.change_state_with(170_000, 0);
    assert_eq!(game.state, AppState::Serve);
    let serving = game.ball;
    assert_eq!(game.advance(500_000, Intent::Down, Intent::Neutral), None);
    assert_eq!(game.ball, serving);
}

#[test]
fn ball_flies_in_play() {
    let mut game = playing_game();
    let event = game.advance_with(100_000, Intent::Neutral, Intent::Neutral, draws());
    assert_eq!(event, None);
    assert_eq!(game.ball.position, Vec2::new(15_000, 1_000));
    assert_eq!(game.ball.velocity, Vec2::new(150_000, 10_000));
}

#[test]
fn paddle_bounce_reverses_speeds_up_and_clears_the_paddle() {
    let field = window();
    let left = Paddle::new(Player::Player1, Control::Human, field);
    let right = Paddle::new(Player::Player2, Control::Computer, field);
    let mut ball = Ball {
        position: Vec2::new(-520_000 + 12_000, 5_000),
        velocity: Vec2::new(-200_000, 30_000),
    };
    assert!(ball.touches(&left));
    ball.collide_with(&left, &right, field, 40_000);
    assert_eq!(ball.velocity.x, 220_000);
    assert_eq!(ball.position.x, -520_000 + 19_500);
    assert!(!ball.touches(&left));
    assert_eq!(ball.velocity.y, 40_000);
}

#[test]
fn paddle_bounce_keeps_vertical_direction() {
    let field = window();
    let left = Paddle::new(Player::Player1, Control::Human, field);
    let right = Paddle::new(Player::Player2, Control::Computer, field);
    for start_y in [30_000i64, -30_000] {
        let mut ball = Ball {
            position: Vec2::new(520_000 - 15_000, 0),
            velocity: Vec2::new(180_000, start_y),
        };
        ball.ball_collision(&left, &right, field);
        assert_eq!(ball.velocity.x, -198_000);
        assert_eq!(ball.position.x, 520_000 - 22_500);
        assert!(ball.velocity.y.signum() == start_y.signum());
        assert!(ball.velocity.y.abs() >= 1 && ball.velocity.y.abs() <= BALL_INITIAL_Y_MAX);
    }
}

#[test]
fn ball_hitting_both_paddles_gets_both_corrections() {
    let field = Playfield::new(40_000, 720_000).unwrap();
    let left = Paddle::new(Player::Player1, Control::Human, field);
    let right = Paddle::new(Player::Player2, Control::Computer, field);
    let mut ball = Ball { position: Vec2::new(0, 0), velocity: Vec2::new(100_000, -5) };
    assert!(ball.touches(&left) && ball.touches(&right));
    ball.collide_with(&left, &right, field, 7);
    assert_eq!(ball.velocity.x, 121_000);
    assert_eq!(ball.position.x, 0);
    assert_eq!(ball.velocity.y, -7);
}

#[test]
fn ball_turns_at_the_walls() {
    let field = window();
    let mut ball = Ball { position: Vec2::new(0, 352_501), velocity: Vec2::new(10, 40_000) };
    ball.reflect_off_walls(field);
    assert_eq!(ball.velocity.y, -40_000);
    let mut ball = Ball { position: Vec2::new(0, -352_501), velocity: Vec2::new(10, -40_000) };
    ball.reflect_off_walls(field);
    assert_eq!(ball.velocity.y, 40_000);
    let mut ball = Ball { position: Vec2::new(0, 352_500), velocity: Vec2::new(10, 40_000) };
    ball.reflect_off_walls(field);
    assert_eq!(ball.velocity.y, 40_000);
}

#[test]
fn bounce_scales_by_eleven_tenths() {
    assert_eq!(bounce(100), -110);
    assert_eq!(bounce(-200_000), 220_000);
    assert_eq!(bounce(-15), 16);
    assert_eq!(bounce(7), -7);
    assert_eq!(bounce(0), 0);
}

#[test]
fn displacement_rounds_toward_zero() {
    assert_eq!(displacement(500_000, 100_000), 50_000);
    assert_eq!(displacement(-7, 1), 0);
    assert_eq!(displacement(-1_000_000, 1), -1);
    assert_eq!(displacement(150_000, 16_667), 2_500);
    assert_eq!(displacement(-150_000, 16_667), -2_500);
    assert_eq!(displacement(i64::MIN, u32::MAX), -((1i128 << 63) * u32::MAX as i128 / 1_000_000));
}

#[test]
fn boxes_that_only_touch_do_not_overlap() {
    let half = Vec2::new(5, 5);
    assert!(overlaps(Vec2::new(0, 0), half, Vec2::new(9, 9), half));
    assert!(!overlaps(Vec2::new(0, 0), half, Vec2::new(10, 0), half));
    assert!(!overlaps(Vec2::new(0, 0), half, Vec2::new(0, -10), half));
    assert!(overlaps(Vec2::new(i64::MIN, 0), Vec2::new(i64::MAX, 1), Vec2::new(-1, 0), half));
}

#[test]
fn playfield_rejects_bad_sizes() {
    assert!(Playfield::new(0, 720_000).is_none());
    assert!(Playfield::new(1_080_000, -1).is_none());
    assert!(Playfield::new(FIELD_LIMIT + 1, 720_000).is_none());
    assert_eq!(Playfield::new(FIELD_LIMIT, 1).unwrap().width, FIELD_LIMIT);
}

#[test]
fn start_entry_twice_resets_scores_and_serves_from_the_server() {
    let mut game = playing_game();
    game.scoreboard = Scoreboard { player1: 1, player2: 1 };
    game.server = Player::Player2;
    for _ in 0..2 {
        game.enter_start_state();
        assert_eq!(game.scoreboard, Scoreboard { player1: 0, player2: 0 });
        assert_eq!(game.ball.position, Vec2::new(0, 0));
        assert!(game.ball.velocity.x < 0);
        assert!(-game.ball.velocity.x >= BALL_INITIAL_X_MIN && -game.ball.velocity.x < BALL_INITIAL_X_MAX);
        assert!(game.ball.velocity.y >= BALL_INITIAL_Y_MIN && game.ball.velocity.y < BALL_INITIAL_Y_MAX);
    }
    game.enter_start_state_with(199_999, -50_000);
    game.enter_start_state_with(140_000, 49_999);
    assert_eq!(game.ball.velocity, Vec2::new(-140_000, 49_999));
}

#[test]
fn random_serve_lies_in_range() {
    let mut game = Game::new(window());
    assert_eq!(game.state, AppState::Start);
    assert_eq!(game.server, Player::Player1);
    for _ in 0..50 {
        game.enter_serve_state();
        assert_eq!(game.ball.position, Vec2::new(0, 0));
        assert!(game.ball.velocity.x >= BALL_INITIAL_X_MIN && game.ball.velocity.x < BALL_INITIAL_X_MAX);
        assert!(game.ball.velocity.y >= BALL_INITIAL_Y_MIN && game.ball.velocity.y < BALL_INITIAL_Y_MAX);
    }
}

#[test]
fn enter_key_walks_the_states() {
    assert_eq!(AppState::Start.after_confirm(), AppState::Serve);
    assert_eq!(AppState::Serve.after_confirm(), AppState::Play);
    assert_eq!(AppState::Play.after_confirm(), AppState::Play);
    assert_eq!(AppState::Done.after_confirm(), AppState::Done);
    let mut game = Game::new(window());
    game.change_state_using_enter_key();
    assert_eq!(game.state, AppState::Serve);
    game.change_state_using_enter_key();
    assert_eq!(game.state, AppState::Play);
    game.change_state_using_enter_key();
    assert_eq!(game.state, AppState::Play);
}

#[test]
fn restart_leaves_done() {
    let mut game = playing_game();
    game.scoreboard.player1 = VICTORY_SCORE - 1;
    game.ball.position.x = 600_000;
    game.advance(0, Intent::Neutral, Intent::Neutral);
    assert_eq!(game.state, AppState::Done);
    game.change_state_using_enter_key();
    assert_eq!(game.state, AppState::Done);
    game.restart_with(145_000, 3);
    assert_eq!(game.state, AppState::Start);
    assert_eq!(game.scoreboard, Scoreboard::new());
    assert_eq!(game.ball.position, Vec2::new(0, 0));
    assert_eq!(game.ball.velocity, Vec2::new(-145_000, 3));
    game.restart();
    assert_eq!(game.state, AppState::Start);
}

#[test]
fn scoreboard_counts_points() {
    let mut board = Scoreboard::new();
    board.add_point(Player::Player2);
    board.add_point(Player::Player2);
    board.add_point(Player::Player1);
    assert_eq!(board.of(Player::Player1), 1);
    assert_eq!(board.of(Player::Player2), 2);
    assert_eq!(Player::Player1.other(), Player::Player2);
}

#[test]
fn ball_bounds_are_checked() {
    let mut ball = Ball::new();
    assert!(ball.is_in_bounds());
    ball.velocity.x = i64::MAX;
    assert!(!ball.is_in_bounds());
}
