use break_the_blocks::gameplay::{
    ball_boundary_system, ball_collision_system, ball_movement_system, initial_pause_check,
    paddle_movement_system, setup_ball_and_paddle, Ball, Body, BrandNewLevel, Collider, Input,
    LifeEvent, Paddle, Score, BALL_X_LIMIT, BALL_Y_LIMIT, PADDLE_LIMIT, PADDLE_START_Y,
};
use break_the_blocks::geometry::{Vec2, SCREEN_WIDTH};
use break_the_blocks::state::{GameState, StateStack};

fn v(x: i64, y: i64) -> Vec2 {
    Vec2::new(x, y)
}

fn ball_at(x: i64, y: i64, vx: i64, vy: i64) -> Ball {
    Ball { position: v(x, y), velocity: v(vx, vy), size: v(30_000, 30_000) }
}

fn brick(id: u64, x: i64, y: i64) -> Body {
    Body { id, position: v(x, y), collider: Collider::Scorable { size: v(100_000, 40_000) }, sprite: 2 }
}

const NO_INPUT: Input = Input { left: false, right: false, pause: false };

#[test]
fn score_starts_with_three_lives() {
    let s = Score::new();
    assert_eq!(s.points, 0);
    assert_eq!(s.bricks_left, 0);
    assert_eq!(s.lives, 3);
    assert_eq!(s.current_level, 0);
}

#[test]
fn collider_size_of_each_kind() {
    assert_eq!(Collider::Scorable { size: v(4, 5) }.get_size(), v(4, 5));
    assert_eq!(Collider::Paddle { size: v(6, 7) }.get_size(), v(6, 7));
}

#[test]
fn add_points_adds() {
    let mut s = Score::new();
    s.add_points(5);
    assert_eq!(s.points, 5);
}

#[test]
fn brick_destroyed_counts_down_to_cleared() {
    let mut s = Score::new();
    s.bricks_left = 2;
    assert!(!s.brick_destroyed());
    assert_eq!((s.points, s.bricks_left), (1, 1));
    assert!(s.brick_destroyed());
    assert_eq!((s.points, s.bricks_left), (2, 0));
    assert!(!s.brick_destroyed());
    assert_eq!((s.points, s.bricks_left), (3, 0));
}

#[test]
fn lose_life_lost_then_exhausted() {
    let mut s = Score::new();
    assert_eq!(s.lose_life(), LifeEvent::Lost);
    assert_eq!(s.lives, 2);
    assert_eq!(s.lose_life(), LifeEvent::Lost);
    assert_eq!(s.lose_life(), LifeEvent::Exhausted);
    assert_eq!(s.lives, 0);
}

#[test]
fn lives_go_down_by_one_per_loss() {
    let mut s = Score::new();
    let mut before = s.lives;
    loop {
        let ev = s.lose_life();
        assert_eq!(s.lives, before - 1);
        before = s.lives;
        if ev == LifeEvent::Exhausted {
            break;
        }
    }
    assert_eq!(s.lives, 0);
}

#[test]
fn start_positions() {
    let (ball, paddle) = setup_ball_and_paddle();
    assert_eq!(ball.position, v(0, -250_000));
    assert_eq!(ball.velocity, v(283, 283));
    assert_eq!(ball.size, v(30_000, 30_000));
    assert_eq!(paddle.position, v(0, PADDLE_START_Y));
    assert_eq!(paddle.position.y, -340_000);
    assert_eq!(paddle.speed, 500);
}

#[test]
fn initial_pause_check_pushes_once() {
    let mut st = StateStack::new(GameState::Level);
    let mut fresh = BrandNewLevel(true);
    initial_pause_check(&mut st, &mut fresh);
    assert_eq!(st.current(), GameState::PauseMenu);
    assert_eq!(fresh, BrandNewLevel(false));
    assert_eq!(st.pop(), Ok(GameState::PauseMenu));
    initial_pause_check(&mut st, &mut fresh);
    assert_eq!(st.current(), GameState::Level);
    assert_eq!(st.depth(), 1);
}

#[test]
fn ball_does_not_move_in_zero_time() {
    let mut b = ball_at(1_000, -2_000, 283, -100);
    ball_movement_system(&mut b, 0);
    assert_eq!(b, ball_at(1_000, -2_000, 283, -100));
}

#[test]
fn ball_moves_by_velocity_times_delta() {
    let mut b = ball_at(1_000, -2_000, 283, -100);
    ball_movement_system(&mut b, 16);
    assert_eq!(b.position, v(1_000 + 283 * 16, -2_000 - 1_600));
    assert_eq!(b.velocity, v(283, -100));
}

#[test]
fn paddle_moves_with_input() {
    let mut st = StateStack::new(GameState::Level);
    let mut p = Paddle { position: v(0, PADDLE_START_Y), speed: 500 };
    paddle_movement_system(&mut p, Input { left: false, right: true, pause: false }, &mut st, 10);
    assert_eq!(p.position.x, 5_000);
    paddle_movement_system(&mut p, Input { left: true, right: false, pause: false }, &mut st, 4);
    assert_eq!(p.position.x, 3_000);
    paddle_movement_system(&mut p, Input { left: true, right: true, pause: false }, &mut st, 4);
    assert_eq!(p.position.x, 3_000);
    paddle_movement_system(&mut p, NO_INPUT, &mut st, 4);
    assert_eq!(p.position, v(3_000, PADDLE_START_Y));
    assert_eq!(st.depth(), 1);
}

#[test]
fn pause_key_pauses_and_paddle_still_moves() {
    let mut st = StateStack::new(GameState::Level);
    let mut p = Paddle { position: v(0, PADDLE_START_Y), speed: 500 };
    paddle_movement_system(&mut p, Input { left: true, right: false, pause: true }, &mut st, 10);
    assert_eq!(p.position.x, -5_000);
    assert_eq!(st.current(), GameState::PauseMenu);
    assert_eq!(st.depth(), 2);
}

#[test]
fn paddle_at_left_wall_stays_clamped() {
    let limit = (SCREEN_WIDTH - 162_000) / 2;
    assert_eq!(limit, PADDLE_LIMIT);
    let mut st = StateStack::new(GameState::Level);
    let mut p = Paddle { position: v(-limit, PADDLE_START_Y), speed: 500 };
    paddle_movement_system(&mut p, Input { left: true, right: false, pause: false }, &mut st, 16);
    assert_eq!(p.position.x, -limit);
}

#[test]
fn paddle_at_right_wall_stays_clamped() {
    let mut st = StateStack::new(GameState::Level);
    let mut p = Paddle { position: v(PADDLE_LIMIT - 100, PADDLE_START_Y), speed: 500 };
    paddle_movement_system(&mut p, Input { left: false, right: true, pause: false }, &mut st, 16);
    assert_eq!(p.position.x, PADDLE_LIMIT);
}

fn boundary(b: &mut Ball, lives: i32) -> (Option<LifeEvent>, StateStack, Score) {
    let mut st = StateStack::new(GameState::Level);
    let mut score = Score::new();
    score.lives = lives;
    let r = ball_boundary_system(b, &mut st, &mut score);
    (r, st, score)
}

#[test]
fn ball_past_right_wall_is_clamped_and_reversed() {
    let mut b = ball_at(SCREEN_WIDTH / 2 + 1, 0, 283, 283);
    let (r, st, score) = boundary(&mut b, 3);
    assert_eq!(r, None);
    assert_eq!(b.position, v(BALL_X_LIMIT, 0));
    assert_eq!(BALL_X_LIMIT, 535_000);
    assert_eq!(b.velocity, v(-283, 283));
    assert_eq!(score.lives, 3);
    assert_eq!(st.current(), GameState::Level);
}

#[test]
fn ball_past_left_wall_is_clamped_and_reversed() {
    let mut b = ball_at(-BALL_X_LIMIT - 5, 0, -283, 283);
    assert_eq!(boundary(&mut b, 3).0, None);
    assert_eq!(b.position, v(-BALL_X_LIMIT, 0));
    assert_eq!(b.velocity, v(283, 283));
}

#[test]
fn ball_above_top_is_clamped_and_reversed() {
    let mut b = ball_at(0, BALL_Y_LIMIT + 7, 283, 283);
    assert_eq!(boundary(&mut b, 3).0, None);
    assert_eq!(b.position, v(0, BALL_Y_LIMIT));
    assert_eq!(b.velocity, v(283, -283));
}

#[test]
fn ball_below_floor_costs_a_life_and_pauses() {
    let mut b = ball_at(100_000, -400_000, -100, -100);
    let (r, st, score) = boundary(&mut b, 3);
    assert_eq!(r, Some(LifeEvent::Lost));
    assert_eq!(score.lives, 2);
    assert_eq!(b, setup_ball_and_paddle().0);
    assert_eq!(st.current(), GameState::PauseMenu);
    assert_eq!(st.depth(), 2);
}

#[test]
fn ball_below_floor_on_last_life_returns_to_menu() {
    let mut b = ball_at(0, -400_000, 100, -100);
    let (r, st, score) = boundary(&mut b, 1);
    assert_eq!(r, Some(LifeEvent::Exhausted));
    assert_eq!(score.lives, 0);
    assert_eq!(b, ball_at(0, -400_000, 100, -100));
    assert_eq!(st.current(), GameState::MainMenu);
    assert_eq!(st.depth(), 1);
}

#[test]
fn ball_inside_field_is_left_alone() {
    let mut b = ball_at(BALL_X_LIMIT, -BALL_Y_LIMIT, 283, -283);
    let (r, st, score) = boundary(&mut b, 3);
    assert_eq!(r, None);
    assert_eq!(b, ball_at(BALL_X_LIMIT, -BALL_Y_LIMIT, 283, -283));
    assert_eq!(score, Score::new());
    assert_eq!(st.depth(), 1);
}

#[test]
fn collision_scan_destroys_touched_bricks_only() {
    // the ball sits just below two adjacent bricks and far from a third
    let mut b = ball_at(0, -30_000, 100, 200);
    let mut bodies = vec![brick(7, -40_000, 0), brick(8, 70_000, 0), brick(9, 300_000, 0)];
    let mut s = Score::new();
    s.bricks_left = 3;
    let r = ball_collision_system(&mut b, &mut bodies, &mut s);
    assert_eq!(r.destroyed, vec![7]);
    assert!(!r.level_cleared);
    assert_eq!(bodies.iter().map(|x| x.id).collect::<Vec<u64>>(), vec![8, 9]);
    assert_eq!(s.points, 1);
    assert_eq!(s.bricks_left, 2);
    assert_eq!(s.current_level, 0);
    assert_eq!(b.velocity, v(100, -200));
    assert_eq!(b.position, v(0, -30_000));
}

#[test]
fn collision_scan_reflects_once_per_contact() {
    // two overlapping bricks hit on their bottom faces: the second contact
    // finds the ball already moving away, so only the first reflects
    let mut b = ball_at(0, -30_000, 100, 200);
    let mut bodies = vec![brick(1, 0, 0), brick(2, 10_000, 0)];
    let mut s = Score::new();
    s.bricks_left = 2;
    let r = ball_collision_system(&mut b, &mut bodies, &mut s);
    assert_eq!(r.destroyed, vec![1, 2]);
    assert!(r.level_cleared);
    assert!(bodies.is_empty());
    assert_eq!(s.points, 2);
    assert_eq!(s.bricks_left, 0);
    assert_eq!(s.current_level, 1);
    assert_eq!(b.velocity, v(100, -200));
}

#[test]
fn last_brick_advances_level_once() {
    // one brick left, three touched in the same scan
    let mut b = ball_at(0, -30_000, 100, 200);
    let mut bodies = vec![brick(1, 0, 0), brick(2, 10_000, 0), brick(3, -10_000, 0)];
    let mut s = Score { current_level: 4, bricks_left: 1, points: 7, lives: 3 };
    let r = ball_collision_system(&mut b, &mut bodies, &mut s);
    assert!(r.level_cleared);
    assert_eq!(r.destroyed, vec![1, 2, 3]);
    assert_eq!(s, Score { current_level: 5, bricks_left: 0, points: 10, lives: 3 });
}

#[test]
fn single_last_brick_hit_from_the_side() {
    let mut b = Ball { position: v(-35_000, 0), velocity: v(100, 50), size: v(30_000, 30_000) };
    let mut bodies = vec![Body { id: 0, position: v(0, 0), collider: Collider::Scorable { size: v(50_000, 20_000) }, sprite: 2 }];
    let mut s = Score { current_level: 0, bricks_left: 1, points: 4, lives: 3 };
    let r = ball_collision_system(&mut b, &mut bodies, &mut s);
    assert!(r.level_cleared);
    assert!(bodies.is_empty());
    assert_eq!(s, Score { current_level: 1, bricks_left: 0, points: 5, lives: 3 });
    assert_eq!(b.velocity, v(-100, 50));
}

#[test]
fn collision_scan_keeps_paddle() {
    let mut b = ball_at(0, -320_000, 100, -200);
    let paddle = Body { id: 99, position: v(0, -340_000), collider: Collider::Paddle { size: v(162_000, 30_000) }, sprite: 1 };
    let mut bodies = vec![paddle];
    let mut s = Score::new();
    let r = ball_collision_system(&mut b, &mut bodies, &mut s);
    assert!(r.destroyed.is_empty());
    assert_eq!(bodies, vec![paddle]);
    assert_eq!(s.points, 0);
    assert_eq!(b.velocity, v(100, 200));
}
