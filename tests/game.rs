use pingis::arena::{
    arena_center, paddle_spawn, to_sim, wall_center, wall_tag, Player, Point, WallSide,
    DEFAULT_SCALE,
};
use pingis::contact::{observe_contacts, stopped_ball_contact, ColliderId, ContactEvent};
use pingis::goal::{apply_goal, ball_goal, goal_scorer, BallReset, Score, FULL_TURN, RESET_SPEED};
use pingis::paddle::{
    angular_velocity, axis, bindings, clamp_x, horizontal_bounds, linear_velocity,
    move_direction, paddle_update, rotation_direction, Key, PaddleKeys, Pose, Velocity,
    ANGULAR_SPEED, PADDLE_SPEED,
};
use pingis::scoreboard::{decimal_text, score_text};

#[test]
fn axis_covers_all_key_combinations() {
    assert_eq!(axis(false, false), 0);
    assert_eq!(axis(true, false), -1);
    assert_eq!(axis(false, true), 1);
    assert_eq!(axis(true, true), 0);
}

#[test]
fn move_direction_cancels_opposing_keys() {
    let keys = PaddleKeys {
        move_left: true,
        move_right: true,
        move_up: true,
        ..PaddleKeys::default()
    };
    assert_eq!(move_direction(keys), (0, 1));
    let keys = PaddleKeys { move_left: true, move_down: true, ..PaddleKeys::default() };
    assert_eq!(move_direction(keys), (-1, -1));
}

#[test]
fn rotation_direction_left_is_positive() {
    let keys = PaddleKeys { rotate_left: true, ..PaddleKeys::default() };
    assert_eq!(rotation_direction(keys), 1);
    let keys = PaddleKeys { rotate_right: true, ..PaddleKeys::default() };
    assert_eq!(rotation_direction(keys), -1);
    let keys = PaddleKeys { rotate_left: true, rotate_right: true, ..PaddleKeys::default() };
    assert_eq!(rotation_direction(keys), 0);
}

#[test]
fn no_key_gives_zero_velocity() {
    assert_eq!(linear_velocity(0, 0, 600, 20), Velocity { x: 0, y: 0 });
}

#[test]
fn axis_velocity_is_speed_over_scale() {
    assert_eq!(linear_velocity(1, 0, 600, 20), Velocity { x: 30_000_000, y: 0 });
    assert_eq!(linear_velocity(0, -1, 600, 20), Velocity { x: 0, y: -30_000_000 });
    assert_eq!(linear_velocity(-1, 0, 100, 3), Velocity { x: -33_333_333, y: 0 });
}

#[test]
fn diagonal_velocity_has_speed_over_scale_length() {
    let v = linear_velocity(-1, 1, 600, 20);
    assert_eq!(v, Velocity { x: -21_213_203, y: 21_213_203 });
    let m = 30_000_000i128;
    let sq = (v.x as i128) * (v.x as i128) + (v.y as i128) * (v.y as i128);
    assert!(sq <= m * m);
    assert!(m * m - 4 * m - 2 < sq);
}

#[test]
fn largest_speed_does_not_overflow() {
    let v = linear_velocity(1, 1, u32::MAX, 1);
    let m = (u32::MAX as i128) * 1_000_000;
    let d = v.x as i128;
    assert_eq!(v.x, v.y);
    assert!(2 * d * d <= m * m && m * m < 2 * (d + 1) * (d + 1));
}

#[test]
fn scenario_left_player_moves_right_and_up() {
    let keys = PaddleKeys { move_right: true, move_up: true, ..PaddleKeys::default() };
    let pose = Pose { x: 5_000_000, y: 15_000_000, angle: 0 };
    let c = paddle_update(Player::Left, keys, 600, 20, Some(pose)).unwrap();
    assert_eq!(c.velocity, Velocity { x: 21_213_203, y: 21_213_203 });
    assert_eq!(c.clamp_x, None);
    assert_eq!(c.angular_velocity, 0);
}

#[test]
fn missing_body_gets_no_command() {
    let keys = PaddleKeys { move_right: true, ..PaddleKeys::default() };
    assert_eq!(paddle_update(Player::Right, keys, 600, 20, None), None);
}

#[test]
fn bounds_of_each_player() {
    assert_eq!(horizontal_bounds(Player::Left, 20), (750_000, 24_250_000));
    assert_eq!(horizontal_bounds(Player::Right, 20), (25_750_000, 49_250_000));
}

#[test]
fn clamp_keeps_left_paddle_in_its_half() {
    assert_eq!(clamp_x(Player::Left, -40_000_000, 20), Some(750_000));
    assert_eq!(clamp_x(Player::Left, 749_999, 20), Some(750_000));
    assert_eq!(clamp_x(Player::Left, 750_000, 20), None);
    assert_eq!(clamp_x(Player::Left, 24_250_000, 20), None);
    assert_eq!(clamp_x(Player::Left, 24_250_001, 20), Some(24_250_000));
}

#[test]
fn clamp_keeps_right_paddle_in_its_half() {
    assert_eq!(clamp_x(Player::Right, 0, 20), Some(25_750_000));
    assert_eq!(clamp_x(Player::Right, 30_000_000, 20), None);
    assert_eq!(clamp_x(Player::Right, i64::MAX, 20), Some(49_250_000));
}

#[test]
fn clamp_in_frame_update() {
    let keys = PaddleKeys::default();
    let pose = Pose { x: 60_000_000, y: -3, angle: 0 };
    let c = paddle_update(Player::Right, keys, 600, 20, Some(pose)).unwrap();
    assert_eq!(c.clamp_x, Some(49_250_000));
    assert_eq!(c.velocity, Velocity { x: 0, y: 0 });
}

#[test]
fn no_rotation_command_stops_paddle_at_any_angle() {
    for angle in [-5_000_000, -800_000, 0, 800_000, 5_000_000] {
        assert_eq!(angular_velocity(0, angle), 0);
    }
}

#[test]
fn rotation_stops_past_the_limit() {
    assert_eq!(angular_velocity(1, 800_000), ANGULAR_SPEED);
    assert_eq!(angular_velocity(1, 800_001), 0);
    assert_eq!(angular_velocity(-1, -800_000), -ANGULAR_SPEED);
    assert_eq!(angular_velocity(-1, -800_001), 0);
    assert_eq!(angular_velocity(-1, 800_001), -3_000_000);
    assert_eq!(angular_velocity(1, -800_001), 3_000_000);
}

#[test]
fn rotation_in_frame_update() {
    let keys = PaddleKeys { rotate_left: true, ..PaddleKeys::default() };
    let pose = Pose { x: 10_000_000, y: 0, angle: 100_000 };
    let c = paddle_update(Player::Left, keys, PADDLE_SPEED, 20, Some(pose)).unwrap();
    assert_eq!(c.angular_velocity, 3_000_000);
}

#[test]
fn key_bindings_per_player() {
    let l = bindings(Player::Left);
    assert_eq!((l.move_left, l.move_right, l.move_up, l.move_down), (Key::A, Key::D, Key::W, Key::S));
    assert_eq!((l.rotate_left, l.rotate_right), (Key::Q, Key::E));
    let r = bindings(Player::Right);
    assert_eq!(
        (r.move_left, r.move_right, r.move_up, r.move_down),
        (Key::Numpad4, Key::Numpad6, Key::Numpad8, Key::Numpad5)
    );
    assert_eq!((r.rotate_left, r.rotate_right), (Key::Numpad7, Key::Numpad9));
}

#[test]
fn players_are_ordered() {
    assert!(Player::Left < Player::Right);
}

#[test]
fn goal_scorer_by_side() {
    assert_eq!(goal_scorer(-1), Some(Player::Right));
    assert_eq!(goal_scorer(0), None);
    assert_eq!(goal_scorer(1_000_000_000), None);
    assert_eq!(goal_scorer(1_000_000_001), Some(Player::Left));
}

#[test]
fn ball_left_of_arena_scores_right() {
    let mut s = Score { left: 3, right: 4 };
    let r = apply_goal(&mut s, -1, 20, 42);
    assert_eq!(s, Score { left: 3, right: 5 });
    let expected = BallReset {
        position: Point { x: 25_000_000, y: 15_000_000 },
        direction: 42,
        speed: 20_000_000,
    };
    assert_eq!(r, Some(expected));
}

#[test]
fn ball_right_of_arena_scores_left() {
    let mut s = Score { left: 3, right: 4 };
    let r = apply_goal(&mut s, 1_000_000_001, 10, 7);
    assert_eq!(s, Score { left: 4, right: 4 });
    assert_eq!(r.unwrap().position, Point { x: 50_000_000, y: 30_000_000 });
}

#[test]
fn ball_inside_arena_changes_nothing() {
    let mut s = Score { left: 3, right: 4 };
    for x in [0, 500_000_000, 1_000_000_000] {
        assert_eq!(ball_goal(&mut s, x, 20), None);
    }
    assert_eq!(s, Score { left: 3, right: 4 });
}

#[test]
fn scenario_goal_on_the_left() {
    let mut s = Score::default();
    let r = ball_goal(&mut s, -5_000_000, 20).unwrap();
    assert_eq!(s, Score { left: 0, right: 1 });
    assert_eq!(r.position, Point { x: 500_000_000 / 20, y: 300_000_000 / 20 });
    assert_eq!(r.speed, RESET_SPEED);
    assert_eq!(r.speed, 20_000_000);
}

#[test]
fn reset_speed_is_fixed_and_directions_spread() {
    let mut s = Score::new();
    let mut quadrants = [0u32; 4];
    for _ in 0..2000 {
        let r = ball_goal(&mut s, -1, DEFAULT_SCALE).unwrap();
        assert_eq!(r.speed, 20_000_000);
        assert!(r.direction < FULL_TURN);
        quadrants[(r.direction * 4 / FULL_TURN) as usize] += 1;
    }
    assert_eq!(s.right, 2000);
    assert!(quadrants.iter().all(|&q| q > 300));
}

#[test]
fn score_counts_grow_by_one() {
    let mut s = Score::new();
    s.award(Player::Left);
    s.award(Player::Left);
    s.award(Player::Right);
    assert_eq!((s.left, s.right), (2, 1));
    assert_eq!(s.of(Player::Left), 2);
}

#[test]
fn scoreboard_text_is_decimal_count() {
    let mut s = Score { left: 9, right: 0 };
    assert_eq!(score_text(&s, Player::Left), "9");
    assert_eq!(score_text(&s, Player::Right), "0");
    ball_goal(&mut s, 2_000_000_000, 20);
    assert_eq!(score_text(&s, Player::Left), "10");
    assert_eq!(score_text(&s, Player::Right), "0");
}

#[test]
fn decimal_text_edges() {
    assert_eq!(decimal_text(0), "0");
    assert_eq!(decimal_text(107), "107");
    assert_eq!(decimal_text(u32::MAX), "4294967295");
}

#[test]
fn spawn_positions() {
    assert_eq!(arena_center(20), Point { x: 25_000_000, y: 15_000_000 });
    assert_eq!(paddle_spawn(Player::Left, 20), Point { x: 2_500_000, y: 15_000_000 });
    assert_eq!(paddle_spawn(Player::Right, 20), Point { x: 47_500_000, y: 15_000_000 });
    assert_eq!(wall_center(WallSide::Bottom, 20), Point { x: 25_000_000, y: 500_000 });
    assert_eq!(wall_center(WallSide::Top, 20), Point { x: 25_000_000, y: 29_500_000 });
    assert_eq!(to_sim(40, 20), 2_000_000);
}

#[test]
fn wall_tags() {
    assert_eq!(wall_tag(WallSide::Top), 1);
    assert_eq!(wall_tag(WallSide::Bottom), 2);
}

#[test]
fn stopped_contacts_with_ball() {
    let ball = ColliderId { index: 3, generation: 1 };
    let wall = ColliderId { index: 4, generation: 0 };
    let stale = ColliderId { index: 3, generation: 0 };
    let balls = vec![ball];
    assert!(stopped_ball_contact(ContactEvent::Stopped(wall, ball), &balls));
    assert!(stopped_ball_contact(ContactEvent::Stopped(ball, wall), &balls));
    assert!(!stopped_ball_contact(ContactEvent::Started(ball, wall), &balls));
    assert!(!stopped_ball_contact(ContactEvent::Stopped(wall, stale), &balls));
    assert!(!stopped_ball_contact(ContactEvent::Stopped(ball, wall), &vec![]));
    let events = vec![
        ContactEvent::Started(ball, wall),
        ContactEvent::Stopped(ball, wall),
        ContactEvent::Stopped(wall, stale),
        ContactEvent::Stopped(wall, ball),
    ];
    assert_eq!(observe_contacts(&events, &balls), 2);
    assert_eq!(observe_contacts(&vec![], &balls), 0);
}
