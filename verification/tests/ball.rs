use pong::{Ball, GameConfig, Input, Player};

fn pair(left: u16, right: u16) -> [Player; 2] {
    [
        Player { id: 1, position: left, last_input: Input::Up },
        Player { id: 2, position: right, last_input: Input::Down },
    ]
}

#[test]
fn new_ball_rests_in_the_corner() {
    assert_eq!(Ball::new(), Ball { x: 0, y: 0, vx: 0, vy: 0 });
}

#[test]
fn reset_serves_from_the_centre_to_the_right() {
    let config = GameConfig::new();
    let mut ball = Ball { x: 17, y: 9000, vx: -50, vy: -80 };
    ball.reset(&config);
    assert_eq!(ball, Ball { x: 5000, y: 5000, vx: 50, vy: 25 });
    let odd = GameConfig { width: 301, height: 99, ..GameConfig::new() };
    ball.reset(&odd);
    assert_eq!(ball, Ball { x: 150, y: 49, vx: 50, vy: 25 });
}

#[test]
fn free_flight_adds_the_velocity() {
    let config = GameConfig::new();
    let mut ball = Ball { x: 5000, y: 5000, vx: 50, vy: 25 };
    let mut players = pair(5000, 5000);
    let mut score = [0, 0];
    assert_eq!(ball.update(&config, &mut players, &mut score), None);
    assert_eq!(ball, Ball { x: 5050, y: 5025, vx: 50, vy: 25 });
    assert_eq!(players, pair(5000, 5000));
    assert_eq!(score, [0, 0]);
    let mut back = Ball { x: 5000, y: 5000, vx: -50, vy: -25 };
    assert_eq!(back.update(&config, &mut players, &mut score), None);
    assert_eq!(back, Ball { x: 4950, y: 4975, vx: -50, vy: -25 });
}

#[test]
fn the_floor_turns_the_ball_up() {
    let config = GameConfig::new();
    let mut ball = Ball { x: 5000, y: 10, vx: 50, vy: -25 };
    let mut players = pair(5000, 5000);
    let mut score = [0, 0];
    assert_eq!(ball.update(&config, &mut players, &mut score), None);
    assert_eq!(ball, Ball { x: 5050, y: 0, vx: 50, vy: 25 });
    assert_eq!(score, [0, 0]);
    assert_eq!(ball.update(&config, &mut players, &mut score), None);
    assert_eq!(ball, Ball { x: 5100, y: 25, vx: 50, vy: 25 });
}

#[test]
fn the_ceiling_turns_the_ball_down() {
    let config = GameConfig::new();
    let mut ball = Ball { x: 5000, y: 9975, vx: -50, vy: 25 };
    let mut players = pair(5000, 5000);
    let mut score = [0, 0];
    assert_eq!(ball.update(&config, &mut players, &mut score), None);
    assert_eq!(ball, Ball { x: 4950, y: 10000, vx: -50, vy: -25 });
    assert_eq!(score, [0, 0]);
    assert_eq!(ball.update(&config, &mut players, &mut score), None);
    assert_eq!(ball, Ball { x: 4900, y: 9975, vx: -50, vy: -25 });
}

#[test]
fn paddle_reflection() {
    let config = GameConfig::new();
    let mut ball = Ball { x: 30, y: 5000, vx: -50, vy: 0 };
    let mut players = pair(5000, 5000);
    let mut score = [0, 0];
    let goal = ball.update(&config, &mut players, &mut score);
    assert_eq!(goal, None);
    assert_eq!(ball, Ball { x: 0, y: 5000, vx: 50, vy: 0 });
    assert_eq!(score, [0, 0]);
    assert_eq!(players, pair(5000, 5000));
}

#[test]
fn a_hit_on_the_centre_keeps_the_lift() {
    let config = GameConfig::new();
    let mut ball = Ball { x: 9960, y: 7475, vx: 50, vy: 25 };
    let mut players = pair(5000, 7500);
    let mut score = [0, 0];
    assert_eq!(ball.update(&config, &mut players, &mut score), None);
    assert_eq!(ball, Ball { x: 10000, y: 7500, vx: -50, vy: 25 });
}

#[test]
fn a_hit_above_the_centre_lifts_the_ball() {
    let config = GameConfig::new();
    let mut ball = Ball { x: 9970, y: 5200, vx: 50, vy: 0 };
    let mut players = pair(5000, 5000);
    let mut score = [0, 0];
    assert_eq!(ball.update(&config, &mut players, &mut score), None);
    assert_eq!(ball, Ball { x: 10000, y: 5200, vx: -50, vy: 20 });
}

#[test]
fn a_hit_below_the_centre_lowers_the_ball() {
    let config = GameConfig::new();
    let mut ball = Ball { x: 20, y: 4800, vx: -50, vy: 0 };
    let mut players = pair(5000, 5000);
    let mut score = [0, 0];
    assert_eq!(ball.update(&config, &mut players, &mut score), None);
    assert_eq!(ball, Ball { x: 0, y: 4800, vx: 50, vy: -20 });
}

#[test]
fn the_deflection_rounds_towards_zero() {
    let config = GameConfig::new();
    let mut score = [0, 0];
    for (y, lift) in [(5005u16, 0i32), (4995, 0), (5015, 1), (4985, -1), (5009, 0), (4991, 0)] {
        let mut ball = Ball { x: 20, y, vx: -50, vy: 0 };
        let mut players = pair(5000, 5000);
        assert_eq!(ball.update(&config, &mut players, &mut score), None);
        assert_eq!(ball, Ball { x: 0, y, vx: 50, vy: lift });
    }
}

#[test]
fn the_lift_never_passes_its_limit() {
    let config = GameConfig::new();
    let mut score = [0, 0];
    let mut up = Ball { x: 20, y: 5475, vx: -50, vy: 90 };
    let mut players = pair(5065, 5000);
    assert_eq!(up.update(&config, &mut players, &mut score), None);
    assert_eq!(up, Ball { x: 0, y: 5565, vx: 50, vy: 100 });
    let mut down = Ball { x: 20, y: 4525, vx: -50, vy: -90 };
    let mut players = pair(4935, 5000);
    assert_eq!(down.update(&config, &mut players, &mut score), None);
    assert_eq!(down, Ball { x: 0, y: 4435, vx: 50, vy: -100 });
    assert_eq!(Ball::deflect(&config, 90, 5065, 5565), 100);
    assert_eq!(Ball::deflect(&config, -90, 4935, 4435), -100);
    assert_eq!(Ball::deflect(&config, 90, 5000, 5090), 99);
}

#[test]
fn the_paddle_covers_as_far_as_its_reach() {
    let config = GameConfig::new();
    assert!(Ball::covers(&config, 5000, 5500));
    assert!(Ball::covers(&config, 5000, 4500));
    assert!(!Ball::covers(&config, 5000, 5501));
    assert!(!Ball::covers(&config, 5000, 4499));
    assert!(Ball::covers(&config, 0, 500));
    assert!(!Ball::covers(&config, 0, 501));
    assert!(Ball::covers(&config, 65535, 65035));
    assert!(!Ball::covers(&config, 0, 65535));
}

#[test]
fn a_ball_past_the_left_paddle_scores_for_the_right() {
    let config = GameConfig::new();
    let mut ball = Ball { x: 30, y: 5000, vx: -50, vy: 0 };
    let mut players = pair(5501, 8000);
    let mut score = [1, 1];
    let goal = ball.update(&config, &mut players, &mut score);
    assert_eq!(goal, Some(1));
    assert_eq!(score, [1, 2]);
    assert_eq!(ball, Ball { x: 5000, y: 5000, vx: 50, vy: 25 });
    assert_eq!(players, pair(5000, 5000));
}

#[test]
fn a_ball_past_the_right_paddle_scores_for_the_left() {
    let config = GameConfig::new();
    let mut ball = Ball { x: 9950, y: 7475, vx: 50, vy: 25 };
    let mut players = pair(100, 5000);
    let mut score = [0, 2];
    let goal = ball.update(&config, &mut players, &mut score);
    assert_eq!(goal, Some(0));
    assert_eq!(score, [1, 2]);
    assert_eq!(ball, Ball { x: 5000, y: 5000, vx: 50, vy: 25 });
    assert_eq!(players, pair(5000, 5000));
}

#[test]
fn the_goal_line_itself_counts() {
    let config = GameConfig::new();
    let mut score = [0, 0];
    let mut left = Ball { x: 50, y: 5000, vx: -50, vy: 0 };
    let mut players = pair(9000, 9000);
    assert_eq!(left.update(&config, &mut players, &mut score), Some(1));
    let mut right = Ball { x: 9950, y: 5000, vx: 50, vy: 0 };
    let mut players = pair(9000, 9000);
    assert_eq!(right.update(&config, &mut players, &mut score), Some(0));
    let mut short = Ball { x: 51, y: 5000, vx: -50, vy: 0 };
    let mut players = pair(9000, 9000);
    assert_eq!(short.update(&config, &mut players, &mut score), None);
    assert_eq!(short, Ball { x: 1, y: 5000, vx: -50, vy: 0 });
    assert_eq!(score, [1, 1]);
}

#[test]
fn only_the_paddle_on_the_line_reached_can_answer() {
    let config = GameConfig::new();
    let mut score = [0, 0];
    let mut ball = Ball { x: 30, y: 5000, vx: -50, vy: 0 };
    let mut players = pair(9000, 5000);
    assert_eq!(ball.update(&config, &mut players, &mut score), Some(1));
    assert_eq!(score, [0, 1]);
}

#[test]
fn a_wall_and_a_paddle_in_one_step() {
    let config = GameConfig::new();
    let mut ball = Ball { x: 9970, y: 9990, vx: 50, vy: 25 };
    let mut players = pair(5000, 9600);
    let mut score = [0, 0];
    assert_eq!(ball.update(&config, &mut players, &mut score), None);
    assert_eq!(ball, Ball { x: 10000, y: 10000, vx: -50, vy: 15 });
}

#[test]
fn a_ball_at_rest_stays_at_rest() {
    let config = GameConfig::new();
    let mut ball = Ball::new();
    let mut players = pair(5000, 5000);
    let mut score = [0, 0];
    assert_eq!(ball.update(&config, &mut players, &mut score), None);
    assert_eq!(ball, Ball::new());
}

#[test]
fn a_goal_counts_for_one_side_only() {
    let config = GameConfig::new();
    for left in [0u8, 1, 2, 100, 254] {
        for right in [0u8, 1, 2, 100, 254] {
            let mut score = [left, right];
            let mut ball = Ball { x: 30, y: 5000, vx: -50, vy: 0 };
            let mut players = pair(0, 0);
            assert_eq!(ball.update(&config, &mut players, &mut score), Some(1));
            assert_eq!(score, [left, right + 1]);
            let mut ball = Ball { x: 9990, y: 5000, vx: 50, vy: 0 };
            let mut players = pair(0, 0);
            assert_eq!(ball.update(&config, &mut players, &mut score), Some(0));
            assert_eq!(score, [left + 1, right + 1]);
        }
    }
}

#[test]
fn the_ball_never_leaves_the_field() {
    let config = GameConfig { width: 300, height: 170, max_lift: 60, ..GameConfig::new() };
    let mut ball = Ball { x: 150, y: 85, vx: 50, vy: 25 };
    let mut players = pair(85, 85);
    let mut score = [0, 0];
    for _ in 0..5000 {
        if ball.update(&config, &mut players, &mut score).is_some() {
            score = [0, 0];
        }
        assert!(ball.x <= 300 && ball.y <= 170);
        assert!(ball.vx == 50 || ball.vx == -50);
        assert!(-60 <= ball.vy && ball.vy <= 60);
    }
}
