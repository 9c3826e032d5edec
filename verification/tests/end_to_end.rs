use pong_core::entities::setup;
use pong_core::entities::Ball;
use pong_core::entities::Boundary;
use pong_core::entities::Paddle;
use pong_core::entities::Wall;
use pong_core::input::InputState;
use pong_core::sim::tick;

#[test]
fn setup_builds_the_fixed_scene() {
    let w = setup();
    assert_eq!(w.ball, Ball { x: 0, y: 0, vx: -1, vy: -2 });
    assert_eq!(w.paddle0, Paddle { index: 0, x: -250_000, y: 0 });
    assert_eq!(w.paddle1, Paddle { index: 1, x: 250_000, y: 0 });
    assert_eq!(w.floor, Boundary { x: 0, y: -300_000 });
    assert_eq!(w.ceiling, Boundary { x: 0, y: 300_000 });
    assert_eq!(w.wall_left, Wall { x: -300_000, y: 0 });
    assert_eq!(w.wall_right, Wall { x: 300_000, y: 0 });
}

#[test]
fn tick_runs_movers_before_collision_checks() {
    let mut w = setup();
    let held = InputState { w: true, s: false, up: false, down: false };
    tick(&mut w, &held, 10);
    // Ball moved by velocity * 10 ms * 50; paddle 0 rose by 10 ms * 200.
    assert_eq!(w.ball.x, -500);
    assert_eq!(w.ball.y, -1_000);
    assert_eq!(w.paddle0.y, 2_000);
    assert_eq!(w.paddle1.y, 0);
    // Nothing near the ball: velocity untouched, geometry fixed.
    assert_eq!(w.ball.vx, -1);
    assert_eq!(w.ball.vy, -2);
    assert_eq!(w.floor, Boundary { x: 0, y: -300_000 });
    assert_eq!(w.ceiling, Boundary { x: 0, y: 300_000 });
}

#[test]
fn ball_bounces_off_the_floor() {
    // From the start, at 20 ms per tick, the ball descends 2 units per tick.
    // After 142 ticks it sits at y = -284, still outside the 15-unit
    // threshold of the floor at -300; the 143rd tick carries it to -286,
    // within the threshold, and the reflector flips vy to +2.
    let mut w = setup();
    let quiet = InputState::none_held();
    for _ in 0..142 {
        tick(&mut w, &quiet, 20);
    }
    assert_eq!(w.ball.y, -284_000);
    assert_eq!(w.ball.vy, -2);

    tick(&mut w, &quiet, 20);
    assert_eq!(w.ball.y, -286_000);
    assert_eq!(w.ball.vy, 2);

    // The post-flip sign is positive with the original magnitude, and the
    // next tick moves the ball back up.
    tick(&mut w, &quiet, 20);
    assert_eq!(w.ball.y, -284_000);
    assert_eq!(w.ball.vy, 2);
}

#[test]
fn ball_eventually_bounces_when_simulated_until_low() {
    // Same run, phrased as "simulate until y <= -285, then watch the flip".
    let mut w = setup();
    let quiet = InputState::none_held();
    let mut ticks: usize = 0;
    while w.ball.y > -285_000 && ticks < 1_000 {
        tick(&mut w, &quiet, 20);
        ticks += 1;
    }
    assert!(w.ball.y <= -285_000);
    // The tick that first carried the ball below -285 already overlapped the
    // floor, so the reflector has flipped vy to +|vy|.
    assert_eq!(w.ball.vy, 2);
    assert_eq!(w.ball.vx, -1);
}
