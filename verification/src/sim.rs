//! The per-tick simulation systems: motion integration, boundary reflection,
//! paddle collision, paddle movement, and the ordered tick that runs them.
//!
//! Movers run first, then the two collision checks, so the checks observe the
//! updated ball and paddle positions. A collision check only flips the sign of
//! one velocity component; no positional correction is applied, and a ball
//! that overlaps both boundaries (or both paddles) at once flips twice, which
//! cancels — that edge case is accepted behavior, not corrected.

use vstd::prelude::*;
use crate::entities::Ball;
use crate::entities::Boundary;
use crate::entities::Paddle;
use crate::entities::World;
use crate::entities::dist;
use crate::entities::fits_i64;
use crate::entities::BALL_SPEED;
use crate::entities::BOUNDARY_THRESHOLD;
use crate::entities::HORIZONTAL_THRESHOLD;
use crate::entities::VERTICAL_THRESHOLD;
use crate::entities::PADDLE_SPEED;
use crate::input::InputState;
use crate::input::player_keys;
use crate::input::spec_player_keys;

verus! {

/// The ball's x after integrating motion for `dt` milliseconds.
pub open spec fn motion_x(b: Ball, dt: int) -> int {
    b.x + b.vx * dt * BALL_SPEED
}

/// The ball's y after integrating motion for `dt` milliseconds.
pub open spec fn motion_y(b: Ball, dt: int) -> int {
    b.y + b.vy * dt * BALL_SPEED
}

/// The machine limits under which one motion step stays inside `i64`.
pub open spec fn motion_fits(b: Ball, dt: int) -> bool {
    &&& fits_i64(b.vx * dt)
    &&& fits_i64(b.vx * dt * BALL_SPEED)
    &&& fits_i64(motion_x(b, dt))
    &&& fits_i64(b.vy * dt)
    &&& fits_i64(b.vy * dt * BALL_SPEED)
    &&& fits_i64(motion_y(b, dt))
}

/// Advances the ball by `velocity * dt * BALL_SPEED`; velocity is untouched.
pub fn move_ball(ball: &mut Ball, dt: i64)
    requires
        0 <= dt,
        motion_fits(*old(ball), dt as int),
    ensures
        final(ball).x == motion_x(*old(ball), dt as int),
        final(ball).y == motion_y(*old(ball), dt as int),
        final(ball).vx == old(ball).vx,
        final(ball).vy == old(ball).vy,
{
    let dx = ball.vx * dt * BALL_SPEED;
    let dy = ball.vy * dt * BALL_SPEED;
    ball.x = ball.x + dx;
    ball.y = ball.y + dy;
}

/// Law: integrating over zero elapsed time is a no-op on the position.
pub proof fn lemma_motion_zero_dt(b: Ball)
    ensures
        motion_x(b, 0) == b.x,
        motion_y(b, 0) == b.y,
{
}

/// `|a - b|` on machine integers.
fn abs_diff(a: i64, b: i64) -> (r: i64)
    requires
        fits_i64(dist(a as int, b as int)),
    ensures
        r as int == dist(a as int, b as int),
{
    if a >= b {
        a - b
    } else {
        b - a
    }
}

/// True when a ball center at height `ball_y` overlaps a boundary centered at
/// height `boundary_y`.
pub open spec fn boundary_overlap(ball_y: int, boundary_y: int) -> bool {
    dist(ball_y, boundary_y) <= BOUNDARY_THRESHOLD
}

/// Whether one reflector pass flips the vertical velocity: the flip per
/// overlapping boundary survives exactly when one of the two overlaps (a
/// double overlap flips twice and cancels).
pub open spec fn flips_vertical(ball_y: int, floor: Boundary, ceiling: Boundary) -> bool {
    boundary_overlap(ball_y, floor.y as int) != boundary_overlap(ball_y, ceiling.y as int)
}

/// The vertical velocity after one reflector pass at position `ball_y`.
pub open spec fn reflected_vy(ball_y: int, vy: int, floor: Boundary, ceiling: Boundary) -> int {
    if flips_vertical(ball_y, floor, ceiling) {
        -vy
    } else {
        vy
    }
}

/// For each of the two boundaries in turn: if the ball's center is within
/// [`BOUNDARY_THRESHOLD`] vertically, flip the ball's vertical velocity.
/// Position is untouched.
pub fn check_ball_against_ceiling_and_floor(ball: &mut Ball, floor: &Boundary, ceiling: &Boundary)
    requires
        fits_i64(dist(old(ball).y as int, floor.y as int)),
        fits_i64(dist(old(ball).y as int, ceiling.y as int)),
        old(ball).vy != i64::MIN,
    ensures
        final(ball).x == old(ball).x,
        final(ball).y == old(ball).y,
        final(ball).vx == old(ball).vx,
        final(ball).vy as int == reflected_vy(
            old(ball).y as int,
            old(ball).vy as int,
            *floor,
            *ceiling,
        ),
{
    if abs_diff(ball.y, floor.y) <= BOUNDARY_THRESHOLD {
        ball.vy = -ball.vy;
    }
    if abs_diff(ball.y, ceiling.y) <= BOUNDARY_THRESHOLD {
        ball.vy = -ball.vy;
    }
}

/// Law: two reflector passes with no intervening position change restore the
/// original vertical velocity — the flip, where it happens, is its own
/// inverse, and where nothing overlaps nothing changes.
pub proof fn lemma_reflector_round_trip(ball_y: int, vy: int, floor: Boundary, ceiling: Boundary)
    ensures
        reflected_vy(ball_y, reflected_vy(ball_y, vy, floor, ceiling), floor, ceiling) == vy,
{
}

/// True when the ball overlaps a paddle's bounding box: within
/// [`HORIZONTAL_THRESHOLD`] on x and [`VERTICAL_THRESHOLD`] on y.
pub open spec fn paddle_overlap(ball_x: int, ball_y: int, paddle_x: int, paddle_y: int) -> bool {
    dist(ball_x, paddle_x) <= HORIZONTAL_THRESHOLD
        && dist(ball_y, paddle_y) <= VERTICAL_THRESHOLD
}

/// Whether one collider pass flips the horizontal velocity: exactly one of
/// the two paddles overlaps (a double overlap flips twice and cancels).
pub open spec fn flips_horizontal(ball_x: int, ball_y: int, p0: Paddle, p1: Paddle) -> bool {
    paddle_overlap(ball_x, ball_y, p0.x as int, p0.y as int)
        != paddle_overlap(ball_x, ball_y, p1.x as int, p1.y as int)
}

/// The horizontal velocity after one collider pass at position
/// (`ball_x`, `ball_y`).
pub open spec fn reflected_vx(ball_x: int, ball_y: int, vx: int, p0: Paddle, p1: Paddle) -> int {
    if flips_horizontal(ball_x, ball_y, p0, p1) {
        -vx
    } else {
        vx
    }
}

/// For each of the two paddles in turn: if the ball is within the horizontal
/// gate, and then also within the vertical gate, flip the ball's horizontal
/// velocity. The vertical test is skipped when the ball is clearly out of
/// horizontal range. Position is untouched.
pub fn check_ball_against_paddles(ball: &mut Ball, p0: &Paddle, p1: &Paddle)
    requires
        fits_i64(dist(old(ball).x as int, p0.x as int)),
        fits_i64(dist(old(ball).y as int, p0.y as int)),
        fits_i64(dist(old(ball).x as int, p1.x as int)),
        fits_i64(dist(old(ball).y as int, p1.y as int)),
        old(ball).vx != i64::MIN,
    ensures
        final(ball).x == old(ball).x,
        final(ball).y == old(ball).y,
        final(ball).vy == old(ball).vy,
        final(ball).vx as int == reflected_vx(
            old(ball).x as int,
            old(ball).y as int,
            old(ball).vx as int,
            *p0,
            *p1,
        ),
{
    if abs_diff(ball.x, p0.x) <= HORIZONTAL_THRESHOLD {
        if abs_diff(ball.y, p0.y) <= VERTICAL_THRESHOLD {
            ball.vx = -ball.vx;
        }
    }
    if abs_diff(ball.x, p1.x) <= HORIZONTAL_THRESHOLD {
        if abs_diff(ball.y, p1.y) <= VERTICAL_THRESHOLD {
            ball.vx = -ball.vx;
        }
    }
}

/// The machine limits under which one paddle move stays inside `i64`.
pub open spec fn paddle_move_fits(p: Paddle, dt: int) -> bool {
    &&& fits_i64(dt * PADDLE_SPEED)
    &&& fits_i64(p.y + dt * PADDLE_SPEED)
    &&& fits_i64(p.y - dt * PADDLE_SPEED)
}

/// The paddle's y after one mover pass: up by `dt * PADDLE_SPEED` while the
/// player's up key is held, down by the same amount while the down key is
/// held; both at once cancel.
pub open spec fn paddle_y_after(p: Paddle, input: InputState, dt: int) -> int {
    let keys = spec_player_keys(p.index as int);
    let up_step: int = if input.spec_pressed(keys.up) {
        dt * PADDLE_SPEED
    } else {
        0
    };
    let down_step: int = if input.spec_pressed(keys.down) {
        dt * PADDLE_SPEED
    } else {
        0
    };
    p.y + up_step - down_step
}

/// Law: holding a player's up and down keys at once yields zero net paddle
/// movement, for every elapsed time.
pub proof fn lemma_both_keys_cancel(p: Paddle, input: InputState, dt: int)
    requires
        input.spec_pressed(spec_player_keys(p.index as int).up),
        input.spec_pressed(spec_player_keys(p.index as int).down),
    ensures
        paddle_y_after(p, input, dt) == p.y,
{
}

/// Moves one paddle vertically per its player's held keys; index and x are
/// untouched.
pub fn move_player(paddle: &mut Paddle, input: &InputState, dt: i64)
    requires
        old(paddle).wf(),
        0 <= dt,
        paddle_move_fits(*old(paddle), dt as int),
    ensures
        final(paddle).index == old(paddle).index,
        final(paddle).x == old(paddle).x,
        final(paddle).y as int == paddle_y_after(*old(paddle), *input, dt as int),
{
    let keys = player_keys(paddle.index);
    let step = dt * PADDLE_SPEED;
    if input.pressed(keys.up) {
        paddle.y = paddle.y + step;
    }
    if input.pressed(keys.down) {
        paddle.y = paddle.y - step;
    }
}

/// Moves both paddles per the sampled input.
pub fn move_players(paddle0: &mut Paddle, paddle1: &mut Paddle, input: &InputState, dt: i64)
    requires
        old(paddle0).wf(),
        old(paddle1).wf(),
        0 <= dt,
        paddle_move_fits(*old(paddle0), dt as int),
        paddle_move_fits(*old(paddle1), dt as int),
    ensures
        final(paddle0).index == old(paddle0).index,
        final(paddle0).x == old(paddle0).x,
        final(paddle0).y as int == paddle_y_after(*old(paddle0), *input, dt as int),
        final(paddle1).index == old(paddle1).index,
        final(paddle1).x == old(paddle1).x,
        final(paddle1).y as int == paddle_y_after(*old(paddle1), *input, dt as int),
{
    move_player(paddle0, input, dt);
    move_player(paddle1, input, dt);
}

/// The machine limits under which one whole tick stays inside `i64`: the
/// motion and paddle steps fit, and the collision checks' distance tests at
/// the moved positions fit.
pub open spec fn tick_fits(w: World, input: InputState, dt: int) -> bool {
    &&& motion_fits(w.ball, dt)
    &&& paddle_move_fits(w.paddle0, dt)
    &&& paddle_move_fits(w.paddle1, dt)
    &&& fits_i64(dist(motion_y(w.ball, dt), w.floor.y as int))
    &&& fits_i64(dist(motion_y(w.ball, dt), w.ceiling.y as int))
    &&& fits_i64(dist(motion_x(w.ball, dt), w.paddle0.x as int))
    &&& fits_i64(dist(motion_y(w.ball, dt), paddle_y_after(w.paddle0, input, dt)))
    &&& fits_i64(dist(motion_x(w.ball, dt), w.paddle1.x as int))
    &&& fits_i64(dist(motion_y(w.ball, dt), paddle_y_after(w.paddle1, input, dt)))
    &&& w.ball.vy != i64::MIN
    &&& w.ball.vx != i64::MIN
}

/// One simulation tick, in the fixed order the design prescribes: both
/// movers first, then the boundary reflector, then the paddle collider, so
/// the collision checks observe the moved ball and paddles. Boundary and
/// wall geometry never changes.
pub fn tick(world: &mut World, input: &InputState, dt: i64)
    requires
        old(world).wf(),
        0 <= dt,
        tick_fits(*old(world), *input, dt as int),
    ensures
        final(world).wf(),
        final(world).paddle0.x == old(world).paddle0.x,
        final(world).paddle0.y as int == paddle_y_after(old(world).paddle0, *input, dt as int),
        final(world).paddle1.x == old(world).paddle1.x,
        final(world).paddle1.y as int == paddle_y_after(old(world).paddle1, *input, dt as int),
        final(world).ball.x as int == motion_x(old(world).ball, dt as int),
        final(world).ball.y as int == motion_y(old(world).ball, dt as int),
        final(world).ball.vy as int == reflected_vy(
            motion_y(old(world).ball, dt as int),
            old(world).ball.vy as int,
            old(world).floor,
            old(world).ceiling,
        ),
        final(world).ball.vx as int == reflected_vx(
            motion_x(old(world).ball, dt as int),
            motion_y(old(world).ball, dt as int),
            old(world).ball.vx as int,
            final(world).paddle0,
            final(world).paddle1,
        ),
        final(world).floor == old(world).floor,
        final(world).ceiling == old(world).ceiling,
        final(world).wall_left == old(world).wall_left,
        final(world).wall_right == old(world).wall_right,
{
    move_players(&mut world.paddle0, &mut world.paddle1, input, dt);
    move_ball(&mut world.ball, dt);
    check_ball_against_ceiling_and_floor(&mut world.ball, &world.floor, &world.ceiling);
    check_ball_against_paddles(&mut world.ball, &world.paddle0, &world.paddle1);
}

} // verus!

