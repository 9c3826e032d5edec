//! The entity store: typed records for the ball, the two paddles, the two
//! reflecting boundaries (ceiling and floor) and the two cosmetic side walls,
//! together with the fixed geometry constants and the initial scene.
//!
//! Positions and lengths are in milliunits (thousandths of a world unit);
//! velocity components are in whole units and only ever change sign.

use vstd::prelude::*;

verus! {

/// Displacement of the ball, in milliunits per millisecond, per whole unit of
/// velocity: 50 units per second.
pub const BALL_SPEED: i64 = 50;

/// Side length of the square ball, in milliunits (20 units).
pub const BALL_SIZE: i64 = 20_000;

/// Thickness of a boundary line, in milliunits (10 units).
pub const WALL_THICKNESS: i64 = 10_000;

/// Vertical paddle speed while a key is held, in milliunits per millisecond:
/// 200 units per second.
pub const PADDLE_SPEED: i64 = 200;

/// Horizontal thickness of a paddle, in milliunits (20 units).
pub const PADDLE_THICKNESS: i64 = 20_000;

/// Vertical height of a paddle, in milliunits (80 units).
pub const PADDLE_HEIGHT: i64 = 80_000;

/// A ball overlaps a ceiling/floor boundary when the vertical distance of
/// their centers is at most this: half the ball size plus half the wall
/// thickness, 15 units.
pub const BOUNDARY_THRESHOLD: i64 = 15_000;

/// Horizontal gate of the paddle overlap test: half the ball size plus half
/// the paddle thickness, 20 units.
pub const HORIZONTAL_THRESHOLD: i64 = 20_000;

/// Vertical gate of the paddle overlap test: half the ball size plus half the
/// paddle height, 50 units.
pub const VERTICAL_THRESHOLD: i64 = 50_000;

/// The paddles start at x = -250 and x = +250 units.
pub const PADDLE_START_X: i64 = 250_000;

/// The floor sits at y = -300 units, the ceiling at y = +300.
pub const BOUNDARY_Y: i64 = 300_000;

/// The cosmetic side walls sit at x = -300 and x = +300 units.
pub const WALL_X: i64 = 300_000;

/// Horizontal span of a boundary line, in milliunits; read only by a renderer.
pub const BOUNDARY_SPAN: i64 = 600_000;

/// Vertical span of a side wall, in milliunits; read only by a renderer.
pub const WALL_SPAN: i64 = 610_000;

/// Distance between two coordinates: `|a - b|` over unbounded integers.
pub open spec fn dist(a: int, b: int) -> int {
    if a >= b {
        a - b
    } else {
        b - a
    }
}

/// True when an unbounded integer is representable as an `i64`.
pub open spec fn fits_i64(v: int) -> bool {
    i64::MIN as int <= v <= i64::MAX as int
}

/// The single ball: center position and a velocity vector whose components
/// only ever flip sign after setup.
#[derive(Clone, Copy, PartialEq, Eq, Structural, Debug)]
pub struct Ball {
    pub x: i64,
    pub y: i64,
    pub vx: i64,
    pub vy: i64,
}

/// One of the two paddles. The index (0 or 1) selects the key binding and the
/// side it starts on; x never changes after setup, y moves with the keys.
#[derive(Clone, Copy, PartialEq, Eq, Structural, Debug)]
pub struct Paddle {
    pub index: usize,
    pub x: i64,
    pub y: i64,
}

impl Paddle {
    /// A paddle is well formed when its index names one of the two players.
    pub open spec fn wf(self) -> bool {
        self.index < 2
    }
}

/// A static ceiling or floor line the ball reflects off vertically.
#[derive(Clone, Copy, PartialEq, Eq, Structural, Debug)]
pub struct Boundary {
    pub x: i64,
    pub y: i64,
}

/// A cosmetic side wall; no collision logic consults it.
#[derive(Clone, Copy, PartialEq, Eq, Structural, Debug)]
pub struct Wall {
    pub x: i64,
    pub y: i64,
}

/// The whole entity store: exactly one ball, two paddles, two boundaries and
/// two walls, each held in its own typed field.
#[derive(Clone, Copy, PartialEq, Eq, Structural, Debug)]
pub struct World {
    pub ball: Ball,
    pub paddle0: Paddle,
    pub paddle1: Paddle,
    pub floor: Boundary,
    pub ceiling: Boundary,
    pub wall_left: Wall,
    pub wall_right: Wall,
}

impl World {
    /// The store is well formed when each paddle carries its own index.
    pub open spec fn wf(self) -> bool {
        self.paddle0.index == 0 && self.paddle1.index == 1
    }
}

/// The scene as built at startup: ball at the origin with velocity (-1, -2),
/// paddles at x = -250 and +250, floor and ceiling at y = -300 and +300,
/// side walls at x = -300 and +300.
pub open spec fn initial_world() -> World {
    World {
        ball: Ball { x: 0, y: 0, vx: (-1) as i64, vy: (-2) as i64 },
        paddle0: Paddle { index: 0, x: (-PADDLE_START_X) as i64, y: 0 },
        paddle1: Paddle { index: 1, x: PADDLE_START_X, y: 0 },
        floor: Boundary { x: 0, y: (-BOUNDARY_Y) as i64 },
        ceiling: Boundary { x: 0, y: BOUNDARY_Y },
        wall_left: Wall { x: (-WALL_X) as i64, y: 0 },
        wall_right: Wall { x: WALL_X, y: 0 },
    }
}

/// Builds the initial entity store.
pub fn setup() -> (w: World)
    ensures
        w == initial_world(),
        w.wf(),
{
    World {
        ball: Ball { x: 0, y: 0, vx: -1, vy: -2 },
        paddle0: Paddle { index: 0, x: -PADDLE_START_X, y: 0 },
        paddle1: Paddle { index: 1, x: PADDLE_START_X, y: 0 },
        floor: Boundary { x: 0, y: -BOUNDARY_Y },
        ceiling: Boundary { x: 0, y: BOUNDARY_Y },
        wall_left: Wall { x: -WALL_X, y: 0 },
        wall_right: Wall { x: WALL_X, y: 0 },
    }
}

} // verus!
