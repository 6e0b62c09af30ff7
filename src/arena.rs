//! Arena geometry, players and the conversion from display to simulation units.
use vstd::prelude::*;

verus! {

/// Fixed-point denominator: one display pixel, simulation unit or radian.
pub const UNIT: i64 = 1_000_000;

/// Arena width in pixels.
pub const ARENA_WIDTH: u32 = 1000;

/// Arena height in pixels.
pub const ARENA_HEIGHT: u32 = 600;

/// Horizontal middle of the arena in pixels.
pub const ARENA_MIDDLE: u32 = 500;

/// Paddle width in pixels.
pub const PADDLE_WIDTH: u32 = 15;

/// Paddle height in pixels.
pub const PADDLE_HEIGHT: u32 = 110;

/// Thickness of the top and bottom walls in pixels.
pub const WALL_THICKNESS: u32 = 20;

/// Horizontal distance in pixels from an arena side to the paddle of that side at spawn.
pub const PADDLE_OFFSET: u32 = 50;

/// Display pixels per simulation unit used by the game.
pub const DEFAULT_SCALE: u32 = 20;

/// One of the two players; the left one is ordered first.
#[derive(Debug, Clone, Copy, PartialEq, Eq, Structural, PartialOrd, Ord, Hash)]
pub enum Player {
    Left,
    Right,
}

/// Which of the two walls.
#[derive(Debug, Clone, Copy, PartialEq, Eq, Structural)]
pub enum WallSide {
    Top,
    Bottom,
}

/// A point in fixed point (millionths of a unit).
#[derive(Debug, Clone, Copy, PartialEq, Eq, Structural)]
pub struct Point {
    pub x: i64,
    pub y: i64,
}

/// `pixels` display pixels in millionths of a simulation unit, rounded toward zero.
pub open spec fn sim_of(pixels: int, scale: int) -> int {
    pixels * UNIT / scale
}

/// Converts a whole number of display pixels into millionths of a simulation unit.
pub fn to_sim(pixels: u32, scale: u32) -> (r: i64)
    requires
        scale > 0,
    ensures
        r == sim_of(pixels as int, scale as int),
        0 <= r <= pixels * UNIT,
{
    let p: i64 = pixels as i64;
    assert(0 <= p * UNIT <= 4_294_967_295 * UNIT) by (nonlinear_arith)
        requires
            0 <= p <= 4_294_967_295,
    ;
    let r: i64 = p * UNIT / (scale as i64);
    assert(r <= p * UNIT) by (nonlinear_arith)
        requires
            r == p * UNIT / (scale as int),
            scale >= 1,
            p * UNIT >= 0,
    ;
    r
}

/// The arena center in simulation units.
pub open spec fn center_spec(scale: int) -> Point {
    Point {
        x: sim_of(ARENA_MIDDLE as int, scale) as i64,
        y: sim_of((ARENA_HEIGHT / 2) as int, scale) as i64,
    }
}

/// The arena center, where the ball spawns and is put back after a goal.
pub fn arena_center(scale: u32) -> (r: Point)
    requires
        scale > 0,
    ensures
        r == center_spec(scale as int),
{
    Point { x: to_sim(ARENA_MIDDLE, scale), y: to_sim(ARENA_HEIGHT / 2, scale) }
}

/// Where a player's paddle spawns, in simulation units.
pub fn paddle_spawn(player: Player, scale: u32) -> (r: Point)
    requires
        scale > 0,
    ensures
        r.y == sim_of((ARENA_HEIGHT / 2) as int, scale as int),
        player == Player::Left ==> r.x == sim_of(PADDLE_OFFSET as int, scale as int),
        player == Player::Right ==> r.x == sim_of((ARENA_WIDTH - PADDLE_OFFSET) as int, scale as int),
{
    let x: u32 = match player {
        Player::Left => PADDLE_OFFSET,
        Player::Right => ARENA_WIDTH - PADDLE_OFFSET,
    };
    Point { x: to_sim(x, scale), y: to_sim(ARENA_HEIGHT / 2, scale) }
}

/// Center of a wall body, in simulation units: the walls span the arena's width
/// along its bottom and top edges.
pub fn wall_center(side: WallSide, scale: u32) -> (r: Point)
    requires
        scale > 0,
    ensures
        r.x == sim_of(ARENA_MIDDLE as int, scale as int),
        side == WallSide::Bottom ==> r.y == sim_of((WALL_THICKNESS / 2) as int, scale as int),
        side == WallSide::Top ==> r.y == sim_of((ARENA_HEIGHT - WALL_THICKNESS / 2) as int, scale as int),
{
    let y: u32 = match side {
        WallSide::Bottom => WALL_THICKNESS / 2,
        WallSide::Top => ARENA_HEIGHT - WALL_THICKNESS / 2,
    };
    Point { x: to_sim(ARENA_MIDDLE, scale), y: to_sim(y, scale) }
}

/// The identifier that a wall's collider carries.
pub fn wall_tag(side: WallSide) -> (r: u128)
    ensures
        side == WallSide::Top ==> r == 1,
        side == WallSide::Bottom ==> r == 2,
{
    match side {
        WallSide::Top => 1,
        WallSide::Bottom => 2,
    }
}

} // verus!
