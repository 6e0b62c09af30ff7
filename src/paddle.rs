//! Paddle controller: keys to a clamped linear velocity and a rotation command.
use vstd::prelude::*;
use crate::arena::{sim_of, to_sim, Player, ARENA_MIDDLE, ARENA_WIDTH, PADDLE_WIDTH, UNIT};

verus! {

/// Paddle speed in pixels per second.
pub const PADDLE_SPEED: u32 = 600;

/// Angular speed of a rotating paddle, in micro-radians per second.
pub const ANGULAR_SPEED: i64 = 3_000_000;

/// Angle in micro-radians past which a paddle is no longer turned further.
pub const MAX_ANGLE: i64 = 800_000;

/// A key that steers a paddle.
#[derive(Debug, Clone, Copy, PartialEq, Eq, Structural, Hash)]
pub enum Key {
    A,
    D,
    S,
    W,
    Q,
    E,
    Numpad4,
    Numpad6,
    Numpad5,
    Numpad8,
    Numpad7,
    Numpad9,
}

/// The key of each paddle action of one player.
#[derive(Debug, Clone, Copy, PartialEq, Eq, Structural)]
pub struct KeyBindings {
    pub move_left: Key,
    pub move_right: Key,
    pub move_up: Key,
    pub move_down: Key,
    pub rotate_left: Key,
    pub rotate_right: Key,
}

/// Which paddle actions of one player are held this frame.
#[derive(Debug, Clone, Copy, PartialEq, Eq, Structural, Default)]
pub struct PaddleKeys {
    pub move_left: bool,
    pub move_right: bool,
    pub move_up: bool,
    pub move_down: bool,
    pub rotate_left: bool,
    pub rotate_right: bool,
}

/// A velocity in millionths of a simulation unit per second.
#[derive(Debug, Clone, Copy, PartialEq, Eq, Structural)]
pub struct Velocity {
    pub x: i64,
    pub y: i64,
}

/// Position and angle of a paddle body as read from the engine.
#[derive(Debug, Clone, Copy, PartialEq, Eq, Structural)]
pub struct Pose {
    /// Millionths of a simulation unit.
    pub x: i64,
    /// Millionths of a simulation unit.
    pub y: i64,
    /// Micro-radians.
    pub angle: i64,
}

/// What one frame asks of a paddle body.
#[derive(Debug, Clone, Copy, PartialEq, Eq, Structural)]
pub struct PaddleCommand {
    /// The linear velocity to set (waking the body).
    pub velocity: Velocity,
    /// The horizontal position to move the body to, where it is out of bounds.
    pub clamp_x: Option<i64>,
    /// The angular velocity to set, in micro-radians per second.
    pub angular_velocity: i64,
}

pub open spec fn bindings_spec(player: Player) -> KeyBindings {
    match player {
        Player::Left => KeyBindings {
            move_left: Key::A,
            move_right: Key::D,
            move_up: Key::W,
            move_down: Key::S,
            rotate_left: Key::Q,
            rotate_right: Key::E,
        },
        Player::Right => KeyBindings {
            move_left: Key::Numpad4,
            move_right: Key::Numpad6,
            move_up: Key::Numpad8,
            move_down: Key::Numpad5,
            rotate_left: Key::Numpad7,
            rotate_right: Key::Numpad9,
        },
    }
}

/// The keys of a player: WASD with Q and E on the left, the number pad on the right.
pub fn bindings(player: Player) -> (r: KeyBindings)
    ensures
        r == bindings_spec(player),
{
    match player {
        Player::Left => KeyBindings {
            move_left: Key::A,
            move_right: Key::D,
            move_up: Key::W,
            move_down: Key::S,
            rotate_left: Key::Q,
            rotate_right: Key::E,
        },
        Player::Right => KeyBindings {
            move_left: Key::Numpad4,
            move_right: Key::Numpad6,
            move_up: Key::Numpad8,
            move_down: Key::Numpad5,
            rotate_left: Key::Numpad7,
            rotate_right: Key::Numpad9,
        },
    }
}

pub open spec fn held(b: bool) -> int {
    if b {
        1
    } else {
        0
    }
}

/// One axis from its two keys: +1, -1, or 0 when neither or both are held.
pub fn axis(negative: bool, positive: bool) -> (r: i8)
    ensures
        r == held(positive) - held(negative),
        -1 <= r <= 1,
        negative && positive ==> r == 0,
{
    (positive as i8) - (negative as i8)
}

/// The direction of travel that the movement keys ask for, one axis at a time.
pub fn move_direction(keys: PaddleKeys) -> (r: (i8, i8))
    ensures
        r.0 == held(keys.move_right) - held(keys.move_left),
        r.1 == held(keys.move_up) - held(keys.move_down),
{
    (axis(keys.move_left, keys.move_right), axis(keys.move_down, keys.move_up))
}

/// The rotation direction: +1 turns counter-clockwise (rotate left).
pub fn rotation_direction(keys: PaddleKeys) -> (r: i8)
    ensures
        r == held(keys.rotate_left) - held(keys.rotate_right),
{
    axis(keys.rotate_right, keys.rotate_left)
}


/// The paddle speed `speed` (pixels per second) in millionths of a simulation unit per second.
pub open spec fn travel_speed(speed: int, scale: int) -> int {
    sim_of(speed, scale)
}

/// `d` is the diagonal component of a speed `m`: `m / sqrt(2)` rounded down.
pub open spec fn is_diagonal_of(d: int, m: int) -> bool {
    0 <= d && 2 * d * d <= m * m < 2 * (d + 1) * (d + 1)
}

/// The velocity commanded for direction `(dx, dy)`: the direction made unit
/// length and multiplied by the travel speed, each component rounded toward zero.
pub open spec fn velocity_spec(dx: int, dy: int, m: int, d: int) -> Velocity {
    if dx != 0 && dy != 0 {
        Velocity { x: (dx * d) as i64, y: (dy * d) as i64 }
    } else {
        Velocity { x: (dx * m) as i64, y: (dy * m) as i64 }
    }
}

/// The largest `d` with `2 * d * d <= m * m`.
fn diagonal_component(m: i64) -> (d: i64)
    requires
        0 <= m <= 4_294_967_295 * UNIT,
    ensures
        is_diagonal_of(d as int, m as int),
        d <= m,
{
    assert((m as u128) * (m as u128) <= 4_294_967_295 * UNIT * 4_294_967_295 * UNIT)
        by (nonlinear_arith)
        requires
            0 <= m <= 4_294_967_295 * UNIT,
    ;
    let mm: u128 = (m as u128) * (m as u128);
    let mut lo: u128 = 0;
    let mut hi: u128 = (m as u128) + 1;
    assert(2 * hi * hi > mm) by (nonlinear_arith)
        requires
            hi == m + 1,
            mm == m * m,
            m >= 0,
    ;
    while lo + 1 < hi
        invariant
            0 <= lo < hi <= m + 1,
            m <= 4_294_967_295 * UNIT,
            mm == m * m,
            2 * lo * lo <= mm,
            2 * hi * hi > mm,
        decreases hi - lo,
    {
        let mid: u128 = lo + (hi - lo) / 2;
        assert(2 * mid * mid <= 2 * 4_294_967_296_000_000 * 4_294_967_296_000_000)
            by (nonlinear_arith)
            requires
                0 <= mid <= 4_294_967_296_000_000,
        ;
        if 2 * mid * mid <= mm {
            lo = mid;
        } else {
            hi = mid;
        }
    }
    assert(lo <= m) by (nonlinear_arith)
        requires
            2 * lo * lo <= m * m,
            lo >= 0,
            m >= 0,
    ;
    lo as i64
}

/// `v` with the sign `s` in {-1, 0, 1}.
fn signed(s: i8, v: i64) -> (r: i64)
    requires
        -1 <= s <= 1,
        0 <= v,
    ensures
        r == (s as int) * (v as int),
{
    if s > 0 {
        assert(s == 1);
        v
    } else if s < 0 {
        assert(s == -1);
        -v
    } else {
        0
    }
}

/// The linear velocity for a direction with components in {-1, 0, 1}: zero when
/// no key is held, else the direction scaled to the paddle's travel speed.
pub fn linear_velocity(dx: i8, dy: i8, speed: u32, scale: u32) -> (r: Velocity)
    requires
        -1 <= dx <= 1,
        -1 <= dy <= 1,
        scale > 0,
    ensures
        exists|d: int|
            is_diagonal_of(d, travel_speed(speed as int, scale as int)) && r == velocity_spec(
                dx as int,
                dy as int,
                travel_speed(speed as int, scale as int),
                d,
            ),
{
    let m: i64 = to_sim(speed, scale);
    assert(m <= 4_294_967_295 * UNIT) by (nonlinear_arith)
        requires
            m <= speed * UNIT,
            speed <= 4_294_967_295,
    ;
    let d: i64 = diagonal_component(m);
    let r = if dx != 0 && dy != 0 {
        Velocity { x: signed(dx, d), y: signed(dy, d) }
    } else {
        Velocity { x: signed(dx, m), y: signed(dy, m) }
    };
    let ghost ms = travel_speed(speed as int, scale as int);
    assert(is_diagonal_of(d as int, ms) && r == velocity_spec(dx as int, dy as int, ms, d as int));
    r
}

/// Squared length of a velocity.
pub open spec fn squared_speed(v: Velocity) -> int {
    v.x * v.x + v.y * v.y
}

/// Whatever keys are held, a moving paddle goes at its travel speed `m`: along
/// an axis the commanded velocity has length exactly `m`; on a diagonal its
/// components are rounded down, so its squared length `|v|^2` satisfies
/// `m * m - 4 * m - 2 < |v|^2 <= m * m`.
pub proof fn lemma_commanded_speed(dx: int, dy: int, speed: u32, scale: u32, d: int)
    requires
        -1 <= dx <= 1,
        -1 <= dy <= 1,
        dx != 0 || dy != 0,
        scale > 0,
        is_diagonal_of(d, travel_speed(speed as int, scale as int)),
    ensures
        ({
            let m = travel_speed(speed as int, scale as int);
            let v = velocity_spec(dx, dy, m, d);
            &&& squared_speed(v) <= m * m
            &&& m * m - 4 * m - 2 < squared_speed(v)
            &&& (dx == 0 || dy == 0) ==> squared_speed(v) == m * m
        }),
{
    let m = travel_speed(speed as int, scale as int);
    assert(0 <= m <= 4_294_967_295 * UNIT) by (nonlinear_arith)
        requires
            m == speed * UNIT / (scale as int),
            0 <= speed <= 4_294_967_295,
            scale >= 1,
    ;
    assert(d <= m) by (nonlinear_arith)
        requires
            2 * d * d <= m * m,
            d >= 0,
            m >= 0,
    ;
    assert(dx * dx <= 1 && dy * dy <= 1 && dx * dx >= 0 && dy * dy >= 0) by (nonlinear_arith)
        requires
            -1 <= dx <= 1,
            -1 <= dy <= 1,
    ;
    if dx != 0 && dy != 0 {
        assert(dx * dx == 1 && dy * dy == 1) by (nonlinear_arith)
            requires
                -1 <= dx <= 1,
                -1 <= dy <= 1,
                dx != 0,
                dy != 0,
        ;
        assert(-m <= dx * d <= m && -m <= dy * d <= m) by (nonlinear_arith)
            requires
                -1 <= dx <= 1,
                -1 <= dy <= 1,
                0 <= d <= m,
        ;
        let v = velocity_spec(dx, dy, m, d);
        assert(squared_speed(v) == 2 * d * d) by (nonlinear_arith)
            requires
                v.x == dx * d,
                v.y == dy * d,
                dx * dx == 1,
                dy * dy == 1,
        ;
        assert(m * m - 4 * m - 2 < 2 * d * d) by (nonlinear_arith)
            requires
                m * m < 2 * (d + 1) * (d + 1),
                0 <= d <= m,
        ;
    } else {
        assert(-m <= dx * m <= m && -m <= dy * m <= m) by (nonlinear_arith)
            requires
                -1 <= dx <= 1,
                -1 <= dy <= 1,
                0 <= m,
        ;
        assert(dx * dx + dy * dy == 1) by (nonlinear_arith)
            requires
                -1 <= dx <= 1,
                -1 <= dy <= 1,
                dx == 0 || dy == 0,
                dx != 0 || dy != 0,
        ;
        let v = velocity_spec(dx, dy, m, d);
        assert(squared_speed(v) == m * m) by (nonlinear_arith)
            requires
                v.x == dx * m,
                v.y == dy * m,
                dx == 0 || dy == 0,
                dx * dx + dy * dy == 1,
        ;
        assert(m * m - 4 * m - 2 < m * m);
    }
}

/// The horizontal range a player's paddle is kept in, in simulation units.
pub open spec fn bounds_spec(player: Player, scale: int) -> (int, int) {
    match player {
        Player::Left => (
            sim_of(PADDLE_WIDTH as int, scale),
            sim_of(ARENA_MIDDLE - PADDLE_WIDTH, scale),
        ),
        Player::Right => (
            sim_of(ARENA_MIDDLE + PADDLE_WIDTH, scale),
            sim_of(ARENA_WIDTH - PADDLE_WIDTH, scale),
        ),
    }
}

/// The horizontal range of a player's paddle: its half of the arena, a paddle
/// width in from each end.
pub fn horizontal_bounds(player: Player, scale: u32) -> (r: (i64, i64))
    requires
        scale > 0,
    ensures
        r.0 == bounds_spec(player, scale as int).0,
        r.1 == bounds_spec(player, scale as int).1,
        r.0 <= r.1,
{
    let (lo, hi): (u32, u32) = match player {
        Player::Left => (PADDLE_WIDTH, ARENA_MIDDLE - PADDLE_WIDTH),
        Player::Right => (ARENA_MIDDLE + PADDLE_WIDTH, ARENA_WIDTH - PADDLE_WIDTH),
    };
    let a: i64 = to_sim(lo, scale);
    let b: i64 = to_sim(hi, scale);
    assert(a <= b) by (nonlinear_arith)
        requires
            a == lo * UNIT / (scale as int),
            b == hi * UNIT / (scale as int),
            lo <= hi,
            scale > 0,
    ;
    (a, b)
}

/// Where a paddle at `x` is moved to: the lower bound when below it, the upper
/// bound when above it, nowhere when inside.
pub open spec fn clamp_spec(player: Player, x: int, scale: int) -> Option<i64> {
    let (lo, hi) = bounds_spec(player, scale);
    if x < lo {
        Some(lo as i64)
    } else if x > hi {
        Some(hi as i64)
    } else {
        None
    }
}

/// The horizontal position after the clamp.
pub open spec fn clamped_x(player: Player, x: int, scale: int) -> int {
    match clamp_spec(player, x, scale) {
        Some(b) => b as int,
        None => x,
    }
}

/// The position to move a paddle at horizontal position `x` to, if it is out of bounds.
pub fn clamp_x(player: Player, x: i64, scale: u32) -> (r: Option<i64>)
    requires
        scale > 0,
    ensures
        r == clamp_spec(player, x as int, scale as int),
{
    let (lo, hi) = horizontal_bounds(player, scale);
    if x < lo {
        Some(lo)
    } else if x > hi {
        Some(hi)
    } else {
        None
    }
}

/// After the clamp a paddle is within its player's bounds, wherever it was;
/// a paddle already within them is not moved.
pub proof fn lemma_clamp_within_bounds(player: Player, x: int, scale: u32)
    requires
        scale > 0,
    ensures
        bounds_spec(player, scale as int).0 <= clamped_x(player, x, scale as int) <= bounds_spec(
            player,
            scale as int,
        ).1,
        bounds_spec(player, scale as int).0 <= x <= bounds_spec(player, scale as int).1
            ==> clamped_x(player, x, scale as int) == x,
{
    let b = bounds_spec(player, scale as int);
    assert(0 <= b.0 <= b.1 <= ARENA_WIDTH * UNIT) by (nonlinear_arith)
        requires
            scale >= 1,
            player == Player::Left ==> b.0 == PADDLE_WIDTH * UNIT / (scale as int) && b.1 == (
            ARENA_MIDDLE - PADDLE_WIDTH) * UNIT / (scale as int),
            player == Player::Right ==> b.0 == (ARENA_MIDDLE + PADDLE_WIDTH) * UNIT / (
            scale as int) && b.1 == (ARENA_WIDTH - PADDLE_WIDTH) * UNIT / (scale as int),
    ;
}

pub open spec fn angular_spec(direction: int, angle: int) -> int {
    let rotation = direction * ANGULAR_SPEED;
    if rotation > 0 && angle <= MAX_ANGLE {
        rotation
    } else if rotation < 0 && angle >= -MAX_ANGLE {
        rotation
    } else {
        0
    }
}

/// The angular velocity for a rotation direction in {-1, 0, 1} at the current
/// angle: the paddle turns while its angle is within the limit on the side it
/// turns toward, and is stopped otherwise.
pub fn angular_velocity(direction: i8, angle: i64) -> (r: i64)
    requires
        -1 <= direction <= 1,
    ensures
        r == angular_spec(direction as int, angle as int),
        direction == 0 ==> r == 0,
{
    let rotation: i64 = (direction as i64) * ANGULAR_SPEED;
    if rotation > 0 && angle <= MAX_ANGLE {
        rotation
    } else if rotation < 0 && angle >= -MAX_ANGLE {
        rotation
    } else {
        0
    }
}

/// One frame of a paddle: the velocity from the movement keys, the clamp of the
/// horizontal position, and the rotation command. Nothing is commanded for a
/// body that the engine could not find.
pub fn paddle_update(player: Player, keys: PaddleKeys, speed: u32, scale: u32, body: Option<
    Pose,
>) -> (r: Option<PaddleCommand>)
    requires
        scale > 0,
    ensures
        body is None ==> r is None,
        body matches Some(pose) ==> r matches Some(c) && {
            let dx = held(keys.move_right) - held(keys.move_left);
            let dy = held(keys.move_up) - held(keys.move_down);
            let m = travel_speed(speed as int, scale as int);
            &&& exists|d: int| is_diagonal_of(d, m) && c.velocity == velocity_spec(dx, dy, m, d)
            &&& c.clamp_x == clamp_spec(player, pose.x as int, scale as int)
            &&& c.angular_velocity == angular_spec(
                held(keys.rotate_left) - held(keys.rotate_right),
                pose.angle as int,
            )
        },
{
    match body {
        None => None,
        Some(pose) => {
            let (dx, dy) = move_direction(keys);
            let velocity = linear_velocity(dx, dy, speed, scale);
            let clamp = clamp_x(player, pose.x, scale);
            let angular = angular_velocity(rotation_direction(keys), pose.angle);
            Some(PaddleCommand { velocity, clamp_x: clamp, angular_velocity: angular })
        },
    }
}

} // verus!
