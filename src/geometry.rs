//! Positions, directions and distances on the plane, in fixed point.
//!
//! Coordinates are thousandths of a world unit. The world is a square of
//! `WORLD_LIMIT` thousandths on each side of the origin; a move that would
//! leave it stops at its edge. A direction is a vector whose length is
//! `DIRECTION_SCALE` (or zero), so each component lies within that bound.
use vstd::prelude::*;

verus! {

/// Thousandths of a world unit in one world unit.
pub const MILLIS_PER_UNIT: i64 = 1000;

/// Bound on each coordinate, in thousandths of a world unit.
pub const WORLD_LIMIT: i64 = 1_000_000_000_000_000;

/// Length of a unit direction vector.
pub const DIRECTION_SCALE: i64 = 1000;

/// Spatial quantum to which spawn positions snap: 32 world units.
pub const GRID_SIZE: i64 = 32_000;

/// Microseconds in one second.
pub const MICROS_PER_SECOND: i64 = 1_000_000;

#[derive(Clone, Copy, Debug, PartialEq, Eq, Structural)]
pub struct Position {
    pub x: i64,
    pub y: i64,
}

#[derive(Clone, Copy, Debug, PartialEq, Eq, Structural)]
pub struct Direction {
    pub x: i64,
    pub y: i64,
}

pub open spec fn clamp_coord(v: int) -> int {
    if v < -WORLD_LIMIT {
        -WORLD_LIMIT as int
    } else if v > WORLD_LIMIT {
        WORLD_LIMIT as int
    } else {
        v
    }
}

/// Division that rounds toward zero, as Rust's integer division does.
pub open spec fn div_trunc(a: int, b: int) -> int {
    if a >= 0 {
        a / b
    } else {
        -((-a) / b)
    }
}

/// Division that rounds to the nearest integer, halves away from zero.
pub open spec fn div_round(a: int, b: int) -> int {
    if a >= 0 {
        (a + b / 2) / b
    } else {
        -((-a + b / 2) / b)
    }
}

/// `r` is the integer square root of `n`.
pub open spec fn is_isqrt(n: int, r: int) -> bool {
    0 <= r && r * r <= n && n < (r + 1) * (r + 1)
}

/// The integer square root of `n`.
pub open spec fn isqrt_spec(n: int) -> int {
    choose|r: int| is_isqrt(n, r)
}

proof fn lemma_isqrt_unique(n: int, r1: int, r2: int)
    requires
        is_isqrt(n, r1),
        is_isqrt(n, r2),
    ensures
        r1 == r2,
{
    assert(r1 == r2) by (nonlinear_arith)
        requires
            0 <= r1,
            r1 * r1 <= n,
            n < (r1 + 1) * (r1 + 1),
            0 <= r2,
            r2 * r2 <= n,
            n < (r2 + 1) * (r2 + 1),
    {
        if r1 < r2 {
            assert((r1 + 1) * (r1 + 1) <= r2 * r2);
        } else if r2 < r1 {
            assert((r2 + 1) * (r2 + 1) <= r1 * r1);
        }
    }
}

pub open spec fn sq_dist(a: Position, b: Position) -> int {
    (a.x - b.x) * (a.x - b.x) + (a.y - b.y) * (a.y - b.y)
}

/// The vector `(dx, dy)` scaled to length `DIRECTION_SCALE`, each component
/// rounded toward zero; the zero vector stays zero. The length is taken in
/// units `DIRECTION_SCALE` times finer than the vector's own, so that short
/// vectors keep their direction: `scaled_len` is the integer square root of
/// `DIRECTION_SCALE^2 * (dx^2 + dy^2)`.
pub open spec fn unit_direction(dx: int, dy: int, scaled_len: int) -> Direction {
    if dx == 0 && dy == 0 {
        Direction { x: 0, y: 0 }
    } else {
        Direction {
            x: div_trunc(dx * DIRECTION_SCALE * DIRECTION_SCALE, scaled_len) as i64,
            y: div_trunc(dy * DIRECTION_SCALE * DIRECTION_SCALE, scaled_len) as i64,
        }
    }
}

/// The direction of `(dx, dy)`: see `unit_direction`.
pub open spec fn direction_of(dx: int, dy: int) -> Direction {
    unit_direction(
        dx,
        dy,
        isqrt_spec(DIRECTION_SCALE * DIRECTION_SCALE * (dx * dx + dy * dy)),
    )
}

/// A direction drawn at random: both components of a vector drawn from
/// `-DIRECTION_SCALE..DIRECTION_SCALE`, then scaled to unit length (zero
/// where both are zero).
pub open spec fn drawn_direction(d: Direction) -> bool {
    &&& d.valid()
    &&& exists|x: int, y: int|
        -DIRECTION_SCALE <= x < DIRECTION_SCALE && -DIRECTION_SCALE <= y < DIRECTION_SCALE && d
            == #[trigger] direction_of(x, y)
}

/// Distance covered along one component in `dt` microseconds at `speed`
/// world units per second, in thousandths of a unit.
pub open spec fn displacement(component: int, speed: int, dt: int) -> int {
    div_trunc(component * speed * dt, MICROS_PER_SECOND as int)
}

pub open spec fn moved(p: Position, d: Direction, speed: int, dt: int) -> Position {
    Position {
        x: clamp_coord(p.x + displacement(d.x as int, speed, dt)) as i64,
        y: clamp_coord(p.y + displacement(d.y as int, speed, dt)) as i64,
    }
}

pub open spec fn snapped(v: int) -> int {
    div_round(v, GRID_SIZE as int) * GRID_SIZE
}

impl Position {
    pub open spec fn valid(&self) -> bool {
        -WORLD_LIMIT <= self.x <= WORLD_LIMIT && -WORLD_LIMIT <= self.y <= WORLD_LIMIT
    }

    /// The point at `(x, y)`, each coordinate brought within the world.
    pub fn new(x: i64, y: i64) -> (p: Position)
        ensures
            p.x == clamp_coord(x as int),
            p.y == clamp_coord(y as int),
            p.valid(),
    {
        Position { x: clamp(x as i128), y: clamp(y as i128) }
    }
}

impl Direction {
    pub open spec fn valid(&self) -> bool {
        -DIRECTION_SCALE <= self.x <= DIRECTION_SCALE && -DIRECTION_SCALE <= self.y
            <= DIRECTION_SCALE
    }

    pub fn zero() -> (d: Direction)
        ensures
            d == (Direction { x: 0, y: 0 }),
    {
        Direction { x: 0, y: 0 }
    }
}

fn clamp(v: i128) -> (r: i64)
    ensures
        r == clamp_coord(v as int),
{
    if v < -(WORLD_LIMIT as i128) {
        -WORLD_LIMIT
    } else if v > WORLD_LIMIT as i128 {
        WORLD_LIMIT
    } else {
        v as i64
    }
}

fn div_trunc_exec(a: i128, b: i128) -> (r: i128)
    requires
        b > 0,
        a > i128::MIN,
    ensures
        r == div_trunc(a as int, b as int),
{
    if a >= 0 {
        ((a as u128) / (b as u128)) as i128
    } else {
        -((((-a) as u128) / (b as u128)) as i128)
    }
}

/// Squared Euclidean distance between two points of the world.
pub fn distance_squared(a: &Position, b: &Position) -> (d: u128)
    requires
        a.valid(),
        b.valid(),
    ensures
        d == sq_dist(*a, *b),
        d <= 8 * WORLD_LIMIT * WORLD_LIMIT,
{
    let dx: i128 = a.x as i128 - b.x as i128;
    let dy: i128 = a.y as i128 - b.y as i128;
    proof {
        let w = 2 * WORLD_LIMIT as int;
        assert(dx * dx <= w * w) by (nonlinear_arith)
            requires
                -w <= dx <= w,
        ;
        assert(dy * dy <= w * w) by (nonlinear_arith)
            requires
                -w <= dy <= w,
        ;
        assert(0 <= dx * dx && 0 <= dy * dy) by (nonlinear_arith);
    }
    (dx * dx + dy * dy) as u128
}

/// Whether `b` lies at distance at most `radius` from `a`.
pub fn within(a: &Position, b: &Position, radius: i64) -> (r: bool)
    requires
        a.valid(),
        b.valid(),
        radius >= 0,
    ensures
        r == (sq_dist(*a, *b) <= radius * radius),
{
    let d = distance_squared(a, b);
    assert(radius * radius <= 0x7fff_ffff_ffff_ffff * 0x7fff_ffff_ffff_ffff) by (nonlinear_arith)
        requires
            0 <= radius <= 0x7fff_ffff_ffff_ffff,
    ;
    let rr: u128 = radius as u128 * radius as u128;
    d <= rr
}

/// Whether `b` lies at distance strictly less than `radius` from `a`.
pub fn closer_than(a: &Position, b: &Position, radius: i64) -> (r: bool)
    requires
        a.valid(),
        b.valid(),
        radius >= 0,
    ensures
        r == (sq_dist(*a, *b) < radius * radius),
{
    let d = distance_squared(a, b);
    assert(radius * radius <= 0x7fff_ffff_ffff_ffff * 0x7fff_ffff_ffff_ffff) by (nonlinear_arith)
        requires
            0 <= radius <= 0x7fff_ffff_ffff_ffff,
    ;
    let rr: u128 = radius as u128 * radius as u128;
    d < rr
}

/// Bound on the argument of `isqrt`.
pub const ISQRT_LIMIT: u128 = 10_000_000_000_000_000_000_000_000_000_000_000_000;

/// Integer square root: the largest `r` with `r * r <= n`.
pub fn isqrt(n: u128) -> (r: u128)
    requires
        n <= ISQRT_LIMIT,
    ensures
        is_isqrt(n as int, r as int),
        r == isqrt_spec(n as int),
        r <= 0x7fff_ffff_ffff_ffff,
{
    let mut lo: u128 = 0;
    let mut hi: u128 = 0x8000_0000_0000_0000;
    assert(n < hi * hi);
    while lo + 1 < hi
        invariant
            lo < hi <= 0x8000_0000_0000_0000,
            lo * lo <= n,
            n < hi * hi,
        decreases hi - lo,
    {
        let mid: u128 = lo + (hi - lo) / 2;
        assert(mid * mid < 0x8000_0000_0000_0000 * 0x8000_0000_0000_0000) by (nonlinear_arith)
            requires
                mid < 0x8000_0000_0000_0000,
        ;
        if mid * mid <= n {
            lo = mid;
        } else {
            hi = mid;
        }
    }
    proof {
        assert(is_isqrt(n as int, lo as int));
        lemma_isqrt_unique(n as int, lo as int, isqrt_spec(n as int));
    }
    lo
}

/// The direction of `(dx, dy)`, scaled to length `DIRECTION_SCALE` with
/// components rounded toward zero; the zero vector gives the zero direction.
pub fn normalize(dx: i64, dy: i64) -> (d: Direction)
    requires
        -2 * WORLD_LIMIT <= dx <= 2 * WORLD_LIMIT,
        -2 * WORLD_LIMIT <= dy <= 2 * WORLD_LIMIT,
    ensures
        d.valid(),
        d == direction_of(dx as int, dy as int),
{
    if dx == 0 && dy == 0 {
        return Direction::zero();
    }
    let x: i128 = dx as i128 * 1000;
    let y: i128 = dy as i128 * 1000;
    proof {
        assert(x * x <= 2_000_000_000_000_000_000 * 2_000_000_000_000_000_000) by (nonlinear_arith)
            requires
                -2_000_000_000_000_000_000 <= x <= 2_000_000_000_000_000_000,
        ;
        assert(y * y <= 2_000_000_000_000_000_000 * 2_000_000_000_000_000_000) by (nonlinear_arith)
            requires
                -2_000_000_000_000_000_000 <= y <= 2_000_000_000_000_000_000,
        ;
        assert(0 <= x * x && 0 <= y * y) by (nonlinear_arith);
        assert(x * x + y * y > 0) by (nonlinear_arith)
            requires
                x != 0 || y != 0,
        ;
        assert(x * x + y * y == 1000 * 1000 * (dx * dx + dy * dy)) by (nonlinear_arith)
            requires
                x == dx * 1000,
                y == dy * 1000,
        ;
    }
    let n: u128 = (x * x + y * y) as u128;
    let len: u128 = isqrt(n);
    let l: i128 = len as i128;
    proof {
        assert(len >= 1) by (nonlinear_arith)
            requires
                n > 0,
                n < (len + 1) * (len + 1),
                len >= 0,
        ;
        assert(-l <= x <= l) by (nonlinear_arith)
            requires
                x * x <= n,
                n < (l + 1) * (l + 1),
                l >= 0,
        ;
        assert(-l <= y <= l) by (nonlinear_arith)
            requires
                y * y <= n,
                n < (l + 1) * (l + 1),
                l >= 0,
        ;
    }
    let qx = div_trunc_exec(x * 1000, l);
    let qy = div_trunc_exec(y * 1000, l);
    proof {
        assert(-1000 <= qx <= 1000) by (nonlinear_arith)
            requires
                qx == div_trunc(x * 1000, l as int),
                -l <= x <= l,
                l >= 1,
        ;
        assert(-1000 <= qy <= 1000) by (nonlinear_arith)
            requires
                qy == div_trunc(y * 1000, l as int),
                -l <= y <= l,
                l >= 1,
        ;
        assert(x * 1000 == dx * DIRECTION_SCALE * DIRECTION_SCALE);
        assert(y * 1000 == dy * DIRECTION_SCALE * DIRECTION_SCALE);
    }
    Direction { x: qx as i64, y: qy as i64 }
}

/// The direction from `from` toward `to`, zero where the two coincide.
pub fn direction_toward(from: &Position, to: &Position) -> (d: Direction)
    requires
        from.valid(),
        to.valid(),
    ensures
        d.valid(),
        d == direction_of(to.x - from.x, to.y - from.y),
{
    normalize(to.x - from.x, to.y - from.y)
}

/// `p` moved along `d` at `speed` world units per second for `dt`
/// microseconds, each component rounded toward zero, and kept within the world.
pub fn move_along(p: &Position, d: &Direction, speed: u32, dt: u64) -> (q: Position)
    requires
        p.valid(),
        d.valid(),
    ensures
        q == moved(*p, *d, speed as int, dt as int),
        q.valid(),
{
    let s: i128 = speed as i128;
    let t: i128 = dt as i128;
    let dx: i128 = d.x as i128;
    let dy: i128 = d.y as i128;
    proof {
        let bound: int = (1000 * 0x1_0000_0000 * 0x1_0000_0000_0000_0000) as int;
        assert(-1000 * 0x1_0000_0000 <= dx * s <= 1000 * 0x1_0000_0000) by (nonlinear_arith)
            requires
                -1000 <= dx <= 1000,
                0 <= s < 0x1_0000_0000,
        ;
        assert(-1000 * 0x1_0000_0000 <= dy * s <= 1000 * 0x1_0000_0000) by (nonlinear_arith)
            requires
                -1000 <= dy <= 1000,
                0 <= s < 0x1_0000_0000,
        ;
        assert(-bound <= dx * s * t <= bound) by (nonlinear_arith)
            requires
                -1000 <= dx <= 1000,
                0 <= s < 0x1_0000_0000,
                0 <= t < 0x1_0000_0000_0000_0000,
                bound == 1000 * 0x1_0000_0000 * 0x1_0000_0000_0000_0000,
        ;
        assert(-bound <= dy * s * t <= bound) by (nonlinear_arith)
            requires
                -1000 <= dy <= 1000,
                0 <= s < 0x1_0000_0000,
                0 <= t < 0x1_0000_0000_0000_0000,
                bound == 1000 * 0x1_0000_0000 * 0x1_0000_0000_0000_0000,
        ;
    }
    let mx = div_trunc_exec(dx * s * t, MICROS_PER_SECOND as i128);
    let my = div_trunc_exec(dy * s * t, MICROS_PER_SECOND as i128);
    Position { x: clamp(p.x as i128 + mx), y: clamp(p.y as i128 + my) }
}

fn snap_coord(v: i64) -> (r: i64)
    requires
        -WORLD_LIMIT <= v <= WORLD_LIMIT,
    ensures
        r == snapped(v as int),
        -WORLD_LIMIT <= r <= WORLD_LIMIT,
{
    if v >= 0 {
        let q: i64 = (v + GRID_SIZE / 2) / GRID_SIZE;
        assert(q * GRID_SIZE <= WORLD_LIMIT);
        q * GRID_SIZE
    } else {
        let q: i64 = (-v + GRID_SIZE / 2) / GRID_SIZE;
        assert(q * GRID_SIZE <= WORLD_LIMIT);
        -(q * GRID_SIZE)
    }
}

/// Rounds each coordinate to the nearest multiple of `GRID_SIZE`, halves away
/// from zero.
pub fn snap_to_grid(p: &Position) -> (q: Position)
    requires
        p.valid(),
    ensures
        q == (Position { x: snapped(p.x as int) as i64, y: snapped(p.y as int) as i64 }),
        q.valid(),
{
    Position { x: snap_coord(p.x), y: snap_coord(p.y) }
}

} // verus!
