//! Draws from the thread-local random number generator.
use rand::Rng;
use vstd::prelude::*;
use crate::combat::{AttackRolls, ROLL_RANGE};
use crate::geometry::{direction_of, drawn_direction, normalize, Direction, DIRECTION_SCALE};

verus! {

/// Relies on `rand::Rng::gen_range` over `rand::thread_rng()`: for a
/// non-empty half-open range `low..high` it returns a value inside the range.
/// It panics on an empty range, which `requires` leaves out.
#[verifier::external_body]
fn random_range(low: i64, high: i64) -> (r: i64)
    requires
        low < high,
    ensures
        low <= r < high,
{
    rand::thread_rng().gen_range(low..high)
}

/// A whole number drawn uniformly from `low..high`.
pub fn draw_in(low: i64, high: i64) -> (r: i64)
    requires
        low < high,
    ensures
        low <= r < high,
{
    random_range(low, high)
}

/// A percentage roll, drawn uniformly from `0..ROLL_RANGE`.
pub fn roll_percent() -> (r: u32)
    ensures
        r < ROLL_RANGE,
{
    random_range(0, ROLL_RANGE as i64) as u32
}

/// Fresh rolls for one attack.
pub fn draw_attack_rolls() -> (r: AttackRolls)
    ensures
        r.valid(),
{
    let hit = roll_percent();
    let evade = roll_percent();
    let critical = roll_percent();
    AttackRolls { hit, evade, critical }
}

/// A random direction: both components drawn uniformly from
/// `-DIRECTION_SCALE..DIRECTION_SCALE`, then scaled to unit length.
pub fn random_direction() -> (d: Direction)
    ensures
        drawn_direction(d),
{
    let x = random_range(-DIRECTION_SCALE, DIRECTION_SCALE);
    let y = random_range(-DIRECTION_SCALE, DIRECTION_SCALE);
    let d = normalize(x, y);
    assert(d == direction_of(x as int, y as int));
    d
}

} // verus!
