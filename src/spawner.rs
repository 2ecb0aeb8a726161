//! The population-capped, timer-gated monster spawner.
use vstd::prelude::*;
use crate::geometry::{drawn_direction, snap_to_grid, snapped, Direction, Position};
use crate::monster::{Monster, MonsterMovement, MonsterState};
use crate::monster_type::{select_tier, tier_of_roll, MonsterType, TIER_ROLL_RANGE};
use crate::random::{draw_in, random_direction};
use crate::stats::Stats;
use crate::timer::RepeatingTimer;

verus! {

/// No monster spawns while this many are alive.
pub const POPULATION_CAP: usize = 20;

/// Period of the respawn timer: one second, in microseconds.
pub const RESPAWN_INTERVAL: u64 = 1_000_000;

/// Spawn positions are drawn from a square reaching this far from the origin
/// on each axis: 250 world units.
pub const SPAWN_HALF_EXTENT: i64 = 250_000;

/// A new monster re-randomises its wander direction with a period drawn from
/// `WANDER_PERIOD_MIN..WANDER_PERIOD_MAX` microseconds: two to five seconds.
pub const WANDER_PERIOD_MIN: u64 = 2_000_000;

pub const WANDER_PERIOD_MAX: u64 = 5_000_000;

/// Period of a new monster's attack timer: two seconds.
pub const ATTACK_PERIOD: u64 = 2_000_000;

/// The random values that make one new monster.
#[derive(Clone, Copy, Debug, PartialEq, Eq, Structural)]
pub struct SpawnDraws {
    pub x: i64,
    pub y: i64,
    pub tier_roll: u32,
    pub direction: Direction,
    pub wander_period: u64,
}

impl SpawnDraws {
    pub open spec fn valid(&self) -> bool {
        &&& -SPAWN_HALF_EXTENT <= self.x < SPAWN_HALF_EXTENT
        &&& -SPAWN_HALF_EXTENT <= self.y < SPAWN_HALF_EXTENT
        &&& self.tier_roll < TIER_ROLL_RANGE
        &&& drawn_direction(self.direction)
        &&& WANDER_PERIOD_MIN <= self.wander_period < WANDER_PERIOD_MAX
    }
}

/// The monster that `draws` make: its position snapped to the grid, the tier
/// of its roll with that tier's stats and speeds, the drawn wander direction
/// and period, a fresh attack timer, and the configured initial state.
pub open spec fn spawned_monster(draws: SpawnDraws, initial_state: MonsterState) -> Monster {
    let tier = tier_of_roll(draws.tier_roll as int);
    Monster {
        position: Position { x: snapped(draws.x as int) as i64, y: snapped(draws.y as int) as i64 },
        monster_type: tier,
        stats: Stats::monster_stats_spec(tier),
        state: initial_state,
        movement: MonsterMovement {
            direction: draws.direction,
            idle_speed: tier.speeds_spec().0,
            aggressive_speed: tier.speeds_spec().1,
        },
        movement_timer: RepeatingTimer { duration: draws.wander_period, elapsed: 0, finished: false },
        attack_timer: RepeatingTimer { duration: ATTACK_PERIOD, elapsed: 0, finished: false },
    }
}

/// `m` is a monster made from some valid random draws.
pub open spec fn spawned_from_draw(m: Monster, initial_state: MonsterState) -> bool {
    exists|d: SpawnDraws| d.valid() && m == #[trigger] spawned_monster(d, initial_state)
}

/// Fresh random values for a new monster.
pub fn draw_spawn() -> (d: SpawnDraws)
    ensures
        d.valid(),
{
    let x = draw_in(-SPAWN_HALF_EXTENT, SPAWN_HALF_EXTENT);
    let y = draw_in(-SPAWN_HALF_EXTENT, SPAWN_HALF_EXTENT);
    let tier_roll = draw_in(0, TIER_ROLL_RANGE as i64) as u32;
    let direction = random_direction();
    let wander_period = draw_in(WANDER_PERIOD_MIN as i64, WANDER_PERIOD_MAX as i64) as u64;
    SpawnDraws { x, y, tier_roll, direction, wander_period }
}

/// A new monster of the given tier at `position`: the tier's stats and
/// speeds, the given wander direction and period, a fresh attack timer of
/// `ATTACK_PERIOD`.
pub fn new_monster(
    position: Position,
    monster_type: MonsterType,
    state: MonsterState,
    direction: Direction,
    wander_period: u64,
) -> (m: Monster)
    requires
        position.valid(),
        direction.valid(),
    ensures
        m == (Monster {
            position,
            monster_type,
            stats: Stats::monster_stats_spec(monster_type),
            state,
            movement: MonsterMovement {
                direction,
                idle_speed: monster_type.speeds_spec().0,
                aggressive_speed: monster_type.speeds_spec().1,
            },
            movement_timer: RepeatingTimer::new_spec(wander_period),
            attack_timer: RepeatingTimer::new_spec(ATTACK_PERIOD),
        }),
        m.valid(),
{
    let (idle_speed, aggressive_speed) = monster_type.speeds();
    Monster {
        position,
        monster_type,
        stats: Stats::monster_stats(monster_type),
        state,
        movement: MonsterMovement { direction, idle_speed, aggressive_speed },
        movement_timer: RepeatingTimer::new(wander_period),
        attack_timer: RepeatingTimer::new(ATTACK_PERIOD),
    }
}

/// Builds the monster that `draws` make.
pub fn spawn_monster(draws: SpawnDraws, initial_state: MonsterState) -> (m: Monster)
    requires
        draws.valid(),
    ensures
        m == spawned_monster(draws, initial_state),
        m.valid(),
{
    let tier = select_tier(draws.tier_roll);
    let position = snap_to_grid(&Position { x: draws.x, y: draws.y });
    new_monster(position, tier, initial_state, draws.direction, draws.wander_period)
}

/// Whether a spawner tick makes a monster: the respawn timer fires and the
/// population is below the cap.
pub open spec fn spawns(timer: RepeatingTimer, dt: int, live: int) -> bool {
    timer.elapsed + dt >= timer.duration && live < POPULATION_CAP
}

/// One spawner tick: ticks the respawn timer and, when it fires with fewer
/// than `POPULATION_CAP` monsters alive, makes a monster from `draws`.
pub fn respawn_step(
    timer: &mut RepeatingTimer,
    dt: u64,
    live: usize,
    draws: SpawnDraws,
    initial_state: MonsterState,
) -> (spawned: Option<Monster>)
    requires
        old(timer).valid(),
        draws.valid(),
    ensures
        final(timer).valid(),
        final(timer).duration == old(timer).duration,
        final(timer).finished == (old(timer).elapsed + dt >= old(timer).duration),
        spawns(*old(timer), dt as int, live as int) ==> spawned == Some(
            spawned_monster(draws, initial_state),
        ),
        !spawns(*old(timer), dt as int, live as int) ==> spawned is None,
{
    let fired = timer.tick(dt);
    if fired && live < POPULATION_CAP {
        Some(spawn_monster(draws, initial_state))
    } else {
        None
    }
}

/// The spawner for one tick: ticks the respawn timer and, when it fires with
/// fewer than `POPULATION_CAP` monsters alive, appends a monster made from
/// fresh random values. The population never grows past the cap.
pub fn monster_respawn_system(
    timer: &mut RepeatingTimer,
    dt: u64,
    monsters: &mut Vec<Monster>,
    initial_state: MonsterState,
) -> (spawned: bool)
    requires
        old(timer).valid(),
    ensures
        final(timer).valid(),
        final(timer).duration == old(timer).duration,
        final(timer).finished == (old(timer).elapsed + dt >= old(timer).duration),
        final(timer).elapsed == if !(old(timer).elapsed + dt >= old(timer).duration) {
            old(timer).elapsed + dt
        } else if old(timer).duration == 0 {
            0
        } else {
            (old(timer).elapsed + dt) % (old(timer).duration as int)
        },
        spawned == spawns(*old(timer), dt as int, old(monsters).len() as int),
        spawned ==> final(monsters)@.drop_last() == old(monsters)@ && final(monsters).len()
            == old(monsters).len() + 1 && spawned_from_draw(final(monsters)@.last(), initial_state),
        spawned ==> final(monsters)@.last().valid(),
        !spawned ==> final(monsters)@ == old(monsters)@,
        final(monsters).len() <= POPULATION_CAP || final(monsters).len() == old(monsters).len(),
        final(monsters).len() <= POPULATION_CAP <== old(monsters).len() <= POPULATION_CAP,
{
    let fired = timer.tick(dt);
    if fired && monsters.len() < POPULATION_CAP {
        let draws = draw_spawn();
        let m = spawn_monster(draws, initial_state);
        monsters.push(m);
        assert(monsters@.drop_last() =~= old(monsters)@);
        true
    } else {
        false
    }
}

} // verus!
