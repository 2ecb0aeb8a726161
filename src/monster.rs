//! Monsters: the behaviour state machine, movement and attack gating.
use vstd::prelude::*;
use crate::combat::{
    attack_damage, can_resolve_monster_attack, critical_spec, landed_damage, monster_attack_fits,
    monster_attack_outcome, monster_attack_player, player_after_monster_attack,
    player_after_outcome, AttackRolls, DamageOutcome,
};
use crate::geometry::{
    direction_of, direction_toward, drawn_direction, move_along, moved, sq_dist, within, Direction,
    Position,
};
use crate::monster_type::MonsterType;
use crate::random::{draw_attack_rolls, random_direction};
use crate::stats::{fits_i32, Stats};
use crate::timer::RepeatingTimer;

verus! {

/// A monster within this distance of the player pursues it: 150 world units.
pub const DETECTION_RADIUS: i64 = 150_000;

/// A monster within this distance of the player may attack it: 32 world units.
pub const ATTACK_RANGE: i64 = 32_000;

/// Half the side of the square that wandering monsters keep to: 250 world units.
pub const WANDER_BOUNDARY: i64 = 250_000;

#[derive(Clone, Copy, Debug, PartialEq, Eq, Structural)]
pub enum MonsterState {
    Idle,
    Aggressive,
}

/// Where a monster is heading and how fast it moves, in world units per second.
#[derive(Clone, Copy, Debug, PartialEq, Eq, Structural)]
pub struct MonsterMovement {
    pub direction: Direction,
    pub idle_speed: u32,
    pub aggressive_speed: u32,
}

/// One monster of the population.
#[derive(Clone, Copy, Debug, PartialEq, Eq, Structural)]
pub struct Monster {
    pub position: Position,
    pub monster_type: MonsterType,
    pub stats: Stats,
    pub state: MonsterState,
    pub movement: MonsterMovement,
    /// Fires when a wandering monster picks a new direction.
    pub movement_timer: RepeatingTimer,
    /// Fires when a pursuing monster may attack.
    pub attack_timer: RepeatingTimer,
}

/// A monster's behaviour changed.
#[derive(Clone, Copy, Debug, PartialEq, Eq, Structural)]
pub struct StateChange {
    pub index: usize,
    pub state: MonsterState,
}

/// A monster attacked the player.
#[derive(Clone, Copy, Debug, PartialEq, Eq, Structural)]
pub struct MonsterAttack {
    pub index: usize,
    pub outcome: DamageOutcome,
}

impl Monster {
    pub open spec fn valid(&self) -> bool {
        &&& self.position.valid()
        &&& self.movement.direction.valid()
        &&& self.movement_timer.valid()
        &&& self.attack_timer.valid()
    }
}

/// The state a monster at `monster` takes with the player at `player`.
pub open spec fn state_for(monster: Position, player: Position) -> MonsterState {
    if sq_dist(monster, player) <= DETECTION_RADIUS * DETECTION_RADIUS {
        MonsterState::Aggressive
    } else {
        MonsterState::Idle
    }
}

/// `timer` after a tick of `dt`, started over when it fired.
pub open spec fn ticked_and_reset(timer: RepeatingTimer, dt: int) -> RepeatingTimer {
    if timer.elapsed + dt >= timer.duration {
        RepeatingTimer { elapsed: 0, finished: false, ..timer }
    } else {
        RepeatingTimer { elapsed: (timer.elapsed + dt) as u64, finished: false, ..timer }
    }
}

pub open spec fn fired(timer: RepeatingTimer, dt: int) -> bool {
    timer.elapsed + dt >= timer.duration
}

/// `d` with each component turned back toward the play area where the
/// position lies beyond the wander boundary on that axis.
pub open spec fn reflected(d: Direction, p: Position) -> Direction {
    Direction {
        x: if p.x > WANDER_BOUNDARY || p.x < -WANDER_BOUNDARY {
            -d.x
        } else {
            d.x as int
        } as i64,
        y: if p.y > WANDER_BOUNDARY || p.y < -WANDER_BOUNDARY {
            -d.y
        } else {
            d.y as int
        } as i64,
    }
}

/// A monster after one tick of movement. An idle monster ticks its movement
/// timer; when the timer fires it takes the `fresh` direction, turned back
/// toward the play area, and starts the timer over; then it moves along its
/// direction at its idle speed. An aggressive monster moves straight toward
/// the player at its aggressive speed and keeps its wander direction.
pub open spec fn moved_monster(m: Monster, player: Position, dt: int, fresh: Direction) -> Monster {
    match m.state {
        MonsterState::Idle => {
            let direction = if fired(m.movement_timer, dt) {
                reflected(fresh, m.position)
            } else {
                m.movement.direction
            };
            Monster {
                position: moved(m.position, direction, m.movement.idle_speed as int, dt),
                movement: MonsterMovement { direction, ..m.movement },
                movement_timer: ticked_and_reset(m.movement_timer, dt),
                ..m
            }
        },
        MonsterState::Aggressive => {
            let toward = direction_of(player.x - m.position.x, player.y - m.position.y);
            Monster {
                position: moved(m.position, toward, m.movement.aggressive_speed as int, dt),
                ..m
            }
        },
    }
}

/// `after` is `before` after one tick of movement, for some randomly drawn
/// fresh direction.
pub open spec fn moved_some_way(before: Monster, after: Monster, player: Position, dt: int) -> bool {
    exists|fresh: Direction| drawn_direction(fresh) && after == moved_monster(before, player, dt, fresh)
}

/// Whether a monster attacks during a tick: it is aggressive, its attack timer
/// fires, and the player is within attack range.
pub open spec fn attacks(m: Monster, player: Position, dt: int) -> bool {
    m.state == MonsterState::Aggressive && fired(m.attack_timer, dt) && sq_dist(m.position, player)
        <= ATTACK_RANGE * ATTACK_RANGE
}

/// The monster after its attack step: an aggressive monster ticks its attack
/// timer and starts it over when it fires, whether or not it could attack.
pub open spec fn after_attack_step(m: Monster, dt: int) -> Monster {
    if m.state == MonsterState::Aggressive {
        Monster { attack_timer: ticked_and_reset(m.attack_timer, dt), ..m }
    } else {
        m
    }
}

/// The next behaviour state: an idle monster turns aggressive when the player
/// comes within the detection radius, an aggressive one calms down when the
/// player is beyond it.
pub fn next_state(current: MonsterState, monster: &Position, player: &Position) -> (s: MonsterState)
    requires
        monster.valid(),
        player.valid(),
    ensures
        s == state_for(*monster, *player),
{
    let near = within(monster, player, DETECTION_RADIUS);
    match current {
        MonsterState::Idle => if near {
            MonsterState::Aggressive
        } else {
            MonsterState::Idle
        },
        MonsterState::Aggressive => if !near {
            MonsterState::Idle
        } else {
            MonsterState::Aggressive
        },
    }
}

/// The state changes that re-evaluating the first `n` monsters of `ms`
/// produces, in order of the monsters.
pub open spec fn state_changes(ms: Seq<Monster>, player: Position, n: int) -> Seq<StateChange>
    decreases n,
{
    if n <= 0 {
        Seq::empty()
    } else {
        let earlier = state_changes(ms, player, n - 1);
        let m = ms[n - 1];
        let s = state_for(m.position, player);
        if m.state != s {
            earlier.push(StateChange { index: (n - 1) as usize, state: s })
        } else {
            earlier
        }
    }
}

/// Re-evaluates every monster's state against the player's position and
/// reports each change, in order of the monsters.
pub fn monster_state_system(monsters: &mut Vec<Monster>, player: &Position) -> (changes: Vec<
    StateChange,
>)
    requires
        forall|i: int| 0 <= i < old(monsters).len() ==> (#[trigger] old(monsters)[i]).valid(),
        player.valid(),
    ensures
        final(monsters).len() == old(monsters).len(),
        forall|i: int|
            0 <= i < final(monsters).len() ==> #[trigger] final(monsters)[i] == (Monster {
                state: state_for(old(monsters)[i].position, *player),
                ..old(monsters)[i]
            }),
        forall|i: int|
            0 <= i < final(monsters).len() ==> (#[trigger] final(monsters)[i]).state == state_for(
                final(monsters)[i].position,
                *player,
            ),
        changes@ == state_changes(old(monsters)@, *player, old(monsters).len() as int),
        forall|j: int| 0 <= j < changes.len() ==> (#[trigger] changes[j]).index < old(monsters).len(),
{
    let mut changes: Vec<StateChange> = Vec::new();
    let n = monsters.len();
    let ghost start = monsters@;
    let mut i: usize = 0;
    while i < n
        invariant
            start == old(monsters)@,
            n == monsters.len(),
            start.len() == n,
            i <= n,
            player.valid(),
            forall|k: int| 0 <= k < n ==> (#[trigger] start[k]).valid(),
            forall|k: int|
                0 <= k < i ==> #[trigger] monsters[k] == (Monster {
                    state: state_for(start[k].position, *player),
                    ..start[k]
                }),
            forall|k: int| i <= k < n ==> #[trigger] monsters[k] == start[k],
            changes@ == state_changes(start, *player, i as int),
            forall|j: int| 0 <= j < changes.len() ==> (#[trigger] changes[j]).index < i,
        decreases n - i,
    {
        let mut m = monsters[i];
        let s = next_state(m.state, &m.position, player);
        if s != m.state {
            changes.push(StateChange { index: i, state: s });
        }
        m.state = s;
        monsters.set(i, m);
        i = i + 1;
    }
    changes
}

/// One tick of movement for one monster, with `fresh` as the direction an
/// idle monster takes if its movement timer fires.
pub fn move_monster(m: &mut Monster, player: &Position, dt: u64, fresh: Direction)
    requires
        old(m).valid(),
        player.valid(),
        fresh.valid(),
    ensures
        *final(m) == moved_monster(*old(m), *player, dt as int, fresh),
        final(m).valid(),
{
    match m.state {
        MonsterState::Idle => {
            let fired = m.movement_timer.tick(dt);
            if fired {
                let mut d = fresh;
                if m.position.x > WANDER_BOUNDARY || m.position.x < -WANDER_BOUNDARY {
                    d.x = -d.x;
                }
                if m.position.y > WANDER_BOUNDARY || m.position.y < -WANDER_BOUNDARY {
                    d.y = -d.y;
                }
                m.movement.direction = d;
                m.movement_timer.reset();
            }
            m.position = move_along(&m.position, &m.movement.direction, m.movement.idle_speed, dt);
        },
        MonsterState::Aggressive => {
            let toward = direction_toward(&m.position, player);
            m.position = move_along(&m.position, &toward, m.movement.aggressive_speed, dt);
        },
    }
}

/// Moves every monster by one tick, each idle monster whose movement timer
/// fires taking a fresh random direction.
pub fn monster_movement_system(monsters: &mut Vec<Monster>, player: &Position, dt: u64)
    requires
        forall|i: int| 0 <= i < old(monsters).len() ==> (#[trigger] old(monsters)[i]).valid(),
        player.valid(),
    ensures
        final(monsters).len() == old(monsters).len(),
        forall|i: int|
            0 <= i < final(monsters).len() ==> moved_some_way(
                old(monsters)[i],
                #[trigger] final(monsters)[i],
                *player,
                dt as int,
            ),
        forall|i: int| 0 <= i < final(monsters).len() ==> (#[trigger] final(monsters)[i]).valid(),
{
    let n = monsters.len();
    let ghost start = monsters@;
    let mut i: usize = 0;
    while i < n
        invariant
            start == old(monsters)@,
            n == monsters.len(),
            start.len() == n,
            i <= n,
            player.valid(),
            forall|k: int| 0 <= k < n ==> (#[trigger] start[k]).valid(),
            forall|k: int|
                0 <= k < i ==> moved_some_way(start[k], #[trigger] monsters[k], *player, dt as int),
            forall|k: int| 0 <= k < i ==> (#[trigger] monsters[k]).valid(),
            forall|k: int| i <= k < n ==> #[trigger] monsters[k] == start[k],
        decreases n - i,
    {
        let mut m = monsters[i];
        let fresh = random_direction();
        move_monster(&mut m, player, dt, fresh);
        monsters.set(i, m);
        assert(moved_some_way(start[i as int], monsters[i as int], *player, dt as int));
        i = i + 1;
    }
}

/// One monster's attack step: an aggressive monster ticks its attack timer;
/// when it fires the monster attacks the player if in range, using `rolls`,
/// and the timer starts over either way.
pub fn monster_attack_step(
    m: &mut Monster,
    player: &mut Stats,
    player_position: &Position,
    dt: u64,
    rolls: AttackRolls,
) -> (outcome: Option<DamageOutcome>)
    requires
        old(m).valid(),
        player_position.valid(),
        monster_attack_fits(old(m).stats, *old(player)),
    ensures
        *final(m) == after_attack_step(*old(m), dt as int),
        final(m).valid(),
        attacks(*old(m), *player_position, dt as int) ==> outcome == Some(
            monster_attack_outcome(old(m).stats, *old(player), rolls),
        ) && *final(player) == player_after_monster_attack(old(m).stats, *old(player), rolls),
        !attacks(*old(m), *player_position, dt as int) ==> outcome is None && *final(player)
            == *old(player),
{
    if m.state != MonsterState::Aggressive {
        return None;
    }
    let fired = m.attack_timer.tick(dt);
    let mut outcome: Option<DamageOutcome> = None;
    if fired {
        if within(&m.position, player_position, ATTACK_RANGE) {
            outcome = Some(monster_attack_player(&m.stats, player, rolls));
        }
        m.attack_timer.reset();
    } else {
        m.attack_timer.finished = false;
    }
    outcome
}

/// The indices of the first `n` monsters of `ms` that attack during a tick.
pub open spec fn attacking_indices(ms: Seq<Monster>, player: Position, dt: int, n: int) -> Seq<usize>
    decreases n,
{
    if n <= 0 {
        Seq::empty()
    } else {
        let earlier = attacking_indices(ms, player, dt, n - 1);
        if attacks(ms[n - 1], player, dt) {
            earlier.push((n - 1) as usize)
        } else {
            earlier
        }
    }
}

/// The monster's attacks on the player can be computed and stored.
pub open spec fn attack_storable(monster: Stats, player: Stats) -> bool {
    &&& fits_i32(attack_damage(monster, player, true))
    &&& fits_i32(attack_damage(monster, player, false))
}

/// Whether the monster's attacks on the player can be computed and stored.
pub fn can_strike(monster: &Stats, player: &Stats) -> (r: bool)
    ensures
        r == attack_storable(*monster, *player),
{
    let p = Stats { health: 0, ..*player };
    assert(attack_damage(*monster, p, true) == attack_damage(*monster, *player, true));
    assert(attack_damage(*monster, p, false) == attack_damage(*monster, *player, false));
    can_resolve_monster_attack(monster, &p)
}

/// `after` is `before` hit by zero or more monster attacks: only health changes.
pub open spec fn only_health_changed(before: Stats, after: Stats) -> bool {
    after == Stats { health: after.health, ..before }
}

/// The monster stats and rolls of the attacks reported in `made`: the stats
/// of the attacking monster in `ms`, paired with the rolls in order.
pub open spec fn attack_pairs(
    ms: Seq<Monster>,
    made: Seq<MonsterAttack>,
    rolls: Seq<AttackRolls>,
) -> Seq<(Stats, AttackRolls)> {
    Seq::new(made.len(), |k: int| (ms[made[k].index as int].stats, rolls[k]))
}

/// The attacks reported in `made` were resolved in turn with valid `rolls`:
/// each outcome is that of the monster's attack on the player as the earlier
/// attacks left it, and `after` is `before` with every attack applied.
pub open spec fn resolved_with(
    ms: Seq<Monster>,
    made: Seq<MonsterAttack>,
    before: Stats,
    after: Stats,
    rolls: Seq<AttackRolls>,
) -> bool {
    &&& rolls.len() == made.len()
    &&& forall|k: int| 0 <= k < rolls.len() ==> (#[trigger] rolls[k]).valid()
    &&& forall|k: int|
        0 <= k < made.len() ==> (#[trigger] made[k]).outcome == monster_attack_outcome(
            ms[made[k].index as int].stats,
            player_after_attacks(before, attack_pairs(ms, made, rolls).take(k)),
            rolls[k],
        )
    &&& after == player_after_attacks(before, attack_pairs(ms, made, rolls))
}

/// The player after the outcomes of `made`, in order.
pub open spec fn player_after_outcomes(player: Stats, made: Seq<MonsterAttack>) -> Stats
    decreases made.len(),
{
    if made.len() == 0 {
        player
    } else {
        player_after_outcome(player_after_outcomes(player, made.drop_last()), made.last().outcome)
    }
}

/// Runs the attack step of every monster with fresh rolls and reports each
/// attack, in order of the monsters. Each attack is resolved against the
/// player as the earlier ones left it. The player is never destroyed: a
/// player with health left keeps at least one point of it, and health stays
/// within the maximum.
pub fn monster_attack_system(
    monsters: &mut Vec<Monster>,
    player: &mut Stats,
    player_position: &Position,
    dt: u64,
) -> (attacks_made: Vec<MonsterAttack>)
    requires
        forall|i: int| 0 <= i < old(monsters).len() ==> (#[trigger] old(monsters)[i]).valid(),
        forall|i: int|
            0 <= i < old(monsters).len() ==> attack_storable(
                (#[trigger] old(monsters)[i]).stats,
                *old(player),
            ),
        player_position.valid(),
        old(player).health >= 0,
        old(player).max_health >= 1,
    ensures
        final(monsters).len() == old(monsters).len(),
        forall|i: int|
            0 <= i < final(monsters).len() ==> #[trigger] final(monsters)[i] == after_attack_step(
                old(monsters)[i],
                dt as int,
            ),
        attacks_made@.map_values(|a: MonsterAttack| a.index) == attacking_indices(
            old(monsters)@,
            *player_position,
            dt as int,
            old(monsters).len() as int,
        ),
        exists|rolls: Seq<AttackRolls>|
            resolved_with(old(monsters)@, attacks_made@, *old(player), *final(player), rolls),
        forall|k: int|
            0 <= k < attacks_made.len() ==> (#[trigger] attacks_made[k]).index < old(monsters).len(),
        *final(player) == player_after_outcomes(*old(player), attacks_made@),
        only_health_changed(*old(player), *final(player)),
        final(player).health >= 0,
        old(player).health >= 1 ==> final(player).health >= 1,
        old(player).health <= old(player).max_health ==> final(player).health
            <= final(player).max_health,
{
    let mut made: Vec<MonsterAttack> = Vec::new();
    let n = monsters.len();
    let ghost start = monsters@;
    let ghost player0 = *player;
    let ghost mut rs: Seq<AttackRolls> = Seq::empty();
    let mut i: usize = 0;
    assert(attack_pairs(start, made@, rs) =~= Seq::<(Stats, AttackRolls)>::empty());
    while i < n
        invariant
            start == old(monsters)@,
            player0 == *old(player),
            player0.max_health >= 1,
            n == monsters.len(),
            start.len() == n,
            i <= n,
            player_position.valid(),
            forall|k: int| 0 <= k < n ==> (#[trigger] start[k]).valid(),
            forall|k: int| 0 <= k < n ==> attack_storable((#[trigger] start[k]).stats, player0),
            forall|k: int|
                0 <= k < i ==> #[trigger] monsters[k] == after_attack_step(start[k], dt as int),
            forall|k: int| i <= k < n ==> #[trigger] monsters[k] == start[k],
            made@.map_values(|a: MonsterAttack| a.index) == attacking_indices(
                start,
                *player_position,
                dt as int,
                i as int,
            ),
            forall|k: int| 0 <= k < made.len() ==> (#[trigger] made[k]).index < i,
            resolved_with(start, made@, player0, *player, rs),
            *player == player_after_outcomes(player0, made@),
            only_health_changed(player0, *player),
            player.health >= 0,
            player0.health >= 1 ==> player.health >= 1,
            player0.health <= player0.max_health ==> player.health <= player.max_health,
        decreases n - i,
    {
        let mut m = monsters[i];
        let rolls = draw_attack_rolls();
        assert(attack_storable(start[i as int].stats, player0));
        let ghost p_before = *player;
        let outcome = monster_attack_step(&mut m, player, player_position, dt, rolls);
        monsters.set(i, m);
        let ghost before = made@;
        let ghost pairs = attack_pairs(start, before, rs);
        match outcome {
            Some(o) => {
                made.push(MonsterAttack { index: i, outcome: o });
                proof {
                    let x = (start[i as int].stats, rolls);
                    let rs2 = rs.push(rolls);
                    let pairs2 = attack_pairs(start, made@, rs2);
                    assert(pairs2 =~= pairs.push(x));
                    assert(pairs2.drop_last() =~= pairs);
                    assert(made@.drop_last() =~= before);
                    assert(made@.map_values(|a: MonsterAttack| a.index) =~= before.map_values(
                        |a: MonsterAttack| a.index,
                    ).push(i));
                    assert forall|k: int| 0 <= k < made.len() implies (#[trigger] made[k]).outcome
                        == monster_attack_outcome(
                        start[made[k].index as int].stats,
                        player_after_attacks(player0, pairs2.take(k)),
                        rs2[k],
                    ) by {
                        if k < before.len() {
                            assert(pairs2.take(k) =~= pairs.take(k));
                            assert(made[k] == before[k]);
                        } else {
                            assert(pairs2.take(k) =~= pairs);
                        }
                    }
                    rs = rs2;
                }
            },
            None => {},
        }
        i = i + 1;
    }
    made
}

/// A player hit by monsters is never destroyed: starting with health and a
/// positive maximum, after any sequence of monster attacks the player still
/// has at least one point of health, and nothing but health has changed.
/// (Each attack that brings health to zero or below restores it to the
/// maximum: see `player_after_monster_attack`.)
pub proof fn lemma_player_defeat_not_terminal(player: Stats, attacks: Seq<(Stats, AttackRolls)>)
    requires
        player.max_health >= 1,
        player.health >= 1,
        forall|i: int| 0 <= i < attacks.len() ==> attack_storable((#[trigger] attacks[i]).0, player),
    ensures
        player_after_attacks(player, attacks).health >= 1,
        only_health_changed(player, player_after_attacks(player, attacks)),
    decreases attacks.len(),
{
    if attacks.len() > 0 {
        let init = attacks.drop_last();
        assert forall|i: int| 0 <= i < init.len() implies attack_storable(
            (#[trigger] init[i]).0,
            player,
        ) by {
            assert(init[i] == attacks[i]);
        }
        lemma_player_defeat_not_terminal(player, init);
        let before = player_after_attacks(player, init);
        let (monster, rolls) = attacks.last();
        assert(attack_storable(attacks[attacks.len() - 1].0, player));
        assert(attack_damage(monster, before, true) == attack_damage(monster, player, true));
        assert(attack_damage(monster, before, false) == attack_damage(monster, player, false));
    }
}

/// The player after each attack of `attacks` in turn.
pub open spec fn player_after_attacks(player: Stats, attacks: Seq<(Stats, AttackRolls)>) -> Stats
    decreases attacks.len(),
{
    if attacks.len() == 0 {
        player
    } else {
        let before = player_after_attacks(player, attacks.drop_last());
        let (monster, rolls) = attacks.last();
        player_after_monster_attack(monster, before, rolls)
    }
}

} // verus!
