//! The simulation context and the order in which one tick runs the systems.
use vstd::prelude::*;
use crate::combat::{
    can_resolve_player_attack, player_after_outcome, player_attack_outcome, AttackRolls,
    EXPERIENCE_PER_DEFEAT,
};
use crate::encounter::{
    combat_system, encounter_fits, is_nearest_in_reach, none_in_reach, Engagement,
    RetaliationPolicy, INTERACTION_RADIUS,
};
use crate::geometry::Position;
use crate::monster::{
    after_attack_step, attack_storable, attacking_indices, can_strike, monster_attack_system,
    monster_movement_system, monster_state_system, moved_some_way, player_after_outcomes, state_for,
    Monster, MonsterAttack, MonsterState, StateChange,
};
use crate::random::draw_attack_rolls;
use crate::spawner::{
    monster_respawn_system, spawned_from_draw, spawns, POPULATION_CAP, RESPAWN_INTERVAL,
};
use crate::stats::{gained, Stats};
use crate::timer::RepeatingTimer;

verus! {

/// Choices that differ between variants of the game.
#[derive(Clone, Copy, Debug, PartialEq, Eq, Structural)]
pub struct SimulationConfig {
    /// The state a newly spawned monster starts in.
    pub initial_state: MonsterState,
    pub retaliation: RetaliationPolicy,
}

/// What the presentation layer hands the simulation each tick.
#[derive(Clone, Copy, Debug, PartialEq, Eq, Structural)]
pub struct TickInput {
    /// Time elapsed since the previous tick, in microseconds.
    pub dt: u64,
    pub player_position: Position,
    /// The attack key went down during this tick.
    pub attack_pressed: bool,
}

/// What happened during one tick.
pub struct TickReport {
    pub spawned: bool,
    pub engagement: Option<Engagement>,
    pub state_changes: Vec<StateChange>,
    pub monster_attacks: Vec<MonsterAttack>,
    /// Levels the player gained during the tick.
    pub levels_gained: i64,
}

/// The player, the monsters and the spawner's timer.
pub struct World {
    pub player: Stats,
    pub player_position: Position,
    pub monsters: Vec<Monster>,
    pub respawn_timer: RepeatingTimer,
    pub config: SimulationConfig,
}

/// `mid` is `player` after the reported engagement: experience for a defeat,
/// or the monster's attack in return, or nothing.
pub open spec fn after_engagement(player: Stats, engagement: Option<Engagement>, mid: Stats) -> bool {
    match engagement {
        None => mid == player,
        Some(e) => if e.outcome is DefenderDefeated {
            mid@ == gained(player@, EXPERIENCE_PER_DEFEAT as int)
        } else {
            match e.retaliation {
                None => mid == player,
                Some(o) => mid == player_after_outcome(player, o),
            }
        },
    }
}

/// How many monsters a reported engagement removed.
pub open spec fn removed(engagement: Option<Engagement>) -> int {
    match engagement {
        Some(e) => if e.outcome is DefenderDefeated {
            1
        } else {
            0
        },
        None => 0,
    }
}

/// Whether every monster's attacks on the player can be computed and stored.
fn all_can_strike(monsters: &Vec<Monster>, player: &Stats) -> (r: bool)
    ensures
        r == forall|i: int| 0 <= i < monsters.len() ==> attack_storable((#[trigger] monsters[i]).stats, *player),
{
    let mut i: usize = 0;
    while i < monsters.len()
        invariant
            i <= monsters.len(),
            forall|k: int| 0 <= k < i ==> attack_storable((#[trigger] monsters[k]).stats, *player),
        decreases monsters.len() - i,
    {
        if !can_strike(&monsters[i].stats, player) {
            return false;
        }
        i = i + 1;
    }
    true
}

/// Whether the player's attack on any monster can be computed and stored.
fn all_can_be_attacked(monsters: &Vec<Monster>, player: &Stats) -> (r: bool)
    ensures
        r == forall|i: int|
            0 <= i < monsters.len() ==> crate::combat::player_attack_fits(
                *player,
                (#[trigger] monsters[i]).stats,
            ),
{
    let mut i: usize = 0;
    while i < monsters.len()
        invariant
            i <= monsters.len(),
            forall|k: int|
                0 <= k < i ==> crate::combat::player_attack_fits(*player, (#[trigger] monsters[k]).stats),
        decreases monsters.len() - i,
    {
        if !can_resolve_player_attack(player, &monsters[i].stats) {
            return false;
        }
        i = i + 1;
    }
    true
}

impl World {
    pub open spec fn valid(&self) -> bool {
        &&& self.player_position.valid()
        &&& forall|i: int| 0 <= i < self.monsters.len() ==> (#[trigger] self.monsters[i]).valid()
        &&& self.monsters.len() <= POPULATION_CAP
        &&& self.respawn_timer.valid()
        &&& self.player.health >= 0
        &&& self.player.max_health >= 1
    }

    /// A world with the given player at the origin, no monster yet, and a
    /// respawn timer of `RESPAWN_INTERVAL`.
    pub fn new(player: Stats, config: SimulationConfig) -> (w: World)
        requires
            player.health >= 0,
            player.max_health >= 1,
        ensures
            w.valid(),
            w.player == player,
            w.player_position == (Position { x: 0, y: 0 }),
            w.monsters@.len() == 0,
            w.config == config,
            w.respawn_timer == RepeatingTimer::new_spec(RESPAWN_INTERVAL),
    {
        World {
            player,
            player_position: Position { x: 0, y: 0 },
            monsters: Vec::new(),
            respawn_timer: RepeatingTimer::new(RESPAWN_INTERVAL),
            config,
        }
    }

    /// The player's attack step of a tick.
    fn engage(&mut self, attack_pressed: bool) -> (engagement: Option<Engagement>)
        requires
            old(self).valid(),
        ensures
            final(self).valid(),
            final(self).player_position == old(self).player_position,
            final(self).respawn_timer == old(self).respawn_timer,
            final(self).config == old(self).config,
            engaged_monsters(old(self).monsters@, engagement, final(self).monsters@),
            !attack_pressed ==> engagement is None,
            after_engagement(old(self).player, engagement, final(self).player),
            engagement_owed(old(self).player, old(self).monsters@, old(self).player_position, attack_pressed)
                ==> engagement is Some,
            engagement matches Some(e) ==> engagement_chosen(
                old(self).player,
                old(self).monsters@,
                old(self).player_position,
                e,
            ),
            old(self).player.health >= 1 ==> final(self).player.health >= 1,
    {
        let mut engagement: Option<Engagement> = None;
        if all_can_be_attacked(&self.monsters, &self.player) && all_can_strike(
            &self.monsters,
            &self.player,
        ) {
            assert(encounter_fits(self.player, self.monsters@));
            let rolls = draw_attack_rolls();
            let back = draw_attack_rolls();
            engagement = combat_system(
                &mut self.player,
                &self.player_position,
                &mut self.monsters,
                attack_pressed,
                rolls,
                back,
                self.config.retaliation,
            );
        }
        engagement
    }

    /// The monsters' part of a tick: movement, then re-evaluation of every
    /// state, then monster attacks.
    fn monsters_act(&mut self, dt: u64) -> (r: (Vec<StateChange>, Vec<MonsterAttack>))
        requires
            old(self).valid(),
        ensures
            final(self).valid(),
            final(self).player_position == old(self).player_position,
            final(self).respawn_timer == old(self).respawn_timer,
            final(self).config == old(self).config,
            final(self).monsters.len() == old(self).monsters.len(),
            final(self).player == player_after_outcomes(old(self).player, r.1@),
            old(self).player.health >= 1 ==> final(self).player.health >= 1,
            exists|moved: Seq<Monster>, stated: Seq<Monster>|
                acted(
                    old(self).monsters@,
                    moved,
                    stated,
                    final(self).monsters@,
                    old(self).player_position,
                    dt as int,
                    r.1@,
                    all_storable(old(self).monsters@, old(self).player),
                ),
            forall|i: int|
                0 <= i < final(self).monsters.len() ==> (#[trigger] final(self).monsters[i]).state
                    == state_for(final(self).monsters[i].position, old(self).player_position),
            forall|j: int| 0 <= j < r.0.len() ==> (#[trigger] r.0[j]).index < final(self).monsters.len(),
            forall|j: int| 0 <= j < r.1.len() ==> (#[trigger] r.1[j]).index < final(self).monsters.len(),
    {
        let ghost pre = self.monsters@;
        monster_movement_system(&mut self.monsters, &self.player_position, dt);
        let ghost moved = self.monsters@;
        let state_changes = monster_state_system(&mut self.monsters, &self.player_position);
        let ghost stated = self.monsters@;
        assert forall|i: int| 0 <= i < stated.len() implies (#[trigger] stated[i]).stats
            == pre[i].stats by {
            assert(moved_some_way(pre[i], moved[i], self.player_position, dt as int));
            assert(stated[i] == (Monster { state: state_for(moved[i].position, self.player_position), ..moved[i] }));
        }
        let mut monster_attacks: Vec<MonsterAttack> = Vec::new();
        if all_can_strike(&self.monsters, &self.player) {
            assert forall|i: int| 0 <= i < pre.len() implies attack_storable(
                (#[trigger] pre[i]).stats,
                old(self).player,
            ) by {
                assert(stated[i].stats == pre[i].stats);
                assert(attack_storable(self.monsters[i].stats, self.player));
            }
            monster_attacks = monster_attack_system(
                &mut self.monsters,
                &mut self.player,
                &self.player_position,
                dt,
            );
        } else {
            assert(self.player == player_after_outcomes(self.player, monster_attacks@));
            assert(!all_storable(pre, old(self).player)) by {
                let i = choose|i: int|
                    0 <= i < stated.len() && !attack_storable(#[trigger] stated[i].stats, self.player);
                assert(stated[i].stats == pre[i].stats);
            }
        }
        assert(acted(
            pre,
            moved,
            stated,
            self.monsters@,
            self.player_position,
            dt as int,
            monster_attacks@,
            all_storable(pre, old(self).player),
        ));
        (state_changes, monster_attacks)
    }

    /// One tick, in this order: the player's attack; the spawner; monster
    /// movement; re-evaluation of every monster's state; monster attacks. A
    /// combat step whose values could not be stored is skipped. The whole run
    /// is described by `tick_trace`; beyond it, at the end of the tick every
    /// monster's state matches its distance to the player, the population is
    /// within the cap, and a player with health left still has some.
    pub fn tick(&mut self, input: TickInput) -> (report: TickReport)
        requires
            old(self).valid(),
            input.player_position.valid(),
        ensures
            final(self).valid(),
            final(self).config == old(self).config,
            final(self).player_position == input.player_position,
            final(self).respawn_timer.duration == old(self).respawn_timer.duration,
            exists|engaged: Seq<Monster>, mid: Stats, pre: Seq<Monster>, moved: Seq<Monster>, stated: Seq<Monster>|
                tick_trace(*old(self), input, report, engaged, mid, pre, moved, stated, *final(self)),
            engagement_owed(old(self).player, old(self).monsters@, input.player_position, input.attack_pressed)
                ==> report.engagement is Some,
            report.engagement matches Some(e) ==> engagement_chosen(
                old(self).player,
                old(self).monsters@,
                input.player_position,
                e,
            ),
            final(self).monsters.len() <= POPULATION_CAP,
            forall|i: int|
                0 <= i < final(self).monsters.len() ==> (#[trigger] final(self).monsters[i]).state
                    == state_for(final(self).monsters[i].position, input.player_position),
            forall|j: int|
                0 <= j < report.monster_attacks.len() ==> (#[trigger] report.monster_attacks[j]).index
                    < final(self).monsters.len(),
            forall|j: int|
                0 <= j < report.state_changes.len() ==> (#[trigger] report.state_changes[j]).index
                    < final(self).monsters.len(),
            old(self).player.health >= 1 ==> final(self).player.health >= 1,
            report.levels_gained == final(self).player.level - old(self).player.level,
    {
        let level_before = self.player.level;
        self.player_position = input.player_position;
        let dt = input.dt;
        let engagement = self.engage(input.attack_pressed);
        let ghost engaged = self.monsters@;
        let ghost mid = self.player;
        let spawned = monster_respawn_system(
            &mut self.respawn_timer,
            dt,
            &mut self.monsters,
            self.config.initial_state,
        );
        let ghost pre = self.monsters@;
        assert(forall|i: int|
            0 <= i < self.monsters.len() ==> (#[trigger] self.monsters[i]).valid()) by {
            if spawned {
                assert forall|i: int| 0 <= i < self.monsters.len() implies (
                #[trigger] self.monsters[i]).valid() by {
                    if i < self.monsters.len() - 1 {
                        assert(self.monsters@.drop_last()[i] == self.monsters[i]);
                    }
                }
            }
        }
        let (state_changes, monster_attacks) = self.monsters_act(dt);
        let levels_gained = self.player.level as i64 - level_before as i64;
        let report = TickReport { spawned, engagement, state_changes, monster_attacks, levels_gained };
        proof {
            let (moved, stated) = choose|moved: Seq<Monster>, stated: Seq<Monster>|
                acted(
                    pre,
                    moved,
                    stated,
                    self.monsters@,
                    self.player_position,
                    dt as int,
                    report.monster_attacks@,
                    all_storable(pre, mid),
                );
            assert(tick_trace(*old(self), input, report, engaged, mid, pre, moved, stated, *self));
        }
        report
    }
}

/// `after` is `before` once the reported engagement is applied: a defeated
/// monster is removed, a hit one keeps its place, and nothing changes without
/// an engagement.
pub open spec fn engaged_monsters(
    before: Seq<Monster>,
    engagement: Option<Engagement>,
    after: Seq<Monster>,
) -> bool {
    match engagement {
        None => after == before,
        Some(e) => {
            &&& e.index < before.len()
            &&& e.outcome is DefenderDefeated ==> after == before.remove(e.index as int)
            &&& !(e.outcome is DefenderDefeated) ==> after.len() == before.len() && forall|i: int|
                0 <= i < after.len() && i != e.index ==> #[trigger] after[i] == before[i]
        },
    }
}

/// The player's attack is owed: the key is pressed, a monster is within reach,
/// and every value of the fight can be stored.
pub open spec fn engagement_owed(
    player: Stats,
    monsters: Seq<Monster>,
    player_position: Position,
    attack_pressed: bool,
) -> bool {
    &&& attack_pressed
    &&& !none_in_reach(monsters, player_position, INTERACTION_RADIUS as int)
    &&& encounter_fits(player, monsters)
}

/// The engagement targets the nearest monster in reach, and its outcome is
/// that of the player's attack with some valid rolls.
pub open spec fn engagement_chosen(
    player: Stats,
    monsters: Seq<Monster>,
    player_position: Position,
    e: Engagement,
) -> bool {
    &&& is_nearest_in_reach(monsters, player_position, INTERACTION_RADIUS as int, e.index as int)
    &&& exists|rolls: AttackRolls|
        rolls.valid() && e.outcome == player_attack_outcome(player, #[trigger] monsters[e.index as int].stats, rolls)
}

/// Every monster's attacks on `player` can be computed and stored.
pub open spec fn all_storable(monsters: Seq<Monster>, player: Stats) -> bool {
    forall|i: int| 0 <= i < monsters.len() ==> attack_storable((#[trigger] monsters[i]).stats, player)
}

/// The monsters' part of a tick went from `pre` to `post`: each monster moved
/// (some fresh random direction standing for an idle monster's draw), giving
/// `moved`; each state was re-evaluated, giving `stated`; then, where every
/// attack can be stored (`storable`), each monster took its attack step and
/// `attacks` are exactly the attacking monsters in order; otherwise no
/// monster attacked.
pub open spec fn acted(
    pre: Seq<Monster>,
    moved: Seq<Monster>,
    stated: Seq<Monster>,
    post: Seq<Monster>,
    player_position: Position,
    dt: int,
    attacks: Seq<MonsterAttack>,
    storable: bool,
) -> bool {
    &&& moved.len() == pre.len()
    &&& stated.len() == pre.len()
    &&& post.len() == pre.len()
    &&& forall|i: int|
        0 <= i < pre.len() ==> moved_some_way(pre[i], #[trigger] moved[i], player_position, dt)
    &&& forall|i: int|
        0 <= i < pre.len() ==> #[trigger] stated[i] == (Monster {
            state: state_for(moved[i].position, player_position),
            ..moved[i]
        })
    &&& storable ==> (forall|i: int|
        0 <= i < pre.len() ==> #[trigger] post[i] == after_attack_step(stated[i], dt))
        && attacks.map_values(|a: MonsterAttack| a.index) == attacking_indices(
        stated,
        player_position,
        dt,
        pre.len() as int,
    )
    &&& !storable ==> post == stated && attacks.len() == 0
}

/// A run of one tick: from `before`, the engagement gave the monsters
/// `engaged` and the player `mid`; the spawner then gave `pre`; the monsters
/// acted (see `acted`); and the player ended with the reported monster attacks
/// applied.
pub open spec fn tick_trace(
    before: World,
    input: TickInput,
    report: TickReport,
    engaged: Seq<Monster>,
    mid: Stats,
    pre: Seq<Monster>,
    moved: Seq<Monster>,
    stated: Seq<Monster>,
    after: World,
) -> bool {
    &&& engaged_monsters(before.monsters@, report.engagement, engaged)
    &&& after_engagement(before.player, report.engagement, mid)
    &&& !input.attack_pressed ==> report.engagement is None
    &&& report.spawned == spawns(before.respawn_timer, input.dt as int, engaged.len() as int)
    &&& report.spawned ==> pre.drop_last() == engaged && pre.len() == engaged.len() + 1
        && spawned_from_draw(pre.last(), before.config.initial_state)
    &&& !report.spawned ==> pre == engaged
    &&& acted(
        pre,
        moved,
        stated,
        after.monsters@,
        input.player_position,
        input.dt as int,
        report.monster_attacks@,
        all_storable(pre, mid),
    )
    &&& after.player == player_after_outcomes(mid, report.monster_attacks@)
}

} // verus!
