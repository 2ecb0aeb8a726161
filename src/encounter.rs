//! Player-initiated combat and interaction: the nearest monster within reach
//! is attacked, and a surviving monster may strike back at once.
use vstd::prelude::*;
use crate::combat::{
    monster_attack_outcome, monster_attack_player, player_after_monster_attack, player_after_outcome,
    player_attack_fits, player_attack_outcome, player_attack_system, AttackOutcome, AttackRolls,
    DamageOutcome,
};
use crate::geometry::{closer_than, distance_squared, sq_dist, Position};
use crate::monster::{attack_storable, Monster};
use crate::stats::{gained, Stats};

verus! {

/// The player reaches monsters and characters closer than this: 32 world units.
pub const INTERACTION_RADIUS: i64 = 32_000;

/// Experience granted by talking to a character.
pub const TALK_EXPERIENCE: i32 = 50_000;

/// Whether a monster that survives the player's hit strikes back at once.
#[derive(Clone, Copy, Debug, PartialEq, Eq, Structural)]
pub enum RetaliationPolicy {
    /// A monster that survives a hit always makes one attack in return.
    Immediate,
    /// Monsters attack only when their own attack timer fires.
    TimerOnly,
}

/// One attack of the player on a monster.
#[derive(Clone, Copy, Debug, PartialEq, Eq, Structural)]
pub struct Engagement {
    /// Index of the monster attacked, before any removal.
    pub index: usize,
    pub outcome: AttackOutcome,
    /// The monster's attack in return, if it made one.
    pub retaliation: Option<DamageOutcome>,
}

/// `i` is the index of the monster nearest to `p` among those closer than
/// `radius`, the first one where several are equally near.
pub open spec fn is_nearest_in_reach(ms: Seq<Monster>, p: Position, radius: int, i: int) -> bool {
    &&& 0 <= i < ms.len()
    &&& sq_dist(ms[i].position, p) < radius * radius
    &&& forall|j: int|
        0 <= j < ms.len() && sq_dist(#[trigger] ms[j].position, p) < radius * radius ==> sq_dist(
            ms[i].position,
            p,
        ) <= sq_dist(ms[j].position, p)
    &&& forall|j: int|
        0 <= j < i ==> !(sq_dist(#[trigger] ms[j].position, p) < radius * radius && sq_dist(
            ms[j].position,
            p,
        ) == sq_dist(ms[i].position, p))
}

pub open spec fn none_in_reach(ms: Seq<Monster>, p: Position, radius: int) -> bool {
    forall|j: int| 0 <= j < ms.len() ==> !(sq_dist(#[trigger] ms[j].position, p) < radius * radius)
}

/// The monster nearest to `p` among those closer than `radius`, the first
/// one where several are equally near; `None` when none is that close.
pub fn nearest_in_reach(monsters: &Vec<Monster>, p: &Position, radius: i64) -> (r: Option<usize>)
    requires
        forall|i: int| 0 <= i < monsters.len() ==> (#[trigger] monsters[i]).valid(),
        p.valid(),
        radius >= 0,
    ensures
        r matches Some(i) ==> is_nearest_in_reach(monsters@, *p, radius as int, i as int),
        r is None ==> none_in_reach(monsters@, *p, radius as int),
{
    let mut best: Option<usize> = None;
    let mut best_d: u128 = 0;
    let mut i: usize = 0;
    while i < monsters.len()
        invariant
            forall|k: int| 0 <= k < monsters.len() ==> (#[trigger] monsters[k]).valid(),
            p.valid(),
            radius >= 0,
            i <= monsters.len(),
            best is None ==> forall|j: int|
                0 <= j < i ==> !(sq_dist(#[trigger] monsters[j].position, *p) < radius * radius),
            best matches Some(b) ==> {
                &&& b < i
                &&& best_d == sq_dist(monsters[b as int].position, *p)
                &&& best_d < radius * radius
                &&& forall|j: int|
                    0 <= j < i && sq_dist(#[trigger] monsters[j].position, *p) < radius * radius
                        ==> best_d <= sq_dist(monsters[j].position, *p)
                &&& forall|j: int|
                    0 <= j < b ==> !(sq_dist(#[trigger] monsters[j].position, *p) < radius * radius
                        && sq_dist(monsters[j].position, *p) == best_d)
            },
        decreases monsters.len() - i,
    {
        if closer_than(&monsters[i].position, p, radius) {
            let d = distance_squared(&monsters[i].position, p);
            match best {
                None => {
                    best = Some(i);
                    best_d = d;
                },
                Some(_) => {
                    if d < best_d {
                        best = Some(i);
                        best_d = d;
                    }
                },
            }
        }
        i = i + 1;
    }
    best
}

/// Everything the player's attack on any monster, and that monster's attack
/// in return, may compute is storable.
pub open spec fn encounter_fits(player: Stats, ms: Seq<Monster>) -> bool {
    &&& player.health >= 0
    &&& player.max_health >= 1
    &&& forall|i: int|
        0 <= i < ms.len() ==> player_attack_fits(player, (#[trigger] ms[i]).stats)
            && attack_storable(ms[i].stats, player)
}

/// The player's attack, triggered by `attack_pressed`, on the nearest monster
/// closer than `INTERACTION_RADIUS`; at most one monster is engaged. A
/// defeated monster is removed and its experience awarded. Under
/// `RetaliationPolicy::Immediate` a monster that survives a hit attacks the
/// player at once, with `retaliation_rolls`.
pub fn combat_system(
    player: &mut Stats,
    player_position: &Position,
    monsters: &mut Vec<Monster>,
    attack_pressed: bool,
    rolls: AttackRolls,
    retaliation_rolls: AttackRolls,
    policy: RetaliationPolicy,
) -> (engaged: Option<Engagement>)
    requires
        forall|i: int| 0 <= i < old(monsters).len() ==> (#[trigger] old(monsters)[i]).valid(),
        player_position.valid(),
        encounter_fits(*old(player), old(monsters)@),
    ensures
        !attack_pressed || none_in_reach(old(monsters)@, *player_position, INTERACTION_RADIUS as int)
            ==> engaged is None && *final(player) == *old(player) && final(monsters)@ == old(
            monsters,
        )@,
        engaged matches Some(e) ==> {
            let i = e.index as int;
            let m = old(monsters)@[i];
            let outcome = player_attack_outcome(*old(player), m.stats, rolls);
            let hit_monster = Monster {
                stats: Stats {
                    health: (m.stats.health - match outcome {
                        AttackOutcome::Miss => 0,
                        AttackOutcome::Hit { damage } => damage,
                        AttackOutcome::CriticalHit { damage } => damage,
                        AttackOutcome::DefenderDefeated { damage } => damage,
                    }) as i32,
                    ..m.stats
                },
                ..m
            };
            let strikes_back = policy == RetaliationPolicy::Immediate && (outcome is Hit
                || outcome is CriticalHit);
            &&& attack_pressed
            &&& is_nearest_in_reach(old(monsters)@, *player_position, INTERACTION_RADIUS as int, i)
            &&& e.outcome == outcome
            &&& outcome is DefenderDefeated ==> final(monsters)@ == old(monsters)@.remove(i)
                && final(player)@ == gained(old(player)@, 100)
            &&& !(outcome is DefenderDefeated) ==> final(monsters)@ == old(monsters)@.update(
                i,
                hit_monster,
            )
            &&& strikes_back ==> e.retaliation == Some(
                monster_attack_outcome(m.stats, *old(player), retaliation_rolls),
            ) && *final(player) == player_after_monster_attack(
                m.stats,
                *old(player),
                retaliation_rolls,
            )
            &&& e.retaliation matches Some(o) ==> *final(player) == player_after_outcome(
                *old(player),
                o,
            )
            &&& !strikes_back ==> e.retaliation is None
            &&& !strikes_back && !(outcome is DefenderDefeated) ==> *final(player) == *old(player)
        },
        attack_pressed && !none_in_reach(old(monsters)@, *player_position, INTERACTION_RADIUS as int)
            ==> engaged is Some,
{
    if !attack_pressed {
        return None;
    }
    let target = nearest_in_reach(monsters, player_position, INTERACTION_RADIUS);
    match target {
        None => None,
        Some(i) => {
            let mut m = monsters[i];
            assert(player_attack_fits(*player, old(monsters)@[i as int].stats));
            let outcome = player_attack_system(player, &mut m.stats, rolls);
            match outcome {
                AttackOutcome::DefenderDefeated { .. } => {
                    monsters.remove(i);
                    Some(Engagement { index: i, outcome, retaliation: None })
                },
                AttackOutcome::Miss => {
                    monsters.set(i, m);
                    Some(Engagement { index: i, outcome, retaliation: None })
                },
                _ => {
                    monsters.set(i, m);
                    match policy {
                        RetaliationPolicy::Immediate => {
                            assert(attack_storable(old(monsters)@[i as int].stats, *player));
                            let back = monster_attack_player(&m.stats, player, retaliation_rolls);
                            Some(Engagement { index: i, outcome, retaliation: Some(back) })
                        },
                        RetaliationPolicy::TimerOnly => {
                            Some(Engagement { index: i, outcome, retaliation: None })
                        },
                    }
                },
            }
        },
    }
}

/// Talking: with `talk_pressed`, the player gains `TALK_EXPERIENCE` for each
/// character closer than `INTERACTION_RADIUS`. A gain whose values could not
/// be stored is skipped.
pub fn npc_interaction(
    player: &mut Stats,
    player_position: &Position,
    npcs: &Vec<Position>,
    talk_pressed: bool,
) -> (talked: usize)
    requires
        player_position.valid(),
        forall|i: int| 0 <= i < npcs.len() ==> (#[trigger] npcs[i]).valid(),
    ensures
        talked <= npcs.len(),
        !talk_pressed ==> talked == 0,
        talked == 0 ==> *final(player) == *old(player),
        talked > 0 ==> final(player)@ == gained(old(player)@, TALK_EXPERIENCE * talked),
        talk_pressed && old(player).level >= 1 && old(player).experience >= 0 && (forall|k: int|
            0 <= k <= npcs.len() ==> #[trigger] old(player).can_gain(TALK_EXPERIENCE * k))
            ==> talked == in_reach_count(npcs@, *player_position, npcs.len() as int),
{
    if !talk_pressed {
        return 0;
    }
    let ghost start = *player;
    let ghost roomy = start.level >= 1 && start.experience >= 0 && (forall|k: int|
        0 <= k <= npcs.len() ==> #[trigger] start.can_gain(TALK_EXPERIENCE * k));
    let mut talked: usize = 0;
    let mut i: usize = 0;
    while i < npcs.len()
        invariant
            player_position.valid(),
            forall|k: int| 0 <= k < npcs.len() ==> (#[trigger] npcs[k]).valid(),
            start == *old(player),
            roomy == (start.level >= 1 && start.experience >= 0 && (forall|k: int|
                0 <= k <= npcs.len() ==> #[trigger] start.can_gain(TALK_EXPERIENCE * k))),
            i <= npcs.len(),
            talked <= i,
            roomy ==> talked == in_reach_count(npcs@, *player_position, i as int),
            talked == 0 ==> *player == start,
            talked > 0 ==> player@ == gained(start@, TALK_EXPERIENCE * talked),
            talked > 0 ==> start.level >= 1 && start.experience >= 0,
        decreases npcs.len() - i,
    {
        if closer_than(player_position, &npcs[i], INTERACTION_RADIUS) {
            proof {
                if roomy {
                    assert(start.can_gain(TALK_EXPERIENCE * (talked + 1)));
                    if talked > 0 {
                        crate::stats::lemma_level_ups_exhaust_thresholds(
                            start.level as int,
                            start.experience + TALK_EXPERIENCE * talked,
                        );
                        crate::stats::lemma_gain_experience_additive(
                            start@,
                            TALK_EXPERIENCE * talked,
                            TALK_EXPERIENCE as int,
                        );
                        assert(gained(player@, TALK_EXPERIENCE as int) == gained(
                            start@,
                            TALK_EXPERIENCE * (talked + 1),
                        ));
                    }
                }
            }
            if player.can_gain_experience(TALK_EXPERIENCE) {
                proof {
                    if talked > 0 {
                        crate::stats::lemma_level_ups_exhaust_thresholds(
                            start.level as int,
                            start.experience + TALK_EXPERIENCE * talked,
                        );
                        crate::stats::lemma_gain_experience_additive(
                            start@,
                            TALK_EXPERIENCE * talked,
                            TALK_EXPERIENCE as int,
                        );
                    }
                }
                player.gain_experience(TALK_EXPERIENCE);
                talked = talked + 1;
            }
        }
        i = i + 1;
    }
    talked
}

/// How many of the first `n` characters are closer than
/// `INTERACTION_RADIUS` to `p`.
pub open spec fn in_reach_count(npcs: Seq<Position>, p: Position, n: int) -> int
    decreases n,
{
    if n <= 0 {
        0
    } else {
        in_reach_count(npcs, p, n - 1) + if sq_dist(p, npcs[n - 1]) < INTERACTION_RADIUS
            * INTERACTION_RADIUS {
            1int
        } else {
            0int
        }
    }
}

} // verus!
