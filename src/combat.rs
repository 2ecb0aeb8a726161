//! Combat resolution: hit and evasion checks, critical hits, damage, defeat.
//!
//! Randomness enters as percentage rolls, each a whole number drawn uniformly
//! from `0..100`. An attack connects when its hit roll is below the
//! attacker's hit rate; the defender evades when its evasion roll is below
//! its evasion rate; a hit is critical when its critical roll is below the
//! attacker's critical rate.
use vstd::prelude::*;
use crate::geometry::div_round;
use crate::stats::{fits_i32, gained, Stats};

verus! {

/// Experience awarded for defeating a monster.
pub const EXPERIENCE_PER_DEFEAT: i32 = 100;

/// Rolls are drawn from `0..ROLL_RANGE`.
pub const ROLL_RANGE: u32 = 100;

/// The three rolls one attack may consume.
#[derive(Clone, Copy, Debug, PartialEq, Eq, Structural)]
pub struct AttackRolls {
    pub hit: u32,
    pub evade: u32,
    pub critical: u32,
}

impl AttackRolls {
    pub open spec fn valid(&self) -> bool {
        self.hit < ROLL_RANGE && self.evade < ROLL_RANGE && self.critical < ROLL_RANGE
    }
}

/// Result of an attack by the player on a monster.
#[derive(Clone, Copy, Debug, PartialEq, Eq, Structural)]
pub enum AttackOutcome {
    Miss,
    Hit { damage: i32 },
    CriticalHit { damage: i32 },
    DefenderDefeated { damage: i32 },
}

/// Result of an attack by a monster on the player.
#[derive(Clone, Copy, Debug, PartialEq, Eq, Structural)]
pub enum DamageOutcome {
    Miss,
    Hit { damage: i32, critical: bool },
    /// The player's health fell to zero or below and was restored to its maximum.
    PlayerDefeated { damage: i32 },
}

pub open spec fn critical_spec(roll: int, critical_rate: int) -> bool {
    roll < critical_rate
}

/// Damage before any floor: attack minus defense.
pub open spec fn base_damage(attacker: Stats, defender: Stats) -> int {
    attacker.attack - defender.defense
}

/// Damage of an attack: a critical hit scales the base damage by the
/// attacker's multiplier (in percent) and rounds half away from zero; any
/// other hit deals the base damage but never less than one.
pub open spec fn attack_damage(attacker: Stats, defender: Stats, critical: bool) -> int {
    let base = base_damage(attacker, defender);
    if critical {
        div_round(base * attacker.critical_damage, 100)
    } else if base >= 1 {
        base
    } else {
        1
    }
}

/// The player's attack connects: the hit roll is below the hit rate and the
/// monster fails to evade.
pub open spec fn player_attack_connects(player: Stats, monster: Stats, rolls: AttackRolls) -> bool {
    rolls.hit < player.hit_rate && rolls.evade >= monster.evasion_rate
}

/// Every value a player attack may compute is storable.
pub open spec fn player_attack_fits(player: Stats, monster: Stats) -> bool {
    &&& fits_i32(attack_damage(player, monster, true))
    &&& fits_i32(attack_damage(player, monster, false))
    &&& fits_i32(monster.health - attack_damage(player, monster, true))
    &&& fits_i32(monster.health - attack_damage(player, monster, false))
    &&& player.level >= 1
    &&& player.experience >= 0
    &&& player.can_gain(EXPERIENCE_PER_DEFEAT as int)
}

pub open spec fn player_attack_outcome(player: Stats, monster: Stats, rolls: AttackRolls) -> AttackOutcome {
    let critical = critical_spec(rolls.critical as int, player.critical_rate as int);
    let damage = attack_damage(player, monster, critical);
    if !player_attack_connects(player, monster, rolls) {
        AttackOutcome::Miss
    } else if monster.health - damage <= 0 {
        AttackOutcome::DefenderDefeated { damage: damage as i32 }
    } else if critical {
        AttackOutcome::CriticalHit { damage: damage as i32 }
    } else {
        AttackOutcome::Hit { damage: damage as i32 }
    }
}

/// Damage that actually lands on the player: never less than one.
pub open spec fn landed_damage(damage: int) -> int {
    if damage >= 1 {
        damage
    } else {
        1
    }
}

/// Every value a monster attack may compute is storable.
pub open spec fn monster_attack_fits(monster: Stats, player: Stats) -> bool {
    &&& fits_i32(attack_damage(monster, player, true))
    &&& fits_i32(attack_damage(monster, player, false))
    &&& fits_i32(player.health - landed_damage(attack_damage(monster, player, true)))
    &&& fits_i32(player.health - landed_damage(attack_damage(monster, player, false)))
}

pub open spec fn monster_attack_outcome(monster: Stats, player: Stats, rolls: AttackRolls) -> DamageOutcome {
    let critical = critical_spec(rolls.critical as int, monster.critical_rate as int);
    let damage = landed_damage(attack_damage(monster, player, critical));
    if rolls.hit >= monster.hit_rate {
        DamageOutcome::Miss
    } else if player.health - damage <= 0 {
        DamageOutcome::PlayerDefeated { damage: damage as i32 }
    } else {
        DamageOutcome::Hit { damage: damage as i32, critical }
    }
}

/// The player's stats after a monster attack: damage is taken, and a player
/// brought to zero health or below is restored to full health.
pub open spec fn player_after_monster_attack(monster: Stats, player: Stats, rolls: AttackRolls) -> Stats {
    let critical = critical_spec(rolls.critical as int, monster.critical_rate as int);
    let damage = landed_damage(attack_damage(monster, player, critical));
    if rolls.hit >= monster.hit_rate {
        player
    } else if player.health - damage <= 0 {
        Stats { health: player.max_health, ..player }
    } else {
        Stats { health: (player.health - damage) as i32, ..player }
    }
}

/// The player after a monster attack with the given outcome: a hit takes its
/// damage off health, a defeat restores health to the maximum, a miss changes
/// nothing.
pub open spec fn player_after_outcome(player: Stats, outcome: DamageOutcome) -> Stats {
    match outcome {
        DamageOutcome::Miss => player,
        DamageOutcome::Hit { damage, .. } => Stats { health: (player.health - damage) as i32, ..player },
        DamageOutcome::PlayerDefeated { .. } => Stats { health: player.max_health, ..player },
    }
}

/// Whether a critical roll lands a critical hit at the given rate.
pub fn is_critical_hit(roll: u32, critical_rate: i32) -> (r: bool)
    ensures
        r == critical_spec(roll as int, critical_rate as int),
{
    (roll as i64) < (critical_rate as i64)
}

fn damage_wide(attacker: &Stats, defender: &Stats, critical: bool) -> (d: i128)
    ensures
        d == attack_damage(*attacker, *defender, critical),
        -0x1_0000_0000_0000_0000 <= d <= 0x1_0000_0000_0000_0000,
{
    let base: i128 = attacker.attack as i128 - defender.defense as i128;
    if critical {
        let m: i128 = attacker.critical_damage as i128;
        assert(-0x1_0000_0000 * 0x1_0000_0000 <= base * m <= 0x1_0000_0000 * 0x1_0000_0000)
            by (nonlinear_arith)
            requires
                -0x1_0000_0000 <= base <= 0x1_0000_0000,
                -0x1_0000_0000 <= m <= 0x1_0000_0000,
        ;
        let scaled: i128 = base * m;
        if scaled >= 0 {
            (scaled + 50) / 100
        } else {
            -((-scaled + 50) / 100)
        }
    } else if base >= 1 {
        base
    } else {
        1
    }
}

fn fits_exec(v: i128) -> (r: bool)
    ensures
        r == fits_i32(v as int),
{
    -0x8000_0000 <= v && v <= 0x7fff_ffff
}

fn compute_damage(attacker: &Stats, defender: &Stats, critical: bool) -> (d: i32)
    requires
        fits_i32(attack_damage(*attacker, *defender, true)),
        fits_i32(attack_damage(*attacker, *defender, false)),
    ensures
        d == attack_damage(*attacker, *defender, critical),
{
    damage_wide(attacker, defender, critical) as i32
}

/// Whether `player_attack_system` may be called on these two records.
pub fn can_resolve_player_attack(player: &Stats, monster: &Stats) -> (r: bool)
    ensures
        r == player_attack_fits(*player, *monster),
{
    let c = damage_wide(player, monster, true);
    let n = damage_wide(player, monster, false);
    fits_exec(c) && fits_exec(n) && fits_exec(monster.health as i128 - c) && fits_exec(
        monster.health as i128 - n,
    ) && player.can_gain_experience(EXPERIENCE_PER_DEFEAT)
}

/// Whether `monster_attack_player` may be called on these two records.
pub fn can_resolve_monster_attack(monster: &Stats, player: &Stats) -> (r: bool)
    ensures
        r == monster_attack_fits(*monster, *player),
{
    let c = damage_wide(monster, player, true);
    let n = damage_wide(monster, player, false);
    let lc: i128 = if c >= 1 {
        c
    } else {
        1
    };
    let ln: i128 = if n >= 1 {
        n
    } else {
        1
    };
    fits_exec(c) && fits_exec(n) && fits_exec(player.health as i128 - lc) && fits_exec(
        player.health as i128 - ln,
    )
}

/// The player attacks a monster. A missed or evaded attack changes nothing. A
/// hit takes its damage off the monster's health; when that health falls to
/// zero or below the monster is defeated and the player gains
/// `EXPERIENCE_PER_DEFEAT` experience, with the level-ups it pays for.
pub fn player_attack_system(player: &mut Stats, monster: &mut Stats, rolls: AttackRolls) -> (outcome:
    AttackOutcome)
    requires
        player_attack_fits(*old(player), *old(monster)),
    ensures
        outcome == player_attack_outcome(*old(player), *old(monster), rolls),
        !player_attack_connects(*old(player), *old(monster), rolls) ==> *final(monster) == *old(
            monster,
        ),
        player_attack_connects(*old(player), *old(monster), rolls) ==> *final(monster) == (Stats {
            health: (old(monster).health - attack_damage(
                *old(player),
                *old(monster),
                critical_spec(rolls.critical as int, old(player).critical_rate as int),
            )) as i32,
            ..*old(monster)
        }),
        outcome is DefenderDefeated ==> final(player)@ == gained(
            old(player)@,
            EXPERIENCE_PER_DEFEAT as int,
        ),
        !(outcome is DefenderDefeated) ==> *final(player) == *old(player),
{
    let hit_roll_ok = (rolls.hit as i64) < (player.hit_rate as i64);
    let evade_roll_ok = (rolls.evade as i64) >= (monster.evasion_rate as i64);
    if !(hit_roll_ok && evade_roll_ok) {
        return AttackOutcome::Miss;
    }
    let critical = is_critical_hit(rolls.critical, player.critical_rate);
    let damage = compute_damage(player, monster, critical);
    monster.health = monster.health - damage;
    if monster.health <= 0 {
        player.gain_experience(EXPERIENCE_PER_DEFEAT);
        AttackOutcome::DefenderDefeated { damage }
    } else if critical {
        AttackOutcome::CriticalHit { damage }
    } else {
        AttackOutcome::Hit { damage }
    }
}

/// Takes `damage`, but never less than one, off the player's health and
/// reports whether the health fell to zero or below.
pub fn apply_damage_to_player(player: &mut Stats, damage: i32) -> (defeated: bool)
    requires
        fits_i32(old(player).health - landed_damage(damage as int)),
    ensures
        *final(player) == (Stats {
            health: (old(player).health - landed_damage(damage as int)) as i32,
            ..*old(player)
        }),
        defeated == (final(player).health <= 0),
{
    let actual: i32 = if damage >= 1 {
        damage
    } else {
        1
    };
    player.health = player.health - actual;
    player.health <= 0
}

/// A monster attacks the player with a single hit roll: the player has no
/// evasion roll. A hit deals its damage, never less than one; a player
/// brought to zero health or below is defeated and restored to full health,
/// so the player entity is never destroyed.
pub fn monster_attack_player(monster: &Stats, player: &mut Stats, rolls: AttackRolls) -> (outcome:
    DamageOutcome)
    requires
        monster_attack_fits(*monster, *old(player)),
    ensures
        outcome == monster_attack_outcome(*monster, *old(player), rolls),
        *final(player) == player_after_monster_attack(*monster, *old(player), rolls),
        *final(player) == player_after_outcome(*old(player), outcome),
        old(player).health <= old(player).max_health ==> final(player).health
            <= final(player).max_health,
        old(player).max_health >= 1 && (old(player).health >= 1 || !(outcome is Miss))
            ==> final(player).health >= 1,
{
    if (rolls.hit as i64) >= (monster.hit_rate as i64) {
        return DamageOutcome::Miss;
    }
    let critical = is_critical_hit(rolls.critical, monster.critical_rate);
    let damage = compute_damage(monster, player, critical);
    let actual: i32 = if damage >= 1 {
        damage
    } else {
        1
    };
    let defeated = apply_damage_to_player(player, damage);
    if defeated {
        player.health = player.max_health;
        DamageOutcome::PlayerDefeated { damage: actual }
    } else {
        DamageOutcome::Hit { damage: actual, critical }
    }
}

/// Bounds on attack damage: a non-critical hit deals at least one; a critical
/// hit deals at least nothing when attack covers defense and the multiplier is
/// not negative, and at least as much as a non-critical hit when attack
/// exceeds defense and the multiplier is at least one (100 percent).
pub proof fn lemma_attack_damage_bounds(attacker: Stats, defender: Stats)
    ensures
        attack_damage(attacker, defender, false) >= 1,
        base_damage(attacker, defender) >= 0 && attacker.critical_damage >= 0 ==> attack_damage(
            attacker,
            defender,
            true,
        ) >= 0,
        base_damage(attacker, defender) >= 1 && attacker.critical_damage >= 100 ==> attack_damage(
            attacker,
            defender,
            true,
        ) >= attack_damage(attacker, defender, false),
{
    let b = base_damage(attacker, defender);
    let m = attacker.critical_damage as int;
    if b >= 0 && m >= 0 {
        assert(b * m >= 0) by (nonlinear_arith)
            requires
                b >= 0,
                m >= 0,
        ;
    }
    if b >= 1 && m >= 100 {
        assert(b * m >= b * 100) by (nonlinear_arith)
            requires
                b >= 1,
                m >= 100,
        ;
    }
}

} // verus!
