use slow_life_rpg::geometry::{Direction, Position};
use slow_life_rpg::monster::MonsterState;
use slow_life_rpg::monster_type::{select_tier, MonsterType, PaletteColor};
use slow_life_rpg::random::{draw_attack_rolls, draw_in, random_direction, roll_percent};
use slow_life_rpg::spawner::{
    draw_spawn, monster_respawn_system, new_monster, respawn_step, spawn_monster, SpawnDraws, ATTACK_PERIOD,
    POPULATION_CAP, RESPAWN_INTERVAL,
};
use slow_life_rpg::stats::Stats;
use slow_life_rpg::timer::RepeatingTimer;

fn draws(tier_roll: u32) -> SpawnDraws {
    SpawnDraws { x: 47_999, y: -16_000, tier_roll, direction: Direction { x: 0, y: 1000 }, wander_period: 3_000_000 }
}

#[test]
fn tier_bands() {
    let cases = [
        (0, MonsterType::Lesser),
        (49, MonsterType::Lesser),
        (50, MonsterType::Elite),
        (79, MonsterType::Elite),
        (80, MonsterType::King),
        (94, MonsterType::King),
        (95, MonsterType::Legend),
        (99, MonsterType::Legend),
    ];
    for (roll, tier) in cases {
        assert_eq!(select_tier(roll), tier, "roll {}", roll);
    }
    let total: u32 = [MonsterType::Lesser, MonsterType::Elite, MonsterType::King, MonsterType::Legend]
        .iter()
        .map(|t| t.weight())
        .sum();
    assert_eq!(total, 100);
}

#[test]
fn tier_speeds() {
    assert_eq!(MonsterType::Lesser.speeds(), (5, 10));
    assert_eq!(MonsterType::Elite.speeds(), (15, 30));
    assert_eq!(MonsterType::King.speeds(), (50, 75));
    assert_eq!(MonsterType::Legend.speeds(), (110, 150));
}

#[test]
fn weighted_draw_converges_to_weights() {
    let n = 200_000;
    let mut counts = [0u32; 4];
    for _ in 0..n {
        let i = match select_tier(roll_percent()) {
            MonsterType::Lesser => 0,
            MonsterType::Elite => 1,
            MonsterType::King => 2,
            MonsterType::Legend => 3,
        };
        counts[i] += 1;
    }
    let expected = [0.50f64, 0.30, 0.15, 0.05];
    for i in 0..4 {
        let observed = counts[i] as f64 / n as f64;
        assert!((observed - expected[i]).abs() < 0.01, "tier {}: {}", i, observed);
    }
}

#[test]
fn draws_stay_in_range_and_vary() {
    let mut seen = std::collections::HashSet::new();
    for _ in 0..2_000 {
        let v = draw_in(-3, 4);
        assert!((-3..4).contains(&v));
        seen.insert(v);
        let r = draw_attack_rolls();
        assert!(r.hit < 100 && r.evade < 100 && r.critical < 100);
    }
    assert_eq!(seen.len(), 7);
    for _ in 0..2_000 {
        let d = random_direction();
        let len2 = d.x * d.x + d.y * d.y;
        assert!(len2 == 0 || (990_000..=1_002_001).contains(&len2), "{:?}", d);
    }
    let s = draw_spawn();
    assert!((-250_000..250_000).contains(&s.x) && (-250_000..250_000).contains(&s.y));
    assert!(s.tier_roll < 100);
    assert!((2_000_000..5_000_000).contains(&s.wander_period));
}

#[test]
fn spawned_monster_from_draws() {
    let m = spawn_monster(draws(85), MonsterState::Idle);
    assert_eq!(m.position, Position { x: 32_000, y: -32_000 });
    assert_eq!(m.monster_type, MonsterType::King);
    assert_eq!(m.stats, Stats::monster_stats(MonsterType::King));
    assert_eq!(m.state, MonsterState::Idle);
    assert_eq!((m.movement.idle_speed, m.movement.aggressive_speed), (50, 75));
    assert_eq!(m.movement.direction, Direction { x: 0, y: 1000 });
    assert_eq!(m.movement_timer, RepeatingTimer::new(3_000_000));
    assert_eq!(m.attack_timer, RepeatingTimer::new(ATTACK_PERIOD));
}

#[test]
fn respawn_gates() {
    let mut timer = RepeatingTimer::new(RESPAWN_INTERVAL);
    assert_eq!(respawn_step(&mut timer, 999_999, 0, draws(0), MonsterState::Aggressive), None);
    let spawned = respawn_step(&mut timer, 1, 0, draws(0), MonsterState::Aggressive);
    assert_eq!(spawned.map(|m| (m.monster_type, m.state)), Some((MonsterType::Lesser, MonsterState::Aggressive)));
    assert_eq!(respawn_step(&mut timer, 1_000_000, POPULATION_CAP, draws(0), MonsterState::Aggressive), None);
    assert!(respawn_step(&mut timer, 1_000_000, POPULATION_CAP - 1, draws(99), MonsterState::Idle).is_some());
}

#[test]
fn population_never_exceeds_cap() {
    let mut timer = RepeatingTimer::new(RESPAWN_INTERVAL);
    let mut monsters = Vec::new();
    for tick in 0..100 {
        let spawned = monster_respawn_system(&mut timer, 1_000_000, &mut monsters, MonsterState::Idle);
        assert_eq!(spawned, tick < 20);
        assert!(monsters.len() <= POPULATION_CAP);
    }
    assert_eq!(monsters.len(), POPULATION_CAP);
    for m in &monsters {
        assert_eq!(m.position.x % 32_000, 0);
        assert_eq!(m.position.y % 32_000, 0);
    }
}

#[test]
fn tier_colors() {
    assert_eq!(MonsterType::Lesser.color(), PaletteColor::Green);
    assert_eq!(MonsterType::Elite.color(), PaletteColor::Yellow);
    assert_eq!(MonsterType::King.color(), PaletteColor::BlueViolet);
    assert_eq!(MonsterType::Legend.color(), PaletteColor::Black);
}

#[test]
fn new_monster_takes_tier_values() {
    let m = new_monster(Position::new(300_000, 0), MonsterType::Elite, MonsterState::Idle, Direction { x: 600, y: 800 }, 4_000_000);
    assert_eq!(m.stats, Stats::monster_stats(MonsterType::Elite));
    assert_eq!((m.movement.idle_speed, m.movement.aggressive_speed), (15, 30));
    assert_eq!(m.movement.direction, Direction { x: 600, y: 800 });
    assert_eq!(m.movement_timer, RepeatingTimer::new(4_000_000));
    assert_eq!(m.attack_timer, RepeatingTimer::new(ATTACK_PERIOD));
    assert_eq!(m.state, MonsterState::Idle);
}
