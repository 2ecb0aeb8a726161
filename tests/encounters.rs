use slow_life_rpg::combat::{AttackOutcome, AttackRolls, DamageOutcome};
use slow_life_rpg::encounter::{combat_system, nearest_in_reach, npc_interaction, RetaliationPolicy};
use slow_life_rpg::geometry::{Direction, Position};
use slow_life_rpg::monster::{Monster, MonsterMovement, MonsterState, DETECTION_RADIUS};
use slow_life_rpg::monster_type::MonsterType;
use slow_life_rpg::spawner::POPULATION_CAP;
use slow_life_rpg::stats::Stats;
use slow_life_rpg::timer::RepeatingTimer;
use slow_life_rpg::world::{SimulationConfig, TickInput, World};

const HIT: AttackRolls = AttackRolls { hit: 0, evade: 99, critical: 99 };

fn lesser_at(x: i64, y: i64) -> Monster {
    Monster {
        position: Position::new(x, y),
        monster_type: MonsterType::Lesser,
        stats: Stats::monster_stats(MonsterType::Lesser),
        state: MonsterState::Idle,
        movement: MonsterMovement { direction: Direction { x: 0, y: 0 }, idle_speed: 5, aggressive_speed: 10 },
        movement_timer: RepeatingTimer::new(2_000_000),
        attack_timer: RepeatingTimer::new(2_000_000),
    }
}

#[test]
fn nearest_monster_in_reach() {
    let p = Position::new(0, 0);
    let ms = vec![lesser_at(31_000, 0), lesser_at(0, -20_000), lesser_at(20_000, 0), lesser_at(1_000, 40_000)];
    assert_eq!(nearest_in_reach(&ms, &p, 32_000), Some(1));
    let none = vec![lesser_at(32_000, 0), lesser_at(0, 50_000)];
    assert_eq!(nearest_in_reach(&none, &p, 32_000), None);
    assert_eq!(nearest_in_reach(&Vec::new(), &p, 32_000), None);
}

#[test]
fn attack_requires_key_and_target() {
    let p = Position::new(0, 0);
    let mut player = Stats::player_stats(100, 10, 5);
    let mut ms = vec![lesser_at(10_000, 0)];
    let before = ms.clone();
    assert_eq!(combat_system(&mut player, &p, &mut ms, false, HIT, HIT, RetaliationPolicy::Immediate), None);
    assert_eq!(ms, before);
    let mut far = vec![lesser_at(40_000, 0)];
    assert_eq!(combat_system(&mut player, &p, &mut far, true, HIT, HIT, RetaliationPolicy::Immediate), None);
}

#[test]
fn surviving_monster_retaliates_at_once() {
    let p = Position::new(0, 0);
    let mut player = Stats::player_stats(100, 10, 5);
    let mut ms = vec![lesser_at(30_000, 0), lesser_at(10_000, 0)];
    let back = AttackRolls { hit: 0, evade: 0, critical: 99 };
    let e = combat_system(&mut player, &p, &mut ms, true, HIT, back, RetaliationPolicy::Immediate).unwrap();
    assert_eq!(e.index, 1);
    assert_eq!(e.outcome, AttackOutcome::Hit { damage: 8 });
    assert_eq!(e.retaliation, Some(DamageOutcome::Hit { damage: 1, critical: false }));
    assert_eq!(ms[1].stats.health, 22);
    assert_eq!(ms[0].stats.health, 30);
    assert_eq!(player.health, 99);
}

#[test]
fn timer_only_policy_never_retaliates() {
    let p = Position::new(0, 0);
    let mut player = Stats::player_stats(100, 10, 5);
    let mut ms = vec![lesser_at(10_000, 0)];
    let e = combat_system(&mut player, &p, &mut ms, true, HIT, HIT, RetaliationPolicy::TimerOnly).unwrap();
    assert_eq!(e.retaliation, None);
    assert_eq!(player.health, 100);
}

#[test]
fn missed_attack_draws_no_retaliation() {
    let p = Position::new(0, 0);
    let mut player = Stats::player_stats(100, 10, 5);
    let mut ms = vec![lesser_at(10_000, 0)];
    let miss = AttackRolls { hit: 99, evade: 99, critical: 99 };
    let e = combat_system(&mut player, &p, &mut ms, true, miss, HIT, RetaliationPolicy::Immediate).unwrap();
    assert_eq!(e.outcome, AttackOutcome::Miss);
    assert_eq!(e.retaliation, None);
    assert_eq!(ms[0].stats.health, 30);
}

#[test]
fn defeated_monster_is_removed() {
    let p = Position::new(0, 0);
    let mut player = Stats::player_stats(100, 10, 5);
    let mut ms = vec![lesser_at(-5_000, 0), lesser_at(10_000, 0)];
    ms[0].stats.health = 8;
    let e = combat_system(&mut player, &p, &mut ms, true, HIT, HIT, RetaliationPolicy::Immediate).unwrap();
    assert_eq!(e.index, 0);
    assert_eq!(e.outcome, AttackOutcome::DefenderDefeated { damage: 8 });
    assert_eq!(e.retaliation, None);
    assert_eq!(ms.len(), 1);
    assert_eq!(ms[0].position, Position { x: 10_000, y: 0 });
    assert_eq!(player.level, 2);
}

#[test]
fn talking_grants_experience() {
    let p = Position::new(0, 0);
    let mut player = Stats::player_stats(100, 10, 5);
    let npcs = vec![Position::new(20_000, 0), Position::new(200_000, 0), Position::new(0, 31_999)];
    assert_eq!(npc_interaction(&mut player, &p, &npcs, false), 0);
    assert_eq!(player.experience, 0);
    assert_eq!(npc_interaction(&mut player, &p, &npcs, true), 2);
    let mut expected = Stats::player_stats(100, 10, 5);
    expected.gain_experience(100_000);
    assert_eq!(player, expected);
}

#[test]
fn world_tick_keeps_states_and_cap() {
    let config = SimulationConfig { initial_state: MonsterState::Aggressive, retaliation: RetaliationPolicy::Immediate };
    let mut world = World::new(Stats::player_stats(100, 10, 5), config);
    for tick in 0..120 {
        let input = TickInput {
            dt: 250_000,
            player_position: Position::new((tick % 7) * 20_000, -(tick % 5) * 30_000),
            attack_pressed: tick % 3 == 0,
        };
        let health_before = world.player.health;
        let count_before = world.monsters.len();
        let level_before = world.player.level;
        let report = world.tick(input);
        let defeated = matches!(
            report.engagement,
            Some(e) if matches!(e.outcome, AttackOutcome::DefenderDefeated { .. })
        );
        assert_eq!(world.monsters.len() + defeated as usize, count_before + report.spawned as usize);
        if !input.attack_pressed {
            assert!(report.engagement.is_none());
        }
        assert!(world.player.health <= world.player.max_health);
        assert_eq!(report.levels_gained, (world.player.level - level_before) as i64);
        assert!(world.monsters.len() <= POPULATION_CAP);
        for m in &world.monsters {
            let dx = (m.position.x - input.player_position.x) as i128;
            let dy = (m.position.y - input.player_position.y) as i128;
            let near = dx * dx + dy * dy <= (DETECTION_RADIUS as i128) * (DETECTION_RADIUS as i128);
            assert_eq!(m.state == MonsterState::Aggressive, near);
        }
        assert!(health_before < 1 || world.player.health >= 1);
        for a in &report.monster_attacks {
            assert!(a.index < world.monsters.len());
        }
    }
    assert_eq!(world.player_position, Position::new((119 % 7) * 20_000, -(119 % 5) * 30_000));
}

#[test]
fn world_tick_attacks_nearest_before_spawning() {
    let config = SimulationConfig { initial_state: MonsterState::Idle, retaliation: RetaliationPolicy::TimerOnly };
    let mut world = World::new(Stats::player_stats(100, 10, 5), config);
    assert_eq!(world.player_position, Position { x: 0, y: 0 });
    world.monsters.push(lesser_at(20_000, 0));
    world.monsters.push(lesser_at(10_000, 0));
    let input = TickInput { dt: 1_000_000, player_position: Position::new(0, 0), attack_pressed: true };
    let report = world.tick(input);
    let e = report.engagement.expect("a monster is within reach");
    assert_eq!(e.index, 1);
    assert!(report.spawned);
    assert_eq!(world.monsters.len(), 3);
    // idle with no wander direction, the two did not move; now both pursue the player
    assert_eq!(world.monsters[0].position, Position { x: 20_000, y: 0 });
    assert_eq!(world.monsters[0].state, MonsterState::Aggressive);
    assert_eq!(world.monsters[1].state, MonsterState::Aggressive);
}
