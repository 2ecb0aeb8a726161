use slow_life_rpg::combat::DamageOutcome;
use slow_life_rpg::geometry::{
    closer_than, direction_toward, distance_squared, isqrt, move_along, normalize, snap_to_grid,
    within, Direction, Position, WORLD_LIMIT,
};
use slow_life_rpg::monster::{
    monster_attack_step, monster_attack_system, monster_movement_system, monster_state_system,
    move_monster, next_state, Monster, MonsterMovement, MonsterState, StateChange,
    DETECTION_RADIUS,
};
use slow_life_rpg::combat::AttackRolls;
use slow_life_rpg::monster_type::MonsterType;
use slow_life_rpg::stats::Stats;
use slow_life_rpg::timer::RepeatingTimer;

fn monster_at(x: i64, y: i64, state: MonsterState) -> Monster {
    Monster {
        position: Position::new(x, y),
        monster_type: MonsterType::Lesser,
        stats: Stats::monster_stats(MonsterType::Lesser),
        state,
        movement: MonsterMovement { direction: Direction { x: 1000, y: 0 }, idle_speed: 5, aggressive_speed: 10 },
        movement_timer: RepeatingTimer::new(2_000_000),
        attack_timer: RepeatingTimer::new(2_000_000),
    }
}

#[test]
fn timer_fires_and_carries_over() {
    let mut t = RepeatingTimer::new(1000);
    assert!(!t.tick(400));
    assert_eq!(t.elapsed, 400);
    assert!(t.tick(600));
    assert_eq!(t.elapsed, 0);
    assert!(t.tick(2500));
    assert_eq!(t.elapsed, 500);
    assert!(t.finished);
    t.reset();
    assert_eq!((t.elapsed, t.finished), (0, false));
    let mut z = RepeatingTimer::new(0);
    assert!(z.tick(0));
    assert_eq!(z.elapsed, 0);
}

#[test]
fn snapping_rounds_half_away_from_zero() {
    assert_eq!(snap_to_grid(&Position::new(16_000, -16_000)), Position { x: 32_000, y: -32_000 });
    assert_eq!(snap_to_grid(&Position::new(15_999, -15_999)), Position { x: 0, y: 0 });
    assert_eq!(snap_to_grid(&Position::new(300_000, 47_999)), Position { x: 288_000, y: 32_000 });
    assert_eq!(snap_to_grid(&Position::new(-249_000, 249_999)), Position { x: -256_000, y: 256_000 });
}

#[test]
fn positions_clamp_to_world() {
    let p = Position::new(i64::MAX, i64::MIN);
    assert_eq!(p, Position { x: WORLD_LIMIT, y: -WORLD_LIMIT });
    let far = move_along(&p, &Direction { x: 1000, y: -1000 }, u32::MAX, u64::MAX);
    assert_eq!(far, p);
}

#[test]
fn distances() {
    let a = Position::new(0, 0);
    let b = Position::new(3_000, 4_000);
    assert_eq!(distance_squared(&a, &b), 25_000_000);
    assert!(within(&a, &b, 5_000));
    assert!(!closer_than(&a, &b, 5_000));
    assert!(closer_than(&a, &b, 5_001));
    assert!(!within(&a, &b, 4_999));
}

#[test]
fn square_roots_and_directions() {
    assert_eq!(isqrt(0), 0);
    assert_eq!(isqrt(10), 3);
    assert_eq!(isqrt(16), 4);
    assert_eq!(isqrt(8_000_000_000_000_000_000_000_000_000_000), 2_828_427_124_746_190);
    assert_eq!(normalize(3_000, 4_000), Direction { x: 600, y: 800 });
    assert_eq!(normalize(0, 0), Direction { x: 0, y: 0 });
    assert_eq!(normalize(-7, 0), Direction { x: -1000, y: 0 });
    assert_eq!(normalize(1, 1), Direction { x: 707, y: 707 });
    assert_eq!(normalize(100, 100), Direction { x: 707, y: 707 });
    let d = direction_toward(&Position::new(10_000, 10_000), &Position::new(10_000, -5_000));
    assert_eq!(d, Direction { x: 0, y: -1000 });
}

#[test]
fn moving_along_a_direction() {
    let p = Position::new(0, 0);
    // 10 units per second for one second along x: ten thousand thousandths
    assert_eq!(move_along(&p, &Direction { x: 1000, y: 0 }, 10, 1_000_000), Position { x: 10_000, y: 0 });
    // 16 ms at 5 units per second along (-0.6, 0.8)
    assert_eq!(move_along(&p, &Direction { x: -600, y: 800 }, 5, 16_000), Position { x: -48, y: 64 });
    // components round toward zero
    assert_eq!(move_along(&p, &Direction { x: -1, y: 1 }, 1, 1), Position { x: 0, y: 0 });
}

#[test]
fn state_follows_detection_radius() {
    let player = Position::new(0, 0);
    assert_eq!(next_state(MonsterState::Idle, &Position::new(DETECTION_RADIUS, 0), &player), MonsterState::Aggressive);
    assert_eq!(next_state(MonsterState::Aggressive, &Position::new(DETECTION_RADIUS + 1, 0), &player), MonsterState::Idle);
    assert_eq!(next_state(MonsterState::Aggressive, &Position::new(90_000, 120_000), &player), MonsterState::Aggressive);
    assert_eq!(next_state(MonsterState::Idle, &Position::new(90_000, 120_001), &player), MonsterState::Idle);
}

#[test]
fn state_system_reports_changes() {
    let player = Position::new(0, 0);
    let mut ms = vec![
        monster_at(10_000, 0, MonsterState::Idle),
        monster_at(10_000, 0, MonsterState::Aggressive),
        monster_at(500_000, 0, MonsterState::Aggressive),
        monster_at(500_000, 0, MonsterState::Idle),
    ];
    let changes = monster_state_system(&mut ms, &player);
    assert_eq!(
        changes,
        vec![
            StateChange { index: 0, state: MonsterState::Aggressive },
            StateChange { index: 2, state: MonsterState::Idle },
        ]
    );
    for m in &ms {
        let near = within(&m.position, &player, DETECTION_RADIUS);
        assert_eq!(m.state == MonsterState::Aggressive, near);
    }
}

#[test]
fn aggressive_monster_chases_player() {
    let mut m = monster_at(100_000, 0, MonsterState::Aggressive);
    let before = m.movement;
    move_monster(&mut m, &Position::new(0, 0), 1_000_000, Direction { x: 0, y: 1000 });
    assert_eq!(m.position, Position { x: 90_000, y: 0 });
    assert_eq!(m.movement, before);
}

#[test]
fn idle_monster_wanders_and_turns_at_boundary() {
    let mut m = monster_at(0, 0, MonsterState::Idle);
    move_monster(&mut m, &Position::new(0, 0), 1_000_000, Direction { x: 0, y: 1000 });
    // timer not due: keeps heading along x at idle speed
    assert_eq!(m.position, Position { x: 5_000, y: 0 });
    assert_eq!(m.movement_timer.elapsed, 1_000_000);

    let mut out = monster_at(260_000, -10_000, MonsterState::Idle);
    move_monster(&mut out, &Position::new(0, 0), 2_000_000, Direction { x: 600, y: -800 });
    // timer fires: fresh direction, x turned back inside the boundary
    assert_eq!(out.movement.direction, Direction { x: -600, y: -800 });
    assert_eq!(out.movement_timer.elapsed, 0);
    assert_eq!(out.position, Position { x: 254_000, y: -18_000 });
}

#[test]
fn movement_system_moves_everyone() {
    let player = Position::new(0, 0);
    let mut ms = vec![monster_at(100_000, 0, MonsterState::Aggressive), monster_at(-300_000, 0, MonsterState::Idle)];
    monster_movement_system(&mut ms, &player, 500_000);
    assert_eq!(ms[0].position, Position { x: 95_000, y: 0 });
    assert_eq!(ms[1].position, Position { x: -297_500, y: 0 });
}

#[test]
fn attack_timer_gates_monster_attacks() {
    let player_pos = Position::new(0, 0);
    let mut player = Stats::player_stats(100, 10, 0);
    let rolls = AttackRolls { hit: 0, evade: 0, critical: 99 };

    let mut near = monster_at(20_000, 0, MonsterState::Aggressive);
    assert_eq!(monster_attack_step(&mut near, &mut player, &player_pos, 1_000_000, rolls), None);
    assert_eq!(near.attack_timer.elapsed, 1_000_000);
    let hit = monster_attack_step(&mut near, &mut player, &player_pos, 1_000_000, rolls);
    assert_eq!(hit, Some(DamageOutcome::Hit { damage: 5, critical: false }));
    assert_eq!(player.health, 95);
    assert_eq!(near.attack_timer.elapsed, 0);

    let mut far = monster_at(40_000, 0, MonsterState::Aggressive);
    assert_eq!(monster_attack_step(&mut far, &mut player, &player_pos, 2_000_000, rolls), None);
    assert_eq!(far.attack_timer.elapsed, 0);

    let mut idle = monster_at(0, 0, MonsterState::Idle);
    assert_eq!(monster_attack_step(&mut idle, &mut player, &player_pos, 5_000_000, rolls), None);
    assert_eq!(idle.attack_timer.elapsed, 0);
    assert_eq!(player.health, 95);
}

#[test]
fn attack_system_never_destroys_player() {
    let player_pos = Position::new(0, 0);
    let mut player = Stats::player_stats(30, 10, 0);
    let mut ms: Vec<Monster> = (0..6).map(|i| {
        let mut m = monster_at(i * 1_000, 0, MonsterState::Aggressive);
        m.stats = Stats::monster_stats(MonsterType::Legend);
        m
    }).collect();
    for _ in 0..20 {
        let attacks = monster_attack_system(&mut ms, &mut player, &player_pos, 2_000_000);
        assert!(player.health >= 1);
        assert!(player.health <= player.max_health);
        for a in attacks {
            assert!(a.index < ms.len());
        }
    }
    assert_eq!(player.max_health, 30);
}
