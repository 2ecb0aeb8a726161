use slow_life_rpg::monster_type::MonsterType;
use slow_life_rpg::stats::Stats;

#[test]
fn player_stats_defaults() {
    let s = Stats::player_stats(100, 10, 5);
    assert_eq!(s.health, 100);
    assert_eq!(s.max_health, 100);
    assert_eq!(s.attack, 10);
    assert_eq!(s.defense, 5);
    assert_eq!(s.experience, 0);
    assert_eq!(s.level, 1);
    assert_eq!(s.critical_rate, 10);
    assert_eq!(s.critical_damage, 150);
    assert_eq!(s.hit_rate, 90);
    assert_eq!(s.evasion_rate, 5);
}

#[test]
fn monster_stats_table_grows_with_tier() {
    let tiers = [MonsterType::Lesser, MonsterType::Elite, MonsterType::King, MonsterType::Legend];
    let lesser = Stats::monster_stats(MonsterType::Lesser);
    assert_eq!((lesser.health, lesser.attack, lesser.defense), (30, 5, 2));
    assert_eq!((lesser.critical_rate, lesser.critical_damage, lesser.hit_rate, lesser.evasion_rate), (5, 120, 80, 2));
    let legend = Stats::monster_stats(MonsterType::Legend);
    assert_eq!((legend.health, legend.attack, legend.defense), (500, 50, 40));
    for w in tiers.windows(2) {
        let a = Stats::monster_stats(w[0]);
        let b = Stats::monster_stats(w[1]);
        assert!(a.max_health < b.max_health);
        assert!(a.attack < b.attack);
        assert!(a.defense < b.defense);
        assert!(a.critical_rate < b.critical_rate);
        assert!(a.critical_damage < b.critical_damage);
        assert!(a.hit_rate < b.hit_rate);
        assert!(a.evasion_rate < b.evasion_rate);
        assert_eq!(b.health, b.max_health);
        assert_eq!(b.level, 1);
    }
}

#[test]
fn level_up_increments_and_heals() {
    let mut s = Stats::player_stats(100, 10, 5);
    s.health = 3;
    s.level_up();
    assert_eq!(s.level, 2);
    assert_eq!(s.max_health, 110);
    assert_eq!(s.health, 110);
    assert_eq!(s.attack, 12);
    assert_eq!(s.defense, 7);
    assert_eq!(s.critical_rate, 11);
    assert_eq!(s.critical_damage, 155);
    assert_eq!(s.hit_rate, 91);
    assert_eq!(s.evasion_rate, 6);
}

#[test]
fn level_up_is_monotonic_over_many_calls() {
    let mut s = Stats::monster_stats(MonsterType::Elite);
    for _ in 0..20 {
        let before = s;
        s.level_up();
        assert!(s.max_health > before.max_health);
        assert!(s.attack > before.attack);
        assert!(s.defense > before.defense);
        assert!(s.critical_rate >= before.critical_rate);
        assert!(s.critical_damage >= before.critical_damage);
        assert!(s.hit_rate >= before.hit_rate);
        assert!(s.evasion_rate >= before.evasion_rate);
        assert_eq!(s.health, s.max_health);
    }
}

#[test]
fn exp_next_level_is_level_times_hundred() {
    let mut s = Stats::player_stats(100, 10, 5);
    assert_eq!(s.exp_next_level(), 100);
    s.level = 7;
    assert_eq!(s.exp_next_level(), 700);
}

#[test]
fn gain_below_threshold_keeps_level() {
    let mut s = Stats::player_stats(100, 10, 5);
    s.health = 40;
    s.gain_experience(99);
    assert_eq!(s.level, 1);
    assert_eq!(s.experience, 99);
    assert_eq!(s.health, 40);
}

#[test]
fn gain_exactly_threshold_levels_once() {
    let mut s = Stats::player_stats(100, 10, 5);
    s.gain_experience(100);
    assert_eq!(s.level, 2);
    assert_eq!(s.experience, 0);
    assert_eq!(s.max_health, 110);
    assert_eq!(s.health, 110);
}

#[test]
fn gain_pays_several_levels_in_one_call() {
    // 100 for level 1, 200 for level 2, 300 for level 3: 650 buys three levels, 50 left.
    let mut s = Stats::player_stats(100, 10, 5);
    s.gain_experience(650);
    assert_eq!(s.level, 4);
    assert_eq!(s.experience, 50);
    assert_eq!(s.max_health, 130);
    assert_eq!(s.attack, 16);
    assert_eq!(s.defense, 11);
    assert_eq!(s.critical_damage, 165);
}

#[test]
fn one_point_at_a_time_matches_one_call() {
    for n in [0, 1, 99, 100, 101, 450, 1234] {
        let mut a = Stats::player_stats(100, 10, 5);
        a.health = 60;
        let mut b = a;
        for _ in 0..n {
            a.gain_experience(1);
        }
        b.gain_experience(n);
        assert_eq!(a, b, "n = {}", n);
    }
}

#[test]
fn split_gains_match_one_call() {
    let mut a = Stats::player_stats(100, 10, 5);
    let mut b = a;
    a.gain_experience(170);
    a.gain_experience(260);
    b.gain_experience(430);
    assert_eq!(a, b);
    assert_eq!(b.level, 3);
    assert_eq!(b.experience, 130);
}

#[test]
fn can_gain_experience_refuses_overflow() {
    let s = Stats::player_stats(100, 10, 5);
    assert!(s.can_gain_experience(100));
    assert!(!s.can_gain_experience(-1));
    let mut full = s;
    full.experience = i32::MAX - 10;
    assert!(!full.can_gain_experience(11));
    let mut strong = s;
    strong.max_health = i32::MAX - 5;
    assert!(strong.can_gain_experience(99));
    assert!(!strong.can_gain_experience(100));
    let mut zero_level = s;
    zero_level.level = 0;
    assert!(!zero_level.can_gain_experience(1));
}
