//! Combat statistics of an entity and the law of experience and levelling.
use vstd::prelude::*;

verus! {

/// Experience needed per level: reaching level `n + 1` from level `n` costs `n * 100`.
pub const EXPERIENCE_PER_LEVEL: i32 = 100;

/// Maximum health gained on each level-up.
pub const LEVEL_UP_HEALTH: i32 = 10;

/// Attack and defense gained on each level-up.
pub const LEVEL_UP_ATTACK: i32 = 2;

pub const LEVEL_UP_DEFENSE: i32 = 2;

/// Critical rate, hit rate and evasion rate gained on each level-up, in percent.
pub const LEVEL_UP_RATE: i32 = 1;

/// Critical damage multiplier gained on each level-up, in percent.
pub const LEVEL_UP_CRITICAL_DAMAGE: i32 = 5;

/// Combat attributes of one entity.
///
/// Rates are whole percentages: a `hit_rate` of 90 lands nine attacks out of ten.
/// `critical_damage` is a multiplier in percent: 150 deals one and a half times
/// the base damage.
#[derive(Clone, Copy, Debug, PartialEq, Eq, Structural)]
pub struct Stats {
    pub health: i32,
    pub max_health: i32,
    pub attack: i32,
    pub defense: i32,
    pub experience: i32,
    pub level: i32,
    pub critical_rate: i32,
    pub critical_damage: i32,
    pub hit_rate: i32,
    pub evasion_rate: i32,
}

/// The values of a `Stats` record as mathematical integers.
pub struct StatsView {
    pub health: int,
    pub max_health: int,
    pub attack: int,
    pub defense: int,
    pub experience: int,
    pub level: int,
    pub critical_rate: int,
    pub critical_damage: int,
    pub hit_rate: int,
    pub evasion_rate: int,
}

impl View for Stats {
    type V = StatsView;

    open spec fn view(&self) -> StatsView {
        StatsView {
            health: self.health as int,
            max_health: self.max_health as int,
            attack: self.attack as int,
            defense: self.defense as int,
            experience: self.experience as int,
            level: self.level as int,
            critical_rate: self.critical_rate as int,
            critical_damage: self.critical_damage as int,
            hit_rate: self.hit_rate as int,
            evasion_rate: self.evasion_rate as int,
        }
    }
}

pub open spec fn fits_i32(x: int) -> bool {
    i32::MIN <= x <= i32::MAX
}

/// Every field of `v` can be stored in a `Stats` record.
pub open spec fn storable(v: StatsView) -> bool {
    &&& fits_i32(v.health)
    &&& fits_i32(v.max_health)
    &&& fits_i32(v.attack)
    &&& fits_i32(v.defense)
    &&& fits_i32(v.experience)
    &&& fits_i32(v.level)
    &&& fits_i32(v.critical_rate)
    &&& fits_i32(v.critical_damage)
    &&& fits_i32(v.hit_rate)
    &&& fits_i32(v.evasion_rate)
}

/// Experience needed to leave `level`.
pub open spec fn threshold(level: int) -> int {
    level * 100
}

/// How many level-ups a pool of `exp` experience pays for, starting at `level`.
pub open spec fn level_ups(level: int, exp: int) -> nat
    decreases exp,
{
    if 1 <= level && threshold(level) <= exp {
        1 + level_ups(level + 1, exp - threshold(level))
    } else {
        0
    }
}

/// The experience that remains once `level_ups(level, exp)` level-ups are paid.
pub open spec fn experience_left(level: int, exp: int) -> int
    decreases exp,
{
    if 1 <= level && threshold(level) <= exp {
        experience_left(level + 1, exp - threshold(level))
    } else {
        exp
    }
}

/// Sum of the thresholds of the `k` levels from `level` on.
pub open spec fn threshold_sum(level: int, k: nat) -> int
    decreases k,
{
    if k == 0 {
        0
    } else {
        threshold_sum(level, (k - 1) as nat) + threshold(level + k - 1)
    }
}

/// `v` after `k` level-ups; experience is left as it is.
pub open spec fn leveled(v: StatsView, k: nat) -> StatsView {
    StatsView {
        health: if k > 0 { v.max_health + 10 * k } else { v.health },
        max_health: v.max_health + 10 * k,
        attack: v.attack + 2 * k,
        defense: v.defense + 2 * k,
        experience: v.experience,
        level: v.level + k,
        critical_rate: v.critical_rate + k,
        critical_damage: v.critical_damage + 5 * k,
        hit_rate: v.hit_rate + k,
        evasion_rate: v.evasion_rate + k,
    }
}

/// `v` after gaining `amount` experience, with every level-up it pays for.
pub open spec fn gained(v: StatsView, amount: int) -> StatsView {
    let pool = v.experience + amount;
    let k = level_ups(v.level, pool);
    let l = leveled(v, k);
    StatsView {
        health: l.health,
        max_health: l.max_health,
        attack: l.attack,
        defense: l.defense,
        experience: experience_left(v.level, pool),
        level: l.level,
        critical_rate: l.critical_rate,
        critical_damage: l.critical_damage,
        hit_rate: l.hit_rate,
        evasion_rate: l.evasion_rate,
    }
}

/// `v` after `n` separate gains of one experience point each.
pub open spec fn gained_one_at_a_time(v: StatsView, n: nat) -> StatsView
    decreases n,
{
    if n == 0 {
        v
    } else {
        gained(gained_one_at_a_time(v, (n - 1) as nat), 1)
    }
}

proof fn lemma_threshold_sum_shift(level: int, k: nat)
    ensures
        threshold_sum(level, k + 1) == threshold(level) + threshold_sum(level + 1, k),
    decreases k,
{
    assert(threshold_sum(level, k + 1) == threshold_sum(level, k) + threshold(level + k));
    if k > 0 {
        lemma_threshold_sum_shift(level, (k - 1) as nat);
        assert(threshold_sum(level + 1, k) == threshold_sum(level + 1, (k - 1) as nat) + threshold(
            level + k,
        ));
    } else {
        assert(threshold_sum(level, 0) == 0);
        assert(threshold_sum(level + 1, 0) == 0);
    }
}

/// The level-ups that a pool of experience pays for are exactly those whose
/// thresholds it covers: the thresholds of the `k` levels passed sum to at most
/// the pool, one more threshold would exceed it, and what is left over is the
/// difference, below the threshold of the level reached.
pub proof fn lemma_level_ups_exhaust_thresholds(level: int, pool: int)
    requires
        level >= 1,
        pool >= 0,
    ensures
        threshold_sum(level, level_ups(level, pool)) <= pool,
        pool < threshold_sum(level, level_ups(level, pool) + 1),
        experience_left(level, pool) == pool - threshold_sum(level, level_ups(level, pool)),
        0 <= experience_left(level, pool) < threshold(level + level_ups(level, pool)),
        experience_left(level, pool) <= pool,
    decreases pool,
{
    let k = level_ups(level, pool);
    if threshold(level) <= pool {
        let rest = pool - threshold(level);
        lemma_level_ups_exhaust_thresholds(level + 1, rest);
        let k1 = level_ups(level + 1, rest);
        assert(k == k1 + 1);
        lemma_threshold_sum_shift(level, k1);
        lemma_threshold_sum_shift(level, k1 + 1);
    } else {
        assert(k == 0);
        assert(threshold_sum(level, 1) == threshold_sum(level, 0) + threshold(level));
    }
}

proof fn lemma_pool_split(level: int, x: int, b: int)
    requires
        level >= 1,
        x >= 0,
        b >= 0,
    ensures
        level_ups(level, x + b) == level_ups(level, x) + level_ups(
            level + level_ups(level, x),
            experience_left(level, x) + b,
        ),
        experience_left(level, x + b) == experience_left(
            level + level_ups(level, x),
            experience_left(level, x) + b,
        ),
    decreases x,
{
    if threshold(level) <= x {
        let rest = x - threshold(level);
        lemma_pool_split(level + 1, rest, b);
        assert(x + b - threshold(level) == rest + b);
    }
}

/// Experience applies additively: gaining `a` and then `b` ends in the same
/// stats as gaining `a + b` at once.
pub proof fn lemma_gain_experience_additive(v: StatsView, a: int, b: int)
    requires
        v.level >= 1,
        v.experience >= 0,
        a >= 0,
        b >= 0,
    ensures
        gained(gained(v, a), b) == gained(v, a + b),
{
    let x = v.experience + a;
    lemma_level_ups_exhaust_thresholds(v.level, x);
    lemma_pool_split(v.level, x, b);
    assert(v.experience + (a + b) == x + b);
}

/// Room to gain `n` experience leaves room to gain any smaller amount `k`; so
/// when `gain_experience(n)` may be called, so may each of `n` calls of one
/// point in turn (the stats before call `k + 1` are `gained(v, k)`, and
/// gaining one more from there is gaining `k + 1` from `v`).
pub proof fn lemma_can_gain_less(s: Stats, n: int, k: int)
    requires
        s.level >= 1,
        s.experience >= 0,
        0 <= k <= n,
        s.can_gain(n),
    ensures
        s.can_gain(k),
{
    let e = s.experience as int;
    lemma_level_ups_exhaust_thresholds(s.level as int, e + k);
    lemma_pool_split(s.level as int, e + k, n - k);
    assert(e + k + (n - k) == e + n);
}

/// Gaining `n` experience points in `n` calls of one point each ends in the same
/// stats as gaining all `n` in one call. With no call at all this holds when the
/// experience is already below the threshold of the current level.
pub proof fn lemma_gain_experience_one_at_a_time(v: StatsView, n: nat)
    requires
        v.level >= 1,
        v.experience >= 0,
        n >= 1 || v.experience < threshold(v.level),
    ensures
        gained_one_at_a_time(v, n) == gained(v, n as int),
    decreases n,
{
    if n == 0 {
        assert(level_ups(v.level, v.experience) == 0);
        assert(experience_left(v.level, v.experience) == v.experience);
    } else if n == 1 {
        assert(gained_one_at_a_time(v, 0) == v);
    } else {
        lemma_gain_experience_one_at_a_time(v, (n - 1) as nat);
        lemma_gain_experience_additive(v, n - 1, 1);
    }
}

impl Stats {
    /// Whether gaining `amount` experience keeps every field storable.
    pub open spec fn can_gain(&self, amount: int) -> bool {
        &&& fits_i32(self.experience + amount)
        &&& storable(gained(self@, amount))
    }

    /// Stats of a new player: full health, level 1, no experience, a 10% critical
    /// rate at 150% damage, a 90% hit rate and a 5% evasion rate.
    pub fn player_stats(health: i32, attack: i32, defense: i32) -> (s: Stats)
        ensures
            s == (Stats {
                health,
                max_health: health,
                attack,
                defense,
                experience: 0,
                level: 1,
                critical_rate: 10,
                critical_damage: 150,
                hit_rate: 90,
                evasion_rate: 5,
            }),
    {
        Stats {
            health,
            max_health: health,
            attack,
            defense,
            experience: 0,
            level: 1,
            critical_rate: 10,
            critical_damage: 150,
            hit_rate: 90,
            evasion_rate: 5,
        }
    }

    /// Experience needed to leave the current level.
    pub fn exp_next_level(&self) -> (r: i32)
        requires
            fits_i32(threshold(self.level as int)),
        ensures
            r == threshold(self.level as int),
    {
        self.level * EXPERIENCE_PER_LEVEL
    }

    /// One level-up: the level rises by one, maximum health by 10, attack and
    /// defense by 2, critical, hit and evasion rates by one point, the critical
    /// multiplier by five points, and health is restored to the new maximum.
    pub fn level_up(&mut self)
        requires
            storable(leveled(old(self)@, 1)),
        ensures
            final(self)@ == leveled(old(self)@, 1),
            final(self).level == old(self).level + 1,
            final(self).max_health > old(self).max_health,
            final(self).attack > old(self).attack,
            final(self).defense > old(self).defense,
            final(self).critical_rate >= old(self).critical_rate,
            final(self).critical_damage >= old(self).critical_damage,
            final(self).hit_rate >= old(self).hit_rate,
            final(self).evasion_rate >= old(self).evasion_rate,
            final(self).health == final(self).max_health,
    {
        self.level = self.level + 1;
        self.max_health = self.max_health + LEVEL_UP_HEALTH;
        self.attack = self.attack + LEVEL_UP_ATTACK;
        self.defense = self.defense + LEVEL_UP_DEFENSE;
        self.health = self.max_health;
        self.critical_rate = self.critical_rate + LEVEL_UP_RATE;
        self.critical_damage = self.critical_damage + LEVEL_UP_CRITICAL_DAMAGE;
        self.hit_rate = self.hit_rate + LEVEL_UP_RATE;
        self.evasion_rate = self.evasion_rate + LEVEL_UP_RATE;
    }

    /// Adds `amount` experience, then levels up as long as the experience
    /// reaches the threshold of the current level, paying that threshold each time.
    pub fn gain_experience(&mut self, amount: i32)
        requires
            old(self).level >= 1,
            old(self).experience >= 0,
            amount >= 0,
            old(self).can_gain(amount as int),
        ensures
            final(self)@ == gained(old(self)@, amount as int),
    {
        let ghost start = self@;
        let ghost pool = self.experience + amount;
        let ghost total = level_ups(start.level, pool);
        self.experience = self.experience + amount;
        while (self.experience as i64) >= (self.level as i64) * (EXPERIENCE_PER_LEVEL as i64)
            invariant
                self.level >= 1,
                self.experience >= 0,
                start.level <= self.level,
                self.level - start.level + level_ups(self.level as int, self.experience as int) == total,
                experience_left(self.level as int, self.experience as int) == experience_left(start.level, pool),
                self@ == (StatsView {
                    experience: self.experience as int,
                    ..leveled(start, (self.level - start.level) as nat)
                }),
                storable(gained(start, amount as int)),
                start.experience + amount == pool,
                total == level_ups(start.level, pool),
            decreases self.experience,
        {
            let ghost j = (self.level - start.level) as nat;
            assert(j < total);
            let ghost g = gained(start, amount as int);
            assert(g.level == start.level + total);
            assert(storable(leveled(self@, 1))) by {
                assert(g.max_health == start.max_health + 10 * total);
                assert(g.health == g.max_health);
                assert(g.attack == start.attack + 2 * total);
                assert(g.defense == start.defense + 2 * total);
                assert(g.critical_damage == start.critical_damage + 5 * total);
            }
            self.experience = self.experience - self.level * EXPERIENCE_PER_LEVEL;
            self.level_up();
        }
    }

    /// Whether `gain_experience(amount)` may be called: the level is at least
    /// one, experience and amount are not negative, and every value reached
    /// is storable.
    pub fn can_gain_experience(&self, amount: i32) -> (r: bool)
        ensures
            r == (self.level >= 1 && self.experience >= 0 && amount >= 0 && self.can_gain(
                amount as int,
            )),
    {
        if self.level < 1 || self.experience < 0 || amount < 0 {
            return false;
        }
        let pool: i64 = self.experience as i64 + amount as i64;
        let mut level: i64 = self.level as i64;
        let mut exp: i64 = pool;
        let mut k: i64 = 0;
        while exp >= level * 100
            invariant
                level >= 1,
                exp >= 0,
                0 <= k,
                level == self.level + k,
                exp <= pool,
                pool == self.experience + amount,
                pool <= 0x1_0000_0000,
                k * 100 <= pool - exp,
                k + level_ups(level as int, exp as int) == level_ups(self.level as int, pool as int),
                experience_left(level as int, exp as int) == experience_left(
                    self.level as int,
                    pool as int,
                ),
            decreases exp,
        {
            exp = exp - level * 100;
            level = level + 1;
            k = k + 1;
        }
        let max = 0x7fff_ffff_i64;
        pool <= max && level <= max && self.max_health as i64 + 10 * k <= max && self.attack as i64
            + 2 * k <= max && self.defense as i64 + 2 * k <= max && self.critical_rate as i64 + k
            <= max && self.critical_damage as i64 + 5 * k <= max && self.hit_rate as i64 + k <= max
            && self.evasion_rate as i64 + k <= max
    }
}

} // verus!
