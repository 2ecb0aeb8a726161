//! Monster rarity tiers: their draw weights, speeds and base stats.
use vstd::prelude::*;
use crate::stats::Stats;

verus! {

/// Rolls for a tier are drawn uniformly from `0..TIER_ROLL_RANGE`.
pub const TIER_ROLL_RANGE: u32 = 100;

#[derive(Clone, Copy, Debug, PartialEq, Eq, Structural)]
pub enum MonsterType {
    Lesser,
    Elite,
    King,
    Legend,
}

/// Named colours of the CSS palette that tiers are drawn with.
#[derive(Clone, Copy, Debug, PartialEq, Eq, Structural)]
pub enum PaletteColor {
    Green,
    Yellow,
    BlueViolet,
    Black,
}

impl MonsterType {
    /// The display colour of the tier: green, yellow, blue violet, black.
    pub fn color(&self) -> (c: PaletteColor)
        ensures
            c == match self {
                MonsterType::Lesser => PaletteColor::Green,
                MonsterType::Elite => PaletteColor::Yellow,
                MonsterType::King => PaletteColor::BlueViolet,
                MonsterType::Legend => PaletteColor::Black,
            },
    {
        match self {
            MonsterType::Lesser => PaletteColor::Green,
            MonsterType::Elite => PaletteColor::Yellow,
            MonsterType::King => PaletteColor::BlueViolet,
            MonsterType::Legend => PaletteColor::Black,
        }
    }

    /// Share of the tier in a draw, out of `TIER_ROLL_RANGE`.
    pub open spec fn weight_spec(self) -> int {
        match self {
            MonsterType::Lesser => 50,
            MonsterType::Elite => 30,
            MonsterType::King => 15,
            MonsterType::Legend => 5,
        }
    }

    /// Sum of the weights of the tiers listed before this one.
    pub open spec fn weight_before(self) -> int {
        match self {
            MonsterType::Lesser => 0,
            MonsterType::Elite => 50,
            MonsterType::King => 80,
            MonsterType::Legend => 95,
        }
    }

    pub fn weight(&self) -> (w: u32)
        ensures
            w == self.weight_spec(),
    {
        match self {
            MonsterType::Lesser => 50,
            MonsterType::Elite => 30,
            MonsterType::King => 15,
            MonsterType::Legend => 5,
        }
    }

    /// Wandering and pursuit speeds, in world units per second.
    pub open spec fn speeds_spec(self) -> (u32, u32) {
        match self {
            MonsterType::Lesser => (5, 10),
            MonsterType::Elite => (15, 30),
            MonsterType::King => (50, 75),
            MonsterType::Legend => (110, 150),
        }
    }

    pub fn speeds(&self) -> (r: (u32, u32))
        ensures
            r == self.speeds_spec(),
    {
        match self {
            MonsterType::Lesser => (5, 10),
            MonsterType::Elite => (15, 30),
            MonsterType::King => (50, 75),
            MonsterType::Legend => (110, 150),
        }
    }
}

/// The tier whose band of rolls holds `roll`: the bands follow the order of
/// the tiers, each as wide as its weight, and each excludes its upper end.
pub open spec fn tier_of_roll(roll: int) -> MonsterType {
    if roll < 50 {
        MonsterType::Lesser
    } else if roll < 80 {
        MonsterType::Elite
    } else if roll < 95 {
        MonsterType::King
    } else {
        MonsterType::Legend
    }
}

/// Picks the tier for a roll in `0..TIER_ROLL_RANGE`, against the cumulative
/// weights 50, 80, 95, 100.
pub fn select_tier(roll: u32) -> (t: MonsterType)
    requires
        roll < TIER_ROLL_RANGE,
    ensures
        t == tier_of_roll(roll as int),
        t.weight_before() <= roll < t.weight_before() + t.weight_spec(),
{
    let lesser = MonsterType::Lesser.weight();
    let elite = MonsterType::Elite.weight();
    let king = MonsterType::King.weight();
    if roll < lesser {
        MonsterType::Lesser
    } else if roll < lesser + elite {
        MonsterType::Elite
    } else if roll < lesser + elite + king {
        MonsterType::King
    } else {
        MonsterType::Legend
    }
}

/// Each tier is picked by exactly the rolls of its band, and the bands of the
/// four tiers tile `0..TIER_ROLL_RANGE`; a uniform roll therefore picks a tier
/// with probability weight / 100.
pub proof fn lemma_tier_bands(roll: int, t: MonsterType)
    requires
        0 <= roll < TIER_ROLL_RANGE,
    ensures
        tier_of_roll(roll) == t <==> t.weight_before() <= roll < t.weight_before() + t.weight_spec(),
        MonsterType::Lesser.weight_spec() + MonsterType::Elite.weight_spec()
            + MonsterType::King.weight_spec() + MonsterType::Legend.weight_spec() == TIER_ROLL_RANGE,
{
}

impl Stats {
    /// The base stats of a tier, fixed by a table; every entry grows from
    /// Lesser to Legend.
    pub open spec fn monster_stats_spec(monster_type: MonsterType) -> Stats {
        let (h, a, d, cr, cd, hr, er): (i32, i32, i32, i32, i32, i32, i32) = match monster_type {
            MonsterType::Lesser => (30, 5, 2, 5, 120, 80, 2),
            MonsterType::Elite => (100, 15, 10, 15, 170, 85, 5),
            MonsterType::King => (200, 25, 20, 20, 200, 90, 10),
            MonsterType::Legend => (500, 50, 40, 30, 250, 95, 15),
        };
        Stats {
            health: h,
            max_health: h,
            attack: a,
            defense: d,
            experience: 0,
            level: 1,
            critical_rate: cr,
            critical_damage: cd,
            hit_rate: hr,
            evasion_rate: er,
        }
    }

    pub fn monster_stats(monster_type: MonsterType) -> (s: Stats)
        ensures
            s == Stats::monster_stats_spec(monster_type),
    {
        let (h, a, d, cr, cd, hr, er): (i32, i32, i32, i32, i32, i32, i32) = match monster_type {
            MonsterType::Lesser => (30, 5, 2, 5, 120, 80, 2),
            MonsterType::Elite => (100, 15, 10, 15, 170, 85, 5),
            MonsterType::King => (200, 25, 20, 20, 200, 90, 10),
            MonsterType::Legend => (500, 50, 40, 30, 250, 95, 15),
        };
        Stats {
            health: h,
            max_health: h,
            attack: a,
            defense: d,
            experience: 0,
            level: 1,
            critical_rate: cr,
            critical_damage: cd,
            hit_rate: hr,
            evasion_rate: er,
        }
    }
}

} // verus!
