//! Derivation of a combat stat block from raw levels, weapon, buff and
//! armour choices, and the contested-roll primitive shared by both
//! combatants.
//!
//! Every derived number is pinned to a spec-level formula; the integer
//! floor divisions happen in exactly the stated order, since reordering
//! would change the rounding.

use vstd::prelude::*;

use crate::rng::rand_u32_inclusive;

verus! {

#[derive(Debug, Clone, Copy, PartialEq, Eq, Structural)]
pub enum Weapon {
    Bow,
    Staff,
    Halberd,
}

#[derive(Debug, Clone, Copy, PartialEq, Eq, Structural)]
pub enum Prayer {
    Rigour,
    Augury,
    Piety,
    EagleEye,
    MysticMight,
}

#[derive(Debug, Clone, Copy)]
pub struct Levels {
    pub attack: u8,
    pub strength: u8,
    pub defence: u8,
    pub ranged: u8,
    pub magic: u8,
    pub prayer: u8,
    pub hp: u8,
}

/// Why a stat block could not be built from the given configuration.
#[derive(Debug, Clone, Copy, PartialEq, Eq, Structural)]
pub enum ConfigError {
    /// The weapon tier is outside the supported range `1..=3`.
    UnsupportedWeaponTier,
    /// The armour tier is outside the supported range `1..=3`.
    UnsupportedArmourTier,
}

/// One prepared loadout: a weapon style together with the combat numbers
/// derived once from the build inputs and immutable afterwards.
#[derive(Debug, Clone, Copy)]
pub struct Setup {
    pub weapon: Weapon,
    /// Ticks between consecutive attacks.
    pub attack_delay: u8,
    pub max_hit: u32,
    pub acc_roll: u32,
    /// Defensive roll against the boss's ranged style.
    pub rdr: u32,
    /// Defensive roll against the boss's magic style.
    pub mdr: u32,
}

/// An effective combat level: the base level raised by the buff's
/// percentage (with floor division), plus the flat 8 and the stance bonus.
pub open spec fn spec_effective_level(level: u8, prayer_bonus: int, stance_bonus: int) -> int {
    level * (100 + prayer_bonus) / 100 + 8 + stance_bonus
}

pub open spec fn spec_armour_acc(armour_tier: u8) -> int {
    if armour_tier == 1 {
        16
    } else if armour_tier == 2 {
        28
    } else if armour_tier == 3 {
        40
    } else {
        0
    }
}

pub open spec fn spec_armour_def(armour_tier: u8) -> int {
    if armour_tier == 1 {
        166
    } else if armour_tier == 2 {
        224
    } else if armour_tier == 3 {
        284
    } else {
        0
    }
}

/// Equipment accuracy bonus of the weapon; meaningful for tiers `1..=3`
/// (any other tier is rejected before this is used).
pub open spec fn spec_weapon_acc(weapon: Weapon, weapon_tier: u8) -> int {
    match weapon {
        Weapon::Bow => if weapon_tier == 3 { 172 } else if weapon_tier == 2 { 118 } else { 72 },
        Weapon::Staff => if weapon_tier == 3 { 184 } else if weapon_tier == 2 { 128 } else { 84 },
        Weapon::Halberd => if weapon_tier == 3 { 166 } else if weapon_tier == 2 { 114 } else { 68 },
    }
}

/// Equipment strength bonus of the weapon; for the staff this is the fixed
/// max hit itself.
pub open spec fn spec_weapon_str(weapon: Weapon, weapon_tier: u8) -> int {
    match weapon {
        Weapon::Bow => if weapon_tier == 3 { 138 } else if weapon_tier == 2 { 88 } else { 42 },
        Weapon::Staff => if weapon_tier == 3 { 39 } else if weapon_tier == 2 { 31 } else { 23 },
        Weapon::Halberd => if weapon_tier == 3 { 138 } else if weapon_tier == 2 { 88 } else { 42 },
    }
}

pub open spec fn spec_prayer_acc(prayer: Prayer) -> int {
    match prayer {
        Prayer::Rigour => 20,
        Prayer::Augury => 25,
        Prayer::Piety => 20,
        Prayer::EagleEye => 15,
        Prayer::MysticMight => 15,
    }
}

pub open spec fn spec_prayer_str(prayer: Prayer) -> int {
    match prayer {
        Prayer::Rigour => 23,
        Prayer::Augury => 0,
        Prayer::Piety => 23,
        Prayer::EagleEye => 15,
        Prayer::MysticMight => 0,
    }
}

pub open spec fn spec_prayer_def(prayer: Prayer) -> int {
    match prayer {
        Prayer::Rigour => 25,
        Prayer::Augury => 25,
        Prayer::Piety => 25,
        Prayer::EagleEye => 15,
        Prayer::MysticMight => 15,
    }
}

pub open spec fn spec_prayer_def_magic(prayer: Prayer) -> int {
    match prayer {
        Prayer::Rigour => 0,
        Prayer::Augury => 25,
        Prayer::Piety => 0,
        Prayer::EagleEye => 0,
        Prayer::MysticMight => 15,
    }
}

/// The level that feeds the accuracy roll for each weapon style.
pub open spec fn spec_acc_level(weapon: Weapon, levels: Levels) -> u8 {
    match weapon {
        Weapon::Bow => levels.ranged,
        Weapon::Staff => levels.magic,
        Weapon::Halberd => levels.attack,
    }
}

/// The level that feeds the damage formula for each weapon style.
pub open spec fn spec_dam_level(weapon: Weapon, levels: Levels) -> u8 {
    match weapon {
        Weapon::Bow => levels.ranged,
        Weapon::Staff => levels.magic,
        Weapon::Halberd => levels.strength,
    }
}

pub open spec fn spec_acc_roll(
    weapon: Weapon,
    weapon_tier: u8,
    prayer: Prayer,
    levels: Levels,
    armour_tier: u8,
) -> int {
    spec_effective_level(
        spec_acc_level(weapon, levels),
        spec_prayer_acc(prayer),
        if weapon is Staff { 3 } else { 0 },
    ) * (spec_armour_acc(armour_tier) + spec_weapon_acc(weapon, weapon_tier) + 64)
}

pub open spec fn spec_max_hit(weapon: Weapon, weapon_tier: u8, prayer: Prayer, levels: Levels) -> int {
    let eff = spec_effective_level(
        spec_dam_level(weapon, levels),
        spec_prayer_str(prayer),
        if weapon is Halberd { 3 } else { 0 },
    );
    match weapon {
        Weapon::Staff => spec_weapon_str(weapon, weapon_tier),
        _ => (eff * (spec_weapon_str(weapon, weapon_tier) + 64) + 320) / 640,
    }
}

pub open spec fn spec_rdr(prayer: Prayer, levels: Levels, armour_tier: u8) -> int {
    spec_effective_level(levels.defence, spec_prayer_def(prayer), 0)
        * (spec_armour_def(armour_tier) + 64)
}

pub open spec fn spec_mdr(weapon: Weapon, prayer: Prayer, levels: Levels, armour_tier: u8) -> int {
    let eff_def = spec_effective_level(levels.defence, spec_prayer_def(prayer), 0);
    let eff_magic = spec_effective_level(
        levels.magic,
        spec_prayer_def_magic(prayer),
        if weapon is Staff { 3 } else { 0 },
    );
    (eff_def * 3 / 10 + eff_magic * 7 / 10) * (spec_armour_def(armour_tier) + 64)
}

/// The stat block the builder owes for a supported configuration.
pub open spec fn spec_setup(
    weapon: Weapon,
    weapon_tier: u8,
    prayer: Prayer,
    levels: Levels,
    armour_tier: u8,
) -> Setup {
    Setup {
        weapon,
        attack_delay: 4,
        max_hit: spec_max_hit(weapon, weapon_tier, prayer, levels) as u32,
        acc_roll: spec_acc_roll(weapon, weapon_tier, prayer, levels, armour_tier) as u32,
        rdr: spec_rdr(prayer, levels, armour_tier) as u32,
        mdr: spec_mdr(weapon, prayer, levels, armour_tier) as u32,
    }
}

impl Setup {
    /// A usable stat block attacks on the fixed four-tick cadence; the
    /// builder establishes this and nothing afterwards changes it.
    pub open spec fn wf(self) -> bool {
        self.attack_delay == 4
    }
}

fn effective_level(level: u8, prayer_bonus: u32, stance_bonus: u32) -> (r: u32)
    requires
        prayer_bonus <= 25,
        stance_bonus <= 3,
    ensures
        r == spec_effective_level(level, prayer_bonus as int, stance_bonus as int),
        r <= 329,
{
    proof {
        assert(level * (100 + prayer_bonus) <= 255 * 125) by (nonlinear_arith)
            requires
                level <= 255,
                prayer_bonus <= 25,
        ;
    }
    (level as u32) * (100 + prayer_bonus) / 100 + 8 + stance_bonus
}

impl Setup {
    /// Builds the stat block for one loadout.  Rejects an unsupported
    /// weapon or armour tier before any trial can run; for supported tiers
    /// the result is exactly the spec-level derivation.
    pub fn new(
        weapon: Weapon,
        weapon_tier: u8,
        prayer: Prayer,
        levels: &Levels,
        armour_tier: u8,
    ) -> (r: Result<Setup, ConfigError>)
        ensures
            r is Ok <==> (1 <= weapon_tier <= 3 && 1 <= armour_tier <= 3),
            r matches Ok(s) ==> s == spec_setup(weapon, weapon_tier, prayer, *levels, armour_tier),
            !(1 <= weapon_tier <= 3) ==> r == Err::<Setup, ConfigError>(
                ConfigError::UnsupportedWeaponTier,
            ),
            1 <= weapon_tier <= 3 && !(1 <= armour_tier <= 3) ==> r == Err::<Setup, ConfigError>(
                ConfigError::UnsupportedArmourTier,
            ),
            r matches Ok(s) ==> s.wf(),
    {
        if weapon_tier < 1 || weapon_tier > 3 {
            return Err(ConfigError::UnsupportedWeaponTier);
        }
        if armour_tier < 1 || armour_tier > 3 {
            return Err(ConfigError::UnsupportedArmourTier);
        }

        let (armour_acc, armour_def): (u32, u32) = if armour_tier == 1 {
            (16, 166)
        } else if armour_tier == 2 {
            (28, 224)
        } else {
            (40, 284)
        };

        // For the staff, the equipment strength bonus is the max hit itself.
        let (weapon_acc, eq_str): (u32, u32) = match weapon {
            Weapon::Bow => if weapon_tier == 3 { (172, 138) } else if weapon_tier == 2 { (118, 88) } else { (72, 42) },
            Weapon::Staff => if weapon_tier == 3 { (184, 39) } else if weapon_tier == 2 { (128, 31) } else { (84, 23) },
            Weapon::Halberd => if weapon_tier == 3 { (166, 138) } else if weapon_tier == 2 { (114, 88) } else { (68, 42) },
        };
        let eq_acc: u32 = armour_acc + weapon_acc;

        let (prayer_acc, prayer_str, prayer_def, prayer_def_magic): (u32, u32, u32, u32) =
            match prayer {
                Prayer::Rigour => (20, 23, 25, 0),
                Prayer::Augury => (25, 0, 25, 25),
                Prayer::Piety => (20, 23, 25, 0),
                Prayer::EagleEye => (15, 15, 15, 0),
                Prayer::MysticMight => (15, 0, 15, 15),
            };

        let (acc_lvl, dam_lvl): (u8, u8) = match weapon {
            Weapon::Bow => (levels.ranged, levels.ranged),
            Weapon::Staff => (levels.magic, levels.magic),
            Weapon::Halberd => (levels.attack, levels.strength),
        };

        let stance_bonus: u32 = if weapon == Weapon::Staff { 3 } else { 0 };
        let eff_acc_lvl: u32 = effective_level(acc_lvl, prayer_acc, stance_bonus);
        proof {
            assert(eff_acc_lvl * (eq_acc + 64) <= 329 * 288) by (nonlinear_arith)
                requires
                    eff_acc_lvl <= 329,
                    eq_acc <= 224,
            ;
        }
        let acc_roll: u32 = eff_acc_lvl * (eq_acc + 64);

        let stance_bonus: u32 = if weapon == Weapon::Halberd { 3 } else { 0 };
        let eff_str_lvl: u32 = effective_level(dam_lvl, prayer_str, stance_bonus);
        proof {
            assert(eff_str_lvl * (eq_str + 64) <= 329 * 202) by (nonlinear_arith)
                requires
                    eff_str_lvl <= 329,
                    eq_str <= 138,
            ;
        }
        let max_hit: u32 = match weapon {
            Weapon::Bow | Weapon::Halberd => (eff_str_lvl * (eq_str + 64) + 320) / 640,
            Weapon::Staff => eq_str,
        };

        let eff_def_lvl: u32 = effective_level(levels.defence, prayer_def, 0);
        proof {
            assert(eff_def_lvl * (armour_def + 64) <= 329 * 348) by (nonlinear_arith)
                requires
                    eff_def_lvl <= 329,
                    armour_def <= 284,
            ;
        }
        let rdr: u32 = eff_def_lvl * (armour_def + 64);

        let stance_bonus: u32 = if weapon == Weapon::Staff { 3 } else { 0 };
        let eff_magic_lvl: u32 = effective_level(levels.magic, prayer_def_magic, stance_bonus);

        let eff_magic_def_lvl: u32 = eff_def_lvl * 3 / 10 + eff_magic_lvl * 7 / 10;
        proof {
            assert(eff_magic_def_lvl * (armour_def + 64) <= 329 * 348) by (nonlinear_arith)
                requires
                    eff_magic_def_lvl <= 329,
                    armour_def <= 284,
            ;
        }
        let mdr: u32 = eff_magic_def_lvl * (armour_def + 64);

        Ok(Setup { weapon, attack_delay: 4, max_hit, acc_roll, rdr, mdr })
    }

    /// The contested roll: an accuracy draw against a defence draw and, on
    /// a win, a damage draw.  The damage never exceeds the attacker's max
    /// hit, and a zero accuracy rating can never deal damage.
    pub fn attack(&self, rng: &fastrand::Rng, hunllef_defensive_roll: u32) -> (damage: u32)
        ensures
            damage <= self.max_hit,
            self.acc_roll == 0 ==> damage == 0,
    {
        // The draws are inclusive of both ends of the range.
        if rand_u32_inclusive(rng, self.acc_roll) > rand_u32_inclusive(rng, hunllef_defensive_roll) {
            rand_u32_inclusive(rng, self.max_hit)
        } else {
            0
        }
    }
}

/// The stat-block builder is pure and deterministic: the derived block is
/// a function of the build inputs alone, so any two blocks built from the
/// same inputs are identical.
pub proof fn lemma_build_deterministic(
    weapon: Weapon,
    weapon_tier: u8,
    prayer: Prayer,
    levels: Levels,
    armour_tier: u8,
    a: Setup,
    b: Setup,
)
    requires
        a == spec_setup(weapon, weapon_tier, prayer, levels, armour_tier),
        b == spec_setup(weapon, weapon_tier, prayer, levels, armour_tier),
    ensures
        a == b,
{
}

} // verus!
