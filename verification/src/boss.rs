//! The boss's tick-driven attacker state machine.
//!
//! Each tick the boss either counts its cooldown down or resolves an
//! attack: every fourth attack slot toggles its style, and when the
//! special countdown runs out the slot is spent on a harmless special
//! event instead of a contested roll.

use vstd::prelude::*;

use crate::rng::{rand_u32_inclusive, rand_u8_between};

verus! {

#[derive(Debug, Clone, Copy, PartialEq, Eq, Structural)]
pub enum AttackStyle {
    Ranged,
    Magic,
}

/// The style the boss toggles to after its fourth attack slot.
pub open spec fn spec_other_style(style: AttackStyle) -> AttackStyle {
    match style {
        AttackStyle::Ranged => AttackStyle::Magic,
        AttackStyle::Magic => AttackStyle::Ranged,
    }
}

/// Per-trial boss state: hit points, fixed combat numbers, and the
/// cooldown, style-toggle and special-event counters.
#[derive(Debug, Clone, Copy)]
pub struct Hunllef {
    pub hp: u16,
    pub max_hit: u16,
    /// Ticks between consecutive attacks.
    pub attack_delay: u8,
    /// Accuracy roll, the same for both styles.
    pub acc_roll: u32,
    /// Defensive roll, the same against every player style.
    pub defensive_roll: u32,
    /// Attack slots until the next special event replaces an attack.
    pub tornado_cd: u8,
    /// Ticks until the next attack.
    pub attack_cd: u8,
    pub style: AttackStyle,
    /// Attack slots left before the style toggles.
    pub attacks_left: u8,
}

impl Hunllef {
    /// Bounds that construction establishes and every tick preserves; the
    /// cooldown arithmetic and the player's reactive healing rely on them.
    pub open spec fn wf(self) -> bool {
        &&& self.attack_delay == 5
        &&& self.max_hit <= 13
        &&& self.attack_cd <= 4
        &&& self.attacks_left <= 4
    }

    /// Builds the boss as it stands at the start of a trial.  The max hit
    /// depends on the player's armour tier; an unsupported tier yields the
    /// degenerate zero max hit rather than an error, since the boss is not
    /// part of the configured stat-block build.
    pub fn new(armour_tier: u8) -> (r: Hunllef)
        ensures
            r.max_hit == (if armour_tier == 1 { 13u16 } else if armour_tier == 2 { 10u16 } else if armour_tier == 3 { 8u16 } else { 0u16 }),
            r.attack_delay == 5,
            r.acc_roll == 38346,
            r.defensive_roll == 20916,
            r.hp == 1000,
            r.tornado_cd == 12,
            r.attack_cd == 0,
            r.style == AttackStyle::Ranged,
            r.attacks_left == 4,
            r.wf(),
    {
        let max_hit: u16 = if armour_tier == 1 {
            13
        } else if armour_tier == 2 {
            10
        } else if armour_tier == 3 {
            8
        } else {
            0
        };
        let attack_delay: u8 = 5;
        let acc_roll: u32 = (240 + 9) * (90 + 64);
        let defensive_roll: u32 = (240 + 9) * (20 + 64);
        let hp: u16 = 1000;
        let tornado_cd: u8 = 12;
        let attack_cd: u8 = 0;
        let style = AttackStyle::Ranged;
        let attacks_left: u8 = 4;

        Hunllef {
            max_hit,
            attack_delay,
            acc_roll,
            defensive_roll,
            hp,
            tornado_cd,
            attack_cd,
            style,
            attacks_left,
        }
    }

    /// Toggles between the two attack styles.
    pub fn switch_style(&mut self)
        ensures
            final(self).style == spec_other_style(old(self).style),
            *final(self) == (Hunllef { style: final(self).style, ..*old(self) }),
    {
        if let AttackStyle::Ranged = self.style {
            self.style = AttackStyle::Magic;
        } else {
            self.style = AttackStyle::Ranged;
        }
    }

    /// One tick of the boss.  On cooldown it only counts down.  In an
    /// attack slot it pays the new cooldown, toggles its style every
    /// fourth slot, and then either spends the slot on the special event
    /// (no damage, countdown redrawn from 10..=14) or resolves a contested
    /// roll against the player's defence for the boss's current style.
    pub fn attack(&mut self, rng: &fastrand::Rng, player_rdr: u32, player_mdr: u32) -> (r: Option<
        u16,
    >)
        requires
            old(self).wf(),
        ensures
            final(self).wf(),
            final(self).hp == old(self).hp,
            final(self).max_hit == old(self).max_hit,
            final(self).attack_delay == old(self).attack_delay,
            final(self).acc_roll == old(self).acc_roll,
            final(self).defensive_roll == old(self).defensive_roll,
            old(self).attack_cd > 0 ==> {
                &&& r is None
                &&& final(self).attack_cd == old(self).attack_cd - 1
                &&& final(self).style == old(self).style
                &&& final(self).attacks_left == old(self).attacks_left
                &&& final(self).tornado_cd == old(self).tornado_cd
            },
            old(self).attack_cd == 0 ==> {
                &&& final(self).attack_cd == old(self).attack_delay - 1
                &&& (old(self).attacks_left == 0 ==> final(self).style == spec_other_style(
                    old(self).style,
                ) && final(self).attacks_left == 3)
                &&& (old(self).attacks_left > 0 ==> final(self).style == old(self).style
                    && final(self).attacks_left == old(self).attacks_left - 1)
                &&& (old(self).tornado_cd == 0 ==> r is None && 10 <= final(self).tornado_cd <= 14)
                &&& (old(self).tornado_cd > 0 ==> {
                    &&& final(self).tornado_cd == old(self).tornado_cd - 1
                    &&& r matches Some(damage) ==> damage <= old(self).max_hit
                    &&& r is Some
                    &&& (old(self).acc_roll == 0 ==> r == Some(0u16))
                })
            },
    {
        if self.attack_cd == 0 {
            // The style toggles after every fourth attack slot, special
            // events included.
            if self.attacks_left == 0 {
                self.switch_style();
                self.attacks_left = 4;
            }

            self.attacks_left = self.attacks_left - 1;
            self.attack_cd = self.attack_cd + self.attack_delay - 1;

            // The true trigger of the special event is unknown; the
            // countdown with a uniform redraw from 10..=14 is the
            // documented approximation and is kept as such.
            if self.tornado_cd == 0 {
                self.tornado_cd = rand_u8_between(rng, 10, 14);
                return None;
            } else {
                self.tornado_cd = self.tornado_cd - 1;
            }

            let pdr: u32 = if let AttackStyle::Ranged = self.style {
                player_rdr
            } else {
                player_mdr
            };

            // The draws are inclusive of both ends of the range.
            if rand_u32_inclusive(rng, self.acc_roll) > rand_u32_inclusive(rng, pdr) {
                let damage: u32 = rand_u32_inclusive(rng, self.max_hit as u32);
                Some(damage as u16)
            } else {
                Some(0)
            }
        } else {
            self.attack_cd = self.attack_cd - 1;
            None
        }
    }
}

} // verus!
