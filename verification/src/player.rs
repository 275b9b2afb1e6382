//! The player's tick-driven attacker state machine.
//!
//! The player alternates between two prepared stat blocks on a fixed
//! six-attack cadence, and can spend a healing resource, which also costs
//! attack cooldown ticks.

use vstd::prelude::*;

use crate::setup::{Levels, Setup};

verus! {

/// Per-trial player state, constructed fresh from a prototype at the
/// start of every trial.
#[derive(Debug, Clone, Copy)]
pub struct Player {
    pub setup1: Setup,
    pub setup2: Setup,
    pub levels: Levels,
    pub hp: u16,
    /// Remaining healing resources.
    pub fish: u8,
    /// Remaining uses of the prayer-based emergency heal.
    pub redemption: u8,
    /// Ticks until the next attack.
    pub attack_cd: u16,
    /// Attack slots left before the loadout switches.
    pub attacks_left: u8,
    /// Whether the first of the two prepared stat blocks is active.
    pub current_first: bool,
}

impl Player {
    /// The active loadout.
    pub open spec fn spec_current(self) -> Setup {
        if self.current_first {
            self.setup1
        } else {
            self.setup2
        }
    }

    /// Both prepared stat blocks are usable ones; the cooldown arithmetic
    /// of the attack cadence relies on this.
    pub open spec fn wf(self) -> bool {
        self.setup1.wf() && self.setup2.wf()
    }

    /// Builds a player from the two prepared stat blocks.  Hit points
    /// start at the hit-point level; the opening loadout is drawn at
    /// random, so the contract leaves only that field open.
    pub fn new(
        setup1: &Setup,
        setup2: &Setup,
        levels: &Levels,
        fish: u8,
        redemption: u8,
        lost_ticks: u8,
        rng: &fastrand::Rng,
    ) -> (p: Player)
        ensures
            p.setup1 == *setup1,
            p.setup2 == *setup2,
            p.levels == *levels,
            p.hp == levels.hp as u16,
            p.fish == fish,
            p.redemption == redemption,
            p.attack_cd == lost_ticks as u16,
            p.attacks_left == 6,
            setup1.wf() && setup2.wf() ==> p.wf(),
    {
        Player {
            setup1: *setup1,
            setup2: *setup2,
            levels: *levels,
            hp: levels.hp as u16,
            fish,
            redemption,
            attack_cd: lost_ticks as u16,
            attacks_left: 6,
            current_first: crate::rng::rand_bool(rng),
        }
    }

    /// The active loadout, read without changing any state.
    pub fn current(&self) -> (s: Setup)
        ensures
            s == self.spec_current(),
    {
        if self.current_first {
            self.setup1
        } else {
            self.setup2
        }
    }

    /// Swaps the active loadout: whenever the active weapon is the first
    /// setup's weapon the second becomes active, and otherwise the first
    /// does (so two loadouts sharing a weapon settle on the second).
    pub fn switch_setup(&mut self)
        ensures
            final(self).current_first == (old(self).spec_current().weapon
                != old(self).setup1.weapon),
            *final(self) == (Player { current_first: final(self).current_first, ..*old(self) }),
    {
        let cur = self.current();
        if cur.weapon == self.setup1.weapon {
            self.current_first = false;
        } else {
            self.current_first = true;
        }
    }

    /// One tick of the player.  On cooldown it only counts down.  In an
    /// attack slot it swaps the loadout every sixth slot, pays the new
    /// cooldown from the active loadout's cadence, and resolves the
    /// contested roll against the boss's defensive roll.
    pub fn attack(&mut self, rng: &fastrand::Rng, hunllef_defensive_roll: u32) -> (r: Option<
        u32,
    >)
        requires
            old(self).wf(),
        ensures
            final(self).wf(),
            final(self).setup1 == old(self).setup1,
            final(self).setup2 == old(self).setup2,
            final(self).levels == old(self).levels,
            final(self).hp == old(self).hp,
            final(self).fish == old(self).fish,
            final(self).redemption == old(self).redemption,
            old(self).attack_cd > 0 ==> {
                &&& r is None
                &&& final(self).attack_cd == old(self).attack_cd - 1
                &&& final(self).attacks_left == old(self).attacks_left
                &&& final(self).current_first == old(self).current_first
            },
            old(self).attack_cd == 0 ==> {
                &&& (old(self).attacks_left == 0 ==> final(self).current_first == (old(
                    self,
                ).spec_current().weapon != old(self).setup1.weapon) && final(self).attacks_left
                    == 5)
                &&& (old(self).attacks_left > 0 ==> final(self).current_first == old(
                    self,
                ).current_first && final(self).attacks_left == old(self).attacks_left - 1)
                &&& final(self).attack_cd == final(self).spec_current().attack_delay - 1
                &&& r matches Some(damage) ==> damage <= final(self).spec_current().max_hit
                &&& r is Some
                &&& (final(self).spec_current().acc_roll == 0 ==> r == Some(0u32))
            },
    {
        if self.attack_cd == 0 {
            if self.attacks_left == 0 {
                self.switch_setup();
                self.attacks_left = 6;
            }
            let setup = self.current();

            // The first tick of the cadence is the attack itself.
            self.attack_cd = self.attack_cd + (setup.attack_delay as u16) - 1;
            self.attacks_left = self.attacks_left - 1;
            Some(setup.attack(rng, hunllef_defensive_roll))
        } else {
            self.attack_cd = self.attack_cd - 1;
            None
        }
    }

    /// Spends one healing resource, if any is left: heals a fixed 20 hit
    /// points and adds three ticks to the current attack cooldown as the
    /// time cost of the action.
    pub fn eat_fish(&mut self)
        requires
            old(self).hp + 20 <= u16::MAX,
            old(self).attack_cd + 3 <= u16::MAX,
        ensures
            old(self).fish == 0 ==> *final(self) == *old(self),
            old(self).fish > 0 ==> *final(self) == (Player {
                fish: (old(self).fish - 1) as u8,
                attack_cd: (old(self).attack_cd + 3) as u16,
                hp: (old(self).hp + 20) as u16,
                ..*old(self)
            }),
    {
        if self.fish > 0 {
            self.fish = self.fish - 1;
            self.attack_cd = self.attack_cd + 3;
            self.hp = self.hp + 20;
        }
    }

    /// Spends one use of the prayer-based emergency heal, if any is left:
    /// heals a quarter of the prayer level, rounded down.
    pub fn _redemption_heal(&mut self)
        requires
            old(self).hp + old(self).levels.prayer / 4 <= u16::MAX,
        ensures
            old(self).redemption == 0 ==> *final(self) == *old(self),
            old(self).redemption > 0 ==> *final(self) == (Player {
                redemption: (old(self).redemption - 1) as u8,
                hp: (old(self).hp + old(self).levels.prayer / 4) as u16,
                ..*old(self)
            }),
    {
        if self.redemption > 0 {
            self.redemption = self.redemption - 1;
            self.hp = self.hp + (self.levels.prayer as u16) / 4;
        }
    }
}

} // verus!
