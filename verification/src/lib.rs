//! A tick-driven simulator of a timed duel between a player build and a
//! scripted boss.
//!
//! The crate derives combat statistics from raw levels, gear and buff
//! choices, drives the two attacker state machines tick by tick through a
//! contested-roll primitive, and aggregates many independent trials into
//! success and resource-consumption tallies.  All arithmetic and state
//! transitions are verified; randomness enters only through a few narrow
//! trusted wrappers around the random-number generator.

mod boss;
mod player;
mod rng;
mod setup;
mod sim;

pub use boss::{spec_other_style, AttackStyle, Hunllef};
pub use player::Player;
pub use setup::{
    lemma_build_deterministic, spec_acc_level, spec_acc_roll, spec_armour_acc, spec_armour_def,
    spec_dam_level, spec_effective_level, spec_max_hit, spec_mdr, spec_prayer_acc, spec_prayer_def,
    spec_prayer_def_magic, spec_prayer_str, spec_rdr, spec_setup, spec_weapon_acc, spec_weapon_str,
    ConfigError, Levels, Prayer, Setup, Weapon,
};
pub use sim::{data_mode, run_one_trial, run_simulation, TrialOutcome};
