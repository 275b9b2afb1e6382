//! The trial runner and the multi-trial aggregator.
//!
//! One trial drives a fresh player and boss tick by tick until one side
//! falls or the tick budget runs out; the aggregator repeats that with
//! independent randomness and collects the success tally and the raw
//! time and resource-consumption series for external summarization.

use vstd::prelude::*;

use crate::boss::Hunllef;
use crate::player::Player;

verus! {

/// The outcome of a single trial.
#[derive(Debug, Clone, Copy)]
pub struct TrialOutcome {
    /// Elapsed ticks; meaningful as a fight length only on success.
    pub time: u16,
    /// True when the boss fell while the player still stood.
    pub success: bool,
    /// Healing resources consumed, counted on success and failure alike.
    pub fish_eaten: u8,
}

/// Runs a single trial from the two prototypes.  Fresh per-trial state is
/// built from the prototypes, so no trial can leak state into another.
///
/// A trial that starts with either side at zero hit points ends at once,
/// after zero ticks, as a failure, with no resources consumed.  The tick
/// budget bounds the reported time: a fight that outlives `max_time`
/// counts as a failure.
///
/// The preconditions are machine limits only: the prototype's cooldown is
/// the initial lost-tick offset (its field is wider only because eating
/// inflates it during a trial), and the threshold and budget must leave
/// the `u16` arithmetic of healing and of the clock room to step.
pub fn run_one_trial(
    player_proto: &Player,
    hunllef_proto: &Hunllef,
    eat_at_hp: u16,
    tick_eat: bool,
    max_time: u16,
    rng: &fastrand::Rng,
) -> (out: TrialOutcome)
    requires
        player_proto.wf(),
        hunllef_proto.wf(),
        player_proto.attack_cd <= u8::MAX,
        eat_at_hp + 20 <= u16::MAX,
        max_time < u16::MAX,
    ensures
        out.fish_eaten <= player_proto.fish,
        out.time <= max_time + 1,
        player_proto.levels.hp == 0 || hunllef_proto.hp == 0 ==> !out.success && out.time == 0
            && out.fish_eaten == 0,
        out.success ==> out.time >= 1,
        player_proto.levels.hp > 0 && hunllef_proto.hp > 0 ==> out.time >= 1,
{
    let mut player = Player::new(
        &player_proto.setup1,
        &player_proto.setup2,
        &player_proto.levels,
        player_proto.fish,
        player_proto.redemption,
        player_proto.attack_cd as u8,
        rng,
    );
    let mut hunllef: Hunllef = *hunllef_proto;
    let mut time: u16 = 0;

    // Exactly one healing policy is active: in the reactive configuration
    // the threshold stays off.
    let eat_at: u16 = if tick_eat {
        0
    } else {
        eat_at_hp
    };

    while hunllef.hp > 0 && player.hp > 0
        invariant_except_break
            time <= max_time,
        invariant
            player.wf(),
            hunllef.wf(),
            player.fish <= player_proto.fish,
            player.attack_cd as int <= 258 + 3 * (player_proto.fish - player.fish),
            eat_at + 20 <= u16::MAX,
            max_time < u16::MAX,
            time <= max_time + 1,
            time == 0 ==> player.hp == player_proto.levels.hp as u16 && hunllef.hp
                == hunllef_proto.hp && player.fish == player_proto.fish,
            player_proto.levels.hp == 0 || hunllef_proto.hp == 0 ==> time == 0,
        ensures
            time <= max_time + 1,
            player.fish <= player_proto.fish,
            player_proto.levels.hp == 0 || hunllef_proto.hp == 0 ==> time == 0 && player.fish
                == player_proto.fish,
            time == 0 ==> !(hunllef.hp > 0 && player.hp > 0),
        decreases max_time + 1 - time,
    {
        // The player's potential attack resolves first; boss hit points
        // floor at zero.
        if let Some(damage) = player.attack(rng, hunllef.defensive_roll) {
            if (hunllef.hp as u32) < damage {
                hunllef.hp = 0;
            } else {
                hunllef.hp = hunllef.hp - (damage as u16);
            }
        }

        let setup = player.current();

        // Then the boss's potential attack; player hit points floor at
        // zero, and the configured healing policy applies to the loss.
        if let Some(damage) = hunllef.attack(rng, setup.rdr, setup.mdr) {
            if player.hp < damage {
                player.hp = 0;
            } else {
                player.hp = player.hp - damage;
            }

            // Reactive policy: eat only when this attack dealt less than
            // the boss's own max hit and still left the player at or
            // below that max hit.
            if tick_eat && damage < hunllef.max_hit && player.hp <= hunllef.max_hit {
                player.eat_fish();
            }
        }

        // Threshold policy: after any loss, eat as soon as hit points sit
        // below the configured threshold.
        if player.hp < eat_at {
            player.eat_fish();
        }

        time = time + 1;
        if time > max_time {
            break;
        }
    }

    // Success needs the boss down, the player standing, and at least one
    // resolved tick: a fight that never started cannot be won.
    let success: bool = player.hp > 0 && hunllef.hp == 0 && time > 0;
    let fish_eaten: u8 = player_proto.fish - player.fish;
    TrialOutcome { time, success, fish_eaten }
}

/// Runs `trials` independent trials and aggregates them: the success
/// tally, the per-trial resource consumption for every trial, and the
/// elapsed ticks of exactly the successful trials.
pub fn run_simulation(
    trials: u32,
    player: &Player,
    hunllef: &Hunllef,
    eat_at_hp: u16,
    tick_eat: bool,
    max_time: u16,
    rng: &fastrand::Rng,
) -> (r: (u32, Vec<u64>, Vec<u16>))
    requires
        player.wf(),
        hunllef.wf(),
        player.attack_cd <= u8::MAX,
        eat_at_hp + 20 <= u16::MAX,
        max_time < u16::MAX,
    ensures
        r.0 <= trials,
        r.1@.len() == trials,
        r.2@.len() == r.0,
        forall|i: int| 0 <= i < r.1@.len() ==> r.1@[i] <= player.fish,
        forall|i: int| 0 <= i < r.2@.len() ==> 1 <= r.2@[i] && r.2@[i] <= max_time + 1,
        player.levels.hp == 0 || hunllef.hp == 0 ==> r.0 == 0,
{
    let mut times: Vec<u16> = Vec::new();
    let mut fish_eaten: Vec<u64> = Vec::new();
    let mut success: u32 = 0;

    let mut n: u32 = 0;
    while n < trials
        invariant
            n <= trials,
            success <= n,
            fish_eaten@.len() == n,
            times@.len() == success,
            forall|i: int| 0 <= i < fish_eaten@.len() ==> fish_eaten@[i] <= player.fish,
            forall|i: int| 0 <= i < times@.len() ==> 1 <= times@[i] && times@[i] <= max_time + 1,
            player.levels.hp == 0 || hunllef.hp == 0 ==> success == 0,
            player.wf(),
            hunllef.wf(),
            player.attack_cd <= u8::MAX,
            eat_at_hp + 20 <= u16::MAX,
            max_time < u16::MAX,
        decreases trials - n,
    {
        let out = run_one_trial(player, hunllef, eat_at_hp, tick_eat, max_time, rng);
        // The consumption series covers failures as well.
        fish_eaten.push(out.fish_eaten as u64);
        if out.success {
            success = success + 1;
            times.push(out.time);
        }
        n = n + 1;
    }

    (success, fish_eaten, times)
}

/// Reruns the whole simulation once for every resource allotment from 0
/// up to the prototype's, and reports the success tally of each run.
pub fn data_mode(
    trials: u32,
    player: &Player,
    hunllef: &Hunllef,
    eat_at_hp: u16,
    tick_eat: bool,
    max_time: u16,
    rng: &fastrand::Rng,
) -> (r: Vec<u32>)
    requires
        player.wf(),
        hunllef.wf(),
        player.attack_cd <= u8::MAX,
        eat_at_hp + 20 <= u16::MAX,
        max_time < u16::MAX,
    ensures
        r@.len() == player.fish + 1,
        forall|i: int| 0 <= i < r@.len() ==> r@[i] <= trials,
{
    let mut success_rate: Vec<u32> = Vec::new();
    let mut i: u16 = 0;
    while i <= player.fish as u16
        invariant
            i <= player.fish + 1,
            success_rate@.len() == i,
            forall|j: int| 0 <= j < success_rate@.len() ==> success_rate@[j] <= trials,
            player.wf(),
            hunllef.wf(),
            player.attack_cd <= u8::MAX,
            eat_at_hp + 20 <= u16::MAX,
            max_time < u16::MAX,
        decreases player.fish + 1 - i,
    {
        let p = Player::new(
            &player.setup1,
            &player.setup2,
            &player.levels,
            i as u8,
            player.redemption,
            player.attack_cd as u8,
            rng,
        );

        let (success, _, _): (u32, Vec<u64>, Vec<u16>) = run_simulation(
            trials,
            &p,
            hunllef,
            eat_at_hp,
            tick_eat,
            max_time,
            rng,
        );

        success_rate.push(success);
        i = i + 1;
    }
    success_rate
}

} // verus!
