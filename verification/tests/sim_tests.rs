use hunllef::{AttackStyle, Hunllef, Levels, Player, Prayer, Setup, Weapon};

fn lvls() -> Levels {
    Levels { attack: 99, strength: 99, defence: 99, ranged: 99, magic: 99, prayer: 99, hp: 99 }
}

fn bow_staff(rng: &fastrand::Rng, fish: u8) -> Player {
    let setup1 = Setup::new(Weapon::Bow, 1, Prayer::Rigour, &lvls(), 1).unwrap();
    let setup2 = Setup::new(Weapon::Staff, 1, Prayer::Augury, &lvls(), 1).unwrap();
    Player::new(&setup1, &setup2, &lvls(), fish, 0, 0, rng)
}

#[test]
fn roll_damage_is_bounded() {
    let rng = fastrand::Rng::with_seed(7);
    let setup = Setup::new(Weapon::Bow, 1, Prayer::Rigour, &lvls(), 1).unwrap();
    for _ in 0..20_000 {
        let damage = setup.attack(&rng, 20916);
        assert!(damage <= setup.max_hit);
    }
}

#[test]
fn roll_zero_accuracy_never_hits() {
    let rng = fastrand::Rng::with_seed(11);
    let setup = Setup { weapon: Weapon::Bow, attack_delay: 4, max_hit: 50, acc_roll: 0, rdr: 0, mdr: 0 };
    for _ in 0..1_000 {
        assert_eq!(setup.attack(&rng, 20916), 0);
    }
}

#[test]
fn roll_distribution_is_nondegenerate() {
    let rng = fastrand::Rng::with_seed(13);
    let setup = Setup::new(Weapon::Bow, 1, Prayer::Rigour, &lvls(), 1).unwrap();
    let mut seen = [0u32; 64];
    for _ in 0..20_000 {
        let damage = setup.attack(&rng, 20916) as usize;
        seen[damage] += 1;
    }
    // Misses (or zero rolls) and several distinct positive damage values
    // must all occur when accuracy, defence and max hit are positive.
    assert!(seen[0] > 0);
    let distinct_positive = seen[1..=21].iter().filter(|&&n| n > 0).count();
    assert!(distinct_positive >= 5);
}

#[test]
fn boss_attack_cadence() {
    let rng = fastrand::Rng::with_seed(17);
    let mut hunllef = Hunllef::new(1);
    let player = bow_staff(&rng, 0);
    let setup = player.current();

    let first = hunllef.attack(&rng, setup.rdr, setup.mdr);
    match first {
        Some(damage) => assert!(damage <= 13),
        None => panic!("a fresh boss must attack on its first tick"),
    }
    assert_eq!(hunllef.attack_cd, 4);
    assert_eq!(hunllef.attacks_left, 3);
    for expected_cd in [3, 2, 1, 0] {
        assert!(hunllef.attack(&rng, setup.rdr, setup.mdr).is_none());
        assert_eq!(hunllef.attack_cd, expected_cd);
    }
    assert!(hunllef.attack(&rng, setup.rdr, setup.mdr).is_some());
}

#[test]
fn boss_style_toggles_every_fourth_slot() {
    let rng = fastrand::Rng::with_seed(19);
    let mut hunllef = Hunllef::new(1);
    assert_eq!(hunllef.style, AttackStyle::Ranged);
    hunllef.attacks_left = 0;
    let _ = hunllef.attack(&rng, 30130, 25990);
    assert_eq!(hunllef.style, AttackStyle::Magic);
    assert_eq!(hunllef.attacks_left, 3);
}

#[test]
fn boss_special_event_deals_no_damage() {
    let rng = fastrand::Rng::with_seed(23);
    let mut hunllef = Hunllef::new(1);
    hunllef.tornado_cd = 0;
    let r = hunllef.attack(&rng, 30130, 25990);
    assert!(r.is_none());
    assert!((10..=14).contains(&hunllef.tornado_cd));
}

#[test]
fn player_attack_cadence() {
    let rng = fastrand::Rng::with_seed(29);
    let mut player = bow_staff(&rng, 0);
    let r = player.attack(&rng, 20916);
    match r {
        Some(damage) => assert!(damage <= player.current().max_hit),
        None => panic!("a fresh player must attack on its first tick"),
    }
    assert_eq!(player.attack_cd, 3);
    assert_eq!(player.attacks_left, 5);
    for expected_cd in [2, 1, 0] {
        assert!(player.attack(&rng, 20916).is_none());
        assert_eq!(player.attack_cd, expected_cd);
    }
    assert!(player.attack(&rng, 20916).is_some());
}

#[test]
fn player_switches_loadout_after_six_attacks() {
    let rng = fastrand::Rng::with_seed(31);
    let mut player = bow_staff(&rng, 0);
    player.current_first = true;
    player.attacks_left = 0;
    player.attack_cd = 0;
    let _ = player.attack(&rng, 20916);
    assert!(!player.current_first);
    assert_eq!(player.attacks_left, 5);
}

#[test]
fn switch_prefers_second_on_equal_weapons() {
    let rng = fastrand::Rng::with_seed(37);
    let setup1 = Setup::new(Weapon::Bow, 1, Prayer::Rigour, &lvls(), 1).unwrap();
    let setup2 = Setup::new(Weapon::Bow, 2, Prayer::EagleEye, &lvls(), 1).unwrap();
    let mut player = Player::new(&setup1, &setup2, &lvls(), 0, 0, 0, &rng);
    player.current_first = false;
    player.switch_setup();
    // Both loadouts carry the same weapon, so the switch settles on the
    // second one no matter which was active.
    assert!(!player.current_first);
    player.current_first = true;
    player.switch_setup();
    assert!(!player.current_first);
}

#[test]
fn eat_fish_consumes_heals_and_costs_ticks() {
    let rng = fastrand::Rng::with_seed(41);
    let mut player = bow_staff(&rng, 2);
    player.hp = 40;
    player.attack_cd = 1;
    player.eat_fish();
    assert_eq!(player.fish, 1);
    assert_eq!(player.hp, 60);
    assert_eq!(player.attack_cd, 4);
}

#[test]
fn eat_fish_without_fish_changes_nothing() {
    let rng = fastrand::Rng::with_seed(43);
    let mut player = bow_staff(&rng, 0);
    player.hp = 40;
    player.attack_cd = 1;
    player.eat_fish();
    assert_eq!(player.fish, 0);
    assert_eq!(player.hp, 40);
    assert_eq!(player.attack_cd, 1);
}

#[test]
fn redemption_heals_quarter_of_prayer() {
    let rng = fastrand::Rng::with_seed(47);
    let setup1 = Setup::new(Weapon::Bow, 1, Prayer::Rigour, &lvls(), 1).unwrap();
    let setup2 = Setup::new(Weapon::Staff, 1, Prayer::Augury, &lvls(), 1).unwrap();
    let mut player = Player::new(&setup1, &setup2, &lvls(), 0, 1, 0, &rng);
    player.hp = 8;
    player._redemption_heal();
    assert_eq!(player.redemption, 0);
    assert_eq!(player.hp, 8 + 99 / 4);
    player._redemption_heal();
    assert_eq!(player.hp, 8 + 99 / 4);
}

#[test]
fn trial_with_dead_boss_fails_immediately() {
    let rng = fastrand::Rng::with_seed(53);
    let player = bow_staff(&rng, 12);
    let mut hunllef = Hunllef::new(1);
    hunllef.hp = 0;
    let out = hunllef::run_one_trial(&player, &hunllef, 50, false, 6000, &rng);
    assert!(!out.success);
    assert_eq!(out.time, 0);
    assert_eq!(out.fish_eaten, 0);
}

#[test]
fn trial_with_dead_player_fails_immediately() {
    let rng = fastrand::Rng::with_seed(59);
    let setup1 = Setup::new(Weapon::Bow, 1, Prayer::Rigour, &lvls(), 1).unwrap();
    let setup2 = Setup::new(Weapon::Staff, 1, Prayer::Augury, &lvls(), 1).unwrap();
    let dead = Levels { hp: 0, ..lvls() };
    let player = Player::new(&setup1, &setup2, &dead, 12, 0, 0, &rng);
    let hunllef = Hunllef::new(1);
    let out = hunllef::run_one_trial(&player, &hunllef, 50, false, 6000, &rng);
    assert!(!out.success);
    assert_eq!(out.time, 0);
    assert_eq!(out.fish_eaten, 0);
}

#[test]
fn trial_with_both_alive_takes_time() {
    let rng = fastrand::Rng::with_seed(61);
    let player = bow_staff(&rng, 12);
    let hunllef = Hunllef::new(1);
    let out = hunllef::run_one_trial(&player, &hunllef, 50, false, 6000, &rng);
    assert!(out.time >= 1);
    assert!(out.time <= 6001);
    assert!(out.fish_eaten <= 12);
}

#[test]
fn aggregate_lengths_match_tallies() {
    let rng = fastrand::Rng::with_seed(67);
    let player = bow_staff(&rng, 12);
    let hunllef = Hunllef::new(1);
    let trials = 500;
    let (success, fish_eaten, times) =
        hunllef::run_simulation(trials, &player, &hunllef, 50, false, 6000, &rng);
    assert!(success <= trials);
    assert_eq!(fish_eaten.len(), trials as usize);
    assert_eq!(times.len(), success as usize);
    assert!(fish_eaten.iter().all(|&f| f <= 12));
    assert!(times.iter().all(|&t| t <= 6001));
}

#[test]
fn aggregate_with_reactive_policy_runs() {
    let rng = fastrand::Rng::with_seed(71);
    let player = bow_staff(&rng, 12);
    let hunllef = Hunllef::new(1);
    let (success, fish_eaten, times) =
        hunllef::run_simulation(200, &player, &hunllef, 50, true, 6000, &rng);
    assert!(success <= 200);
    assert_eq!(fish_eaten.len(), 200);
    assert_eq!(times.len(), success as usize);
}

#[test]
fn data_mode_covers_every_allotment() {
    let rng = fastrand::Rng::with_seed(73);
    let player = bow_staff(&rng, 3);
    let hunllef = Hunllef::new(1);
    let rates = hunllef::data_mode(50, &player, &hunllef, 50, false, 6000, &rng);
    assert_eq!(rates.len(), 4);
    assert!(rates.iter().all(|&s| s <= 50));
}

#[test]
fn end_to_end_success_rate_band() {
    let rng = fastrand::Rng::with_seed(20871);
    let setup1 = Setup::new(Weapon::Bow, 3, Prayer::Rigour, &lvls(), 1).unwrap();
    let setup2 = Setup::new(Weapon::Staff, 3, Prayer::Augury, &lvls(), 1).unwrap();
    let player = Player::new(&setup1, &setup2, &lvls(), 12, 0, 0, &rng);
    let hunllef = Hunllef::new(1);
    let trials = 10_000;
    let (success, fish_eaten, times) =
        hunllef::run_simulation(trials, &player, &hunllef, 50, false, 6000, &rng);
    assert_eq!(fish_eaten.len(), trials as usize);
    assert_eq!(times.len(), success as usize);
    // Regression band around the recorded baseline of 98.1% for this
    // maxed bow/staff configuration.
    let rate_permille = success * 1000 / trials;
    assert!(rate_permille >= 950, "success rate dropped to {} permille", rate_permille);
    assert!(rate_permille <= 998, "success rate rose to {} permille", rate_permille);
}
