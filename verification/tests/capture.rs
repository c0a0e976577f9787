use turf_control::{
    attack_territory, check_attack, claim_income, initialize, resolve_attack, resolve_attack_fits,
    Address, AttackResolved, CaptureState, District, ErrorCode, ErrorKind, Territory,
    TerritoryAttacked, TurfConfig, RANDOM_RANGE,
};

const COOLDOWN: i64 = 172_800;

fn name(tag: u8) -> Address {
    Address::new([tag; 32])
}

fn config() -> TurfConfig {
    initialize(name(1), name(2), name(3))
}

fn plot(mint: u8, owner: u8, security_level: u8) -> Territory {
    Territory {
        mint: name(mint),
        owner: name(owner),
        district: District::Harbor,
        plot_id: mint as u16,
        base_income: 100,
        current_income: 100,
        security_level,
        last_income_claim: 0,
        last_attack_time: 0,
        defense_wins: 0,
        attack_wins: 0,
        is_under_attack: false,
        businesses: vec![],
    }
}

#[test]
fn the_chance_factor_has_a_hundred_values() {
    assert_eq!(RANDOM_RANGE, 100);
}

#[test]
fn a_successful_attack_and_its_resolution_transfer_the_plot() {
    let config = config();
    let mut attacker = plot(10, 20, 30);
    let mut defender = plot(11, 21, 60);
    let now = 1_000_000;
    let attacked =
        attack_territory(&config, &attacker, &mut defender, name(20), now, 7_000_005).unwrap();
    assert_eq!(
        attacked,
        TerritoryAttacked {
            attacker: name(20),
            attacker_territory: name(10),
            defender_territory: name(11),
            attack_power: 70,
            defense_power: 60,
            success: true,
            timestamp: now,
        }
    );
    assert!(defender.is_under_attack);
    assert_eq!(defender.capture_state(), CaptureState::Contested);
    assert_eq!(defender.owner, name(21));
    let mut locked = plot(11, 21, 60);
    locked.is_under_attack = true;
    assert_eq!(defender, locked);
    assert_eq!(attacker, plot(10, 20, 30));

    assert!(resolve_attack_fits(&attacker, &defender, attacked.success));
    let resolved =
        resolve_attack(&mut attacker, &mut defender, name(21), attacked.success, now + 60).unwrap();
    assert_eq!(
        resolved,
        AttackResolved {
            attacker: name(20),
            defender: name(21),
            territory: name(11),
            successful: true,
            timestamp: now + 60,
        }
    );
    assert_eq!(defender.owner, name(20));
    assert!(!defender.is_under_attack);
    assert_eq!(defender.capture_state(), CaptureState::Idle);
    assert_eq!(defender.defense_wins, 0);
    assert_eq!(attacker.attack_wins, 1);
    assert_eq!(attacker.last_attack_time, now + 60);
    let mut taken = plot(11, 20, 60);
    taken.plot_id = 11;
    assert_eq!(defender, taken);
    let mut winner = plot(10, 20, 30);
    winner.attack_wins = 1;
    winner.last_attack_time = now + 60;
    assert_eq!(attacker, winner);
}

#[test]
fn a_failed_attack_and_its_resolution_leave_the_plot_with_its_owner() {
    let config = config();
    let mut attacker = plot(10, 20, 90);
    let mut defender = plot(11, 21, 60);
    let now = 1_000_000;
    let attacked = attack_territory(&config, &attacker, &mut defender, name(20), now, 250).unwrap();
    assert_eq!(attacked.attack_power, 10);
    assert_eq!(attacked.defense_power, 60);
    assert!(!attacked.success);
    assert!(defender.is_under_attack);

    let resolved =
        resolve_attack(&mut attacker, &mut defender, name(21), attacked.success, now + 5).unwrap();
    assert!(!resolved.successful);
    assert_eq!(defender.owner, name(21));
    assert_eq!(defender.defense_wins, 1);
    assert!(!defender.is_under_attack);
    assert_eq!(attacker.attack_wins, 0);
    assert_eq!(attacker.last_attack_time, now + 5);
}

#[test]
fn an_attack_wins_only_if_power_and_chance_exceed_the_defence() {
    let config = config();
    let cases = [
        (90u8, 60u8, 49u64, false),
        (90, 60, 50, false),
        (90, 60, 51, true),
        (90, 60, 151, true),
        (90, 60, 150, false),
        (100, 100, 99, false),
        (0, 100, 0, false),
        (0, 100, 1, true),
        (0, 99, 0, true),
        (100, 0, 0, false),
        (100, 0, 1, true),
        (50, 50, 0, false),
        (50, 50, 100, false),
        (50, 50, 101, true),
        (0, 0, 99, true),
        (30, 60, u64::MAX, true),
    ];
    for (attacker_level, defender_level, slot, wins) in cases {
        let attacker = plot(10, 20, attacker_level);
        let mut defender = plot(11, 21, defender_level);
        let attacked =
            attack_territory(&config, &attacker, &mut defender, name(20), COOLDOWN, slot).unwrap();
        assert_eq!(attacked.attack_power, 100 - attacker_level);
        assert_eq!(attacked.defense_power, defender_level);
        assert_eq!(attacked.success, wins);
        assert_eq!(
            attacked.success,
            (100 - attacker_level as u64) + slot % 100 > defender_level as u64
        );
    }
}

#[test]
fn an_attack_on_a_contested_plot_is_refused() {
    let config = config();
    let attacker = plot(10, 20, 30);
    let mut defender = plot(11, 21, 60);
    attack_territory(&config, &attacker, &mut defender, name(20), COOLDOWN, 5).unwrap();
    let before = defender.clone();
    let res = attack_territory(&config, &attacker, &mut defender, name(20), COOLDOWN + 1, 5);
    assert_eq!(res.unwrap_err(), ErrorCode::TerritoryUnderAttack);
    assert_eq!(res.unwrap_err().kind(), ErrorKind::StateConflict);
    assert_eq!(defender, before);
    let other = plot(12, 22, 10);
    let res = attack_territory(&config, &other, &mut defender, name(22), COOLDOWN, 5);
    assert_eq!(res.unwrap_err(), ErrorCode::TerritoryUnderAttack);
}

#[test]
fn an_attack_on_oneself_is_refused() {
    let config = config();
    let attacker = plot(10, 20, 30);
    let mut same = plot(10, 20, 30);
    let res = attack_territory(&config, &attacker, &mut same, name(20), COOLDOWN, 5);
    assert_eq!(res.unwrap_err(), ErrorCode::CannotAttackSelf);
    assert_eq!(res.unwrap_err().kind(), ErrorKind::Validation);
    assert_eq!(same, plot(10, 20, 30));

    let mut own_other_plot = plot(11, 20, 30);
    assert!(attack_territory(&config, &attacker, &mut own_other_plot, name(20), COOLDOWN, 5).is_ok());
}

#[test]
fn an_attack_during_the_cooldown_is_refused() {
    let config = config();
    let mut attacker = plot(10, 20, 30);
    attacker.last_attack_time = 5_000;
    let mut defender = plot(11, 21, 60);
    for now in [i64::MIN, 0, 5_000, 5_000 + COOLDOWN - 1] {
        let res = attack_territory(&config, &attacker, &mut defender, name(20), now, 5);
        assert_eq!(res.unwrap_err(), ErrorCode::AttackCooldownActive);
        assert_eq!(res.unwrap_err().kind(), ErrorKind::StateConflict);
        assert_eq!(defender, plot(11, 21, 60));
    }
    assert!(
        attack_territory(&config, &attacker, &mut defender, name(20), 5_000 + COOLDOWN, 5).is_ok()
    );
}

#[test]
fn a_second_attack_must_wait_for_the_cooldown_after_the_resolution() {
    let config = config();
    let mut attacker = plot(10, 20, 30);
    let mut first = plot(11, 21, 60);
    let mut second = plot(12, 22, 60);
    let t0 = 10 * COOLDOWN;
    let attacked = attack_territory(&config, &attacker, &mut first, name(20), t0, 5).unwrap();

    // the cooldown runs from the resolution, not from the launch
    assert!(check_attack(&config, &attacker, &second, name(20), t0 + 1).is_ok());

    resolve_attack(&mut attacker, &mut first, name(21), attacked.success, t0 + 100).unwrap();
    let res = attack_territory(&config, &attacker, &mut second, name(20), t0 + 101, 5);
    assert_eq!(res.unwrap_err(), ErrorCode::AttackCooldownActive);
    let res = attack_territory(&config, &attacker, &mut second, name(20), t0 + 100 + COOLDOWN - 1, 5);
    assert_eq!(res.unwrap_err(), ErrorCode::AttackCooldownActive);
    assert_eq!(second, plot(12, 22, 60));
    assert!(attack_territory(&config, &attacker, &mut second, name(20), t0 + 100 + COOLDOWN, 5)
        .is_ok());
}

#[test]
fn the_cooldown_starts_after_a_failed_attack_too() {
    let config = config();
    let mut attacker = plot(10, 20, 100);
    let mut defender = plot(11, 21, 100);
    let t0 = 10 * COOLDOWN;
    let attacked = attack_territory(&config, &attacker, &mut defender, name(20), t0, 0).unwrap();
    assert!(!attacked.success);
    resolve_attack(&mut attacker, &mut defender, name(21), false, t0 + 7).unwrap();
    assert_eq!(attacker.last_attack_time, t0 + 7);
    let res = attack_territory(&config, &attacker, &mut defender, name(20), t0 + 8, 0);
    assert_eq!(res.unwrap_err(), ErrorCode::AttackCooldownActive);
}

#[test]
fn an_attack_of_a_stranger_or_on_a_switched_off_registry_is_refused() {
    let mut config = config();
    let attacker = plot(10, 20, 30);
    let mut defender = plot(11, 21, 60);
    let res = attack_territory(&config, &attacker, &mut defender, name(21), COOLDOWN, 5);
    assert_eq!(res.unwrap_err(), ErrorCode::NotOwner);
    config.is_active = false;
    let res = attack_territory(&config, &attacker, &mut defender, name(20), COOLDOWN, 5);
    assert_eq!(res.unwrap_err(), ErrorCode::ProgramInactive);
    assert_eq!(res.unwrap_err().kind(), ErrorKind::Inactive);
    assert_eq!(defender, plot(11, 21, 60));
}

#[test]
fn an_attack_reports_the_first_reason_that_applies() {
    let mut config = config();
    config.is_active = false;
    let mut attacker = plot(10, 20, 30);
    attacker.last_attack_time = 1000;
    let mut same = plot(10, 20, 30);
    same.is_under_attack = true;
    assert_eq!(check_attack(&config, &attacker, &same, name(9), 1000), Err(ErrorCode::ProgramInactive));
    config.is_active = true;
    assert_eq!(check_attack(&config, &attacker, &same, name(9), 1000), Err(ErrorCode::NotOwner));
    assert_eq!(
        check_attack(&config, &attacker, &same, name(20), 1000),
        Err(ErrorCode::CannotAttackSelf)
    );
    let mut other = plot(11, 21, 30);
    other.is_under_attack = true;
    assert_eq!(
        check_attack(&config, &attacker, &other, name(20), 1000),
        Err(ErrorCode::TerritoryUnderAttack)
    );
    other.is_under_attack = false;
    assert_eq!(
        check_attack(&config, &attacker, &other, name(20), 1000),
        Err(ErrorCode::AttackCooldownActive)
    );
    assert_eq!(check_attack(&config, &attacker, &other, name(20), 1000 + COOLDOWN), Ok(()));
}

#[test]
fn a_cooldown_of_zero_or_less_never_blocks() {
    let mut config = config();
    config.attack_cooldown = 0;
    let mut attacker = plot(10, 20, 30);
    attacker.last_attack_time = 500;
    let defender = plot(11, 21, 60);
    assert_eq!(check_attack(&config, &attacker, &defender, name(20), 500), Ok(()));
    assert_eq!(
        check_attack(&config, &attacker, &defender, name(20), 499),
        Err(ErrorCode::AttackCooldownActive)
    );
    config.attack_cooldown = -10;
    assert_eq!(check_attack(&config, &attacker, &defender, name(20), 490), Ok(()));
}

#[test]
fn a_resolution_without_a_pending_attack_is_refused() {
    let mut attacker = plot(10, 20, 30);
    let mut defender = plot(11, 21, 60);
    for successful in [true, false] {
        assert!(resolve_attack_fits(&attacker, &defender, successful));
        let res = resolve_attack(&mut attacker, &mut defender, name(21), successful, 99);
        assert_eq!(res.unwrap_err(), ErrorCode::NoActiveAttack);
        assert_eq!(res.unwrap_err().kind(), ErrorKind::StateConflict);
        assert_eq!(attacker, plot(10, 20, 30));
        assert_eq!(defender, plot(11, 21, 60));
    }
}

#[test]
fn a_resolution_cannot_be_repeated() {
    let config = config();
    let mut attacker = plot(10, 20, 30);
    let mut defender = plot(11, 21, 60);
    attack_territory(&config, &attacker, &mut defender, name(20), COOLDOWN, 5).unwrap();
    resolve_attack(&mut attacker, &mut defender, name(21), true, COOLDOWN + 1).unwrap();
    let res = resolve_attack(&mut attacker, &mut defender, name(21), true, COOLDOWN + 2);
    assert_eq!(res.unwrap_err(), ErrorCode::NoActiveAttack);
    assert_eq!(attacker.attack_wins, 1);
    assert_eq!(attacker.last_attack_time, COOLDOWN + 1);
}

#[test]
fn a_contested_plot_pays_no_income_until_it_is_resolved() {
    let config = config();
    let mut attacker = plot(10, 20, 90);
    let mut defender = plot(11, 21, 60);
    let now = 10 * 86_400;
    attack_territory(&config, &attacker, &mut defender, name(20), now, 0).unwrap();
    let res = claim_income(&config, &mut defender, name(21), now);
    assert_eq!(res.unwrap_err(), ErrorCode::TerritoryUnderAttack);
    resolve_attack(&mut attacker, &mut defender, name(21), false, now).unwrap();
    let receipt = claim_income(&config, &mut defender, name(21), now).unwrap();
    assert_eq!(receipt.days_claimed, 10);
    assert_eq!(receipt.gross_income, 1000);
}

#[test]
fn a_captured_plot_pays_its_new_owner() {
    let config = config();
    let mut attacker = plot(10, 20, 0);
    let mut defender = plot(11, 21, 60);
    let now = 3 * 86_400;
    attack_territory(&config, &attacker, &mut defender, name(20), now, 0).unwrap();
    resolve_attack(&mut attacker, &mut defender, name(21), true, now).unwrap();
    let res = claim_income(&config, &mut defender, name(21), now);
    assert_eq!(res.unwrap_err(), ErrorCode::NotOwner);
    let receipt = claim_income(&config, &mut defender, name(20), now).unwrap();
    assert_eq!(receipt.owner, name(20));
    assert_eq!(receipt.net_income, 240);
}

#[test]
fn resolve_attack_fits_tells_when_a_counter_is_full() {
    let mut attacker = plot(10, 20, 30);
    let mut defender = plot(11, 21, 60);
    attacker.attack_wins = u32::MAX;
    defender.defense_wins = u32::MAX;
    assert!(resolve_attack_fits(&attacker, &defender, true));
    assert!(resolve_attack_fits(&attacker, &defender, false));
    defender.is_under_attack = true;
    assert!(!resolve_attack_fits(&attacker, &defender, true));
    assert!(!resolve_attack_fits(&attacker, &defender, false));
    attacker.attack_wins = u32::MAX - 1;
    assert!(resolve_attack_fits(&attacker, &defender, true));
    assert!(!resolve_attack_fits(&attacker, &defender, false));
    resolve_attack(&mut attacker, &mut defender, name(21), true, 1).unwrap();
    assert_eq!(attacker.attack_wins, u32::MAX);
    assert_eq!(defender.defense_wins, u32::MAX);
}
