//! The configuration, entry, weighting and history operations.

use soluck_roulette_program::config::{init_config, set_config, ConfigData};
use soluck_roulette_program::errors::RouletteErrors;
use soluck_roulette_program::history::{update_winner_account, UserRouletteData};
use soluck_roulette_program::round::{
    enter_roulette, set_floor_price, start_roulette, RouletteData, STATUS_CREATED, STATUS_OPEN,
};
use soluck_roulette_program::types::Identity;
use soluck_roulette_program::vault::CustodyVault;

fn id(key: u64) -> Identity {
    Identity { key }
}

fn fresh_config(auth_key: u64) -> ConfigData {
    let mut config = ConfigData {
        is_init: false,
        roulette_count: 0,
        auth: id(0),
    };
    init_config(&mut config, id(auth_key)).unwrap();
    config
}

#[test]
fn init_config_claims_the_singleton() {
    let mut config = ConfigData {
        is_init: false,
        roulette_count: 0,
        auth: id(0),
    };
    assert_eq!(init_config(&mut config, id(7)), Ok(()));
    assert!(config.is_init);
    assert_eq!(config.roulette_count, 1);
    assert_eq!(config.auth, id(7));
}

#[test]
fn second_init_fails_and_keeps_the_first_authority() {
    let mut config = fresh_config(7);
    let r = init_config(&mut config, id(9));
    assert_eq!(r, Err(RouletteErrors::ConfigAlreadyInitialized));
    assert_eq!(config.auth, id(7));
    assert_eq!(config.roulette_count, 1);
    assert!(config.is_init);
}

#[test]
fn set_config_rotates_only_for_the_authority() {
    let mut config = fresh_config(7);
    assert_eq!(
        set_config(&mut config, id(9), id(9)),
        Err(RouletteErrors::NotAuth)
    );
    assert_eq!(config.auth, id(7));
    assert_eq!(set_config(&mut config, id(7), id(9)), Ok(()));
    assert_eq!(config.auth, id(9));
}

#[test]
fn start_roulette_gated_and_counts_rounds() {
    let mut config = fresh_config(7);
    assert!(matches!(
        start_roulette(&mut config, id(9), 255),
        Err(RouletteErrors::NotAuth)
    ));
    assert_eq!(config.roulette_count, 1);

    let round = start_roulette(&mut config, id(7), 255).unwrap();
    assert_eq!(config.roulette_count, 2);
    assert_eq!(round.status, STATUS_OPEN);
    assert!(round.players.is_empty());
    assert!(round.values.is_empty());
    assert_eq!(round.winner, id(0));
    assert_eq!(round.bump, 255);
}

#[test]
fn enter_appends_with_zero_weight_and_credits_vault() {
    let mut config = fresh_config(7);
    let mut round = start_roulette(&mut config, id(7), 255).unwrap();
    let mut vault = CustodyVault { balance: 0 };

    let event = enter_roulette(&mut round, &mut vault, id(20), id(500)).unwrap();
    assert_eq!(event.from, id(20));
    assert_eq!(event.mint, id(500));
    assert_eq!(round.players, vec![id(20)]);
    assert_eq!(round.values, vec![0]);
    assert_eq!(vault.balance, 1);

    // A repeat entry is an independent slot, not an error.
    enter_roulette(&mut round, &mut vault, id(20), id(501)).unwrap();
    assert_eq!(round.players, vec![id(20), id(20)]);
    assert_eq!(round.values, vec![0, 0]);
    assert_eq!(vault.balance, 2);
}

#[test]
fn enter_rejects_a_round_that_is_not_open() {
    let mut round = RouletteData {
        status: STATUS_CREATED,
        players: Vec::new(),
        values: Vec::new(),
        winner: id(0),
        bump: 255,
    };
    let mut vault = CustodyVault { balance: 0 };
    let r = enter_roulette(&mut round, &mut vault, id(20), id(500));
    assert_eq!(r, Err(RouletteErrors::InProgress));
    assert!(round.players.is_empty());
    assert_eq!(vault.balance, 0);
}

#[test]
fn set_floor_price_updates_first_slot_only() {
    let mut config = fresh_config(7);
    let mut round = start_roulette(&mut config, id(7), 255).unwrap();
    let mut vault = CustodyVault { balance: 0 };
    enter_roulette(&mut round, &mut vault, id(20), id(500)).unwrap();
    enter_roulette(&mut round, &mut vault, id(21), id(501)).unwrap();
    enter_roulette(&mut round, &mut vault, id(20), id(502)).unwrap();

    assert_eq!(
        set_floor_price(&config, &mut round, id(9), id(20), 44),
        Err(RouletteErrors::NotAuth)
    );
    assert_eq!(round.values, vec![0, 0, 0]);

    assert_eq!(
        set_floor_price(&config, &mut round, id(7), id(20), 44),
        Ok(())
    );
    assert_eq!(round.values, vec![44, 0, 0]);

    // An address that never entered is silently left alone.
    assert_eq!(
        set_floor_price(&config, &mut round, id(7), id(99), 77),
        Ok(())
    );
    assert_eq!(round.values, vec![44, 0, 0]);
}

#[test]
fn record_win_is_gated_and_appends_duplicates() {
    let config = fresh_config(7);
    let mut user = UserRouletteData {
        winning_roulette_indexes: Vec::new(),
    };
    assert_eq!(
        update_winner_account(&config, &mut user, id(9), 3),
        Err(RouletteErrors::NotAuth)
    );
    assert!(user.winning_roulette_indexes.is_empty());

    assert_eq!(update_winner_account(&config, &mut user, id(7), 3), Ok(()));
    assert_eq!(update_winner_account(&config, &mut user, id(7), 3), Ok(()));
    assert_eq!(user.winning_roulette_indexes, vec![3, 3]);
}
