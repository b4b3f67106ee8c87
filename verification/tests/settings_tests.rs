use soroban_governor::constants::{ONE_DAY_LEDGERS, ONE_HOUR_LEDGERS};
use soroban_governor::errors::GovernorError;
use soroban_governor::settings::require_valid_settings;
use soroban_governor::types::GovernorSettings;
use soroban_sdk::testutils::Address as _;
use soroban_sdk::{Address, Env};

/// One in basis points, as the settings count quorum and thresholds.
const BPS: u32 = 10_000;

fn settings(e: &Env) -> GovernorSettings {
    GovernorSettings {
        council: Address::generate(e),
        proposal_threshold: 1_0000000,
        vote_delay: ONE_DAY_LEDGERS,
        vote_period: ONE_DAY_LEDGERS * 5,
        timelock: ONE_DAY_LEDGERS,
        grace_period: ONE_DAY_LEDGERS * 7,
        quorum: 100,
        counting_type: 2,
        vote_threshold: 5100,
    }
}

/// Fails as the contract does: with the error's contract code.
fn require(settings: &GovernorSettings) {
    if let Err(err) = require_valid_settings(settings) {
        panic!("Error(Contract, #{})", err.code());
    }
}

#[test]
fn test_require_valid_settings_is_valid() {
    let e = Env::default();
    let settings = settings(&e);
    require(&settings);
    assert_eq!(require_valid_settings(&settings), Ok(()));
}

#[test]
fn test_require_valid_settings_is_valid_at_max() {
    let e = Env::default();
    let mut settings = settings(&e);
    settings.vote_delay = ONE_DAY_LEDGERS * 3;
    settings.vote_period = ONE_DAY_LEDGERS * 7;
    settings.timelock = ONE_DAY_LEDGERS * 7;
    settings.grace_period = ONE_DAY_LEDGERS * 7;
    require(&settings);
    assert_eq!(require_valid_settings(&settings), Ok(()));
}

#[test]
#[should_panic(expected = "Error(Contract, #200)")]
fn test_require_valid_settings_invalid_vote_period_max() {
    let e = Env::default();
    let mut settings = settings(&e);
    settings.vote_period = ONE_DAY_LEDGERS * 7 + 1;
    require(&settings);
}

#[test]
#[should_panic(expected = "Error(Contract, #200)")]
fn test_require_valid_settings_invalid_vote_period_min() {
    let e = Env::default();
    let mut settings = settings(&e);
    settings.vote_period = ONE_HOUR_LEDGERS - 1;
    require(&settings);
}

#[test]
#[should_panic(expected = "Error(Contract, #200)")]
fn test_require_valid_settings_invalid_grace_period_max() {
    let e = Env::default();
    let mut settings = settings(&e);
    settings.grace_period = 7 * ONE_DAY_LEDGERS + 1;
    require(&settings);
}

#[test]
#[should_panic(expected = "Error(Contract, #200)")]
fn test_require_valid_settings_invalid_grace_period_min() {
    let e = Env::default();
    let mut settings = settings(&e);
    settings.grace_period = ONE_DAY_LEDGERS - 1;
    require(&settings);
}

#[test]
#[should_panic(expected = "Error(Contract, #200)")]
fn test_require_valid_settings_invalid_proposal_lifetime() {
    let e = Env::default();
    let mut settings = settings(&e);
    settings.vote_delay = ONE_DAY_LEDGERS * 3 + 1;
    settings.vote_period = ONE_DAY_LEDGERS * 7;
    settings.timelock = ONE_DAY_LEDGERS * 7;
    settings.grace_period = ONE_DAY_LEDGERS * 7;
    require(&settings);
}

#[test]
#[should_panic(expected = "Error(Contract, #200)")]
fn test_require_valid_settings_invalid_threshold() {
    let e = Env::default();
    let mut settings = settings(&e);
    settings.proposal_threshold = 0;
    require(&settings);
}

#[test]
#[should_panic(expected = "Error(Contract, #200)")]
fn test_require_valid_settings_invalid_counting_type() {
    let e = Env::default();
    let mut settings = settings(&e);
    settings.counting_type = 7 + 1;
    require(&settings);
}

#[test]
#[should_panic(expected = "Error(Contract, #200)")]
fn test_require_valid_settings_invalid_quorum_max() {
    let e = Env::default();
    let mut settings = settings(&e);
    settings.quorum = BPS - 99;
    require(&settings);
}

#[test]
#[should_panic(expected = "Error(Contract, #200)")]
fn test_require_valid_settings_invalid_quorum_min() {
    let e = Env::default();
    let mut settings = settings(&e);
    settings.quorum = 9;
    require(&settings);
}

#[test]
#[should_panic(expected = "Error(Contract, #200)")]
fn test_require_valid_settings_invalid_vote_threshold_max() {
    let e = Env::default();
    let mut settings = settings(&e);
    settings.vote_threshold = BPS - 99;
    require(&settings);
}

#[test]
#[should_panic(expected = "Error(Contract, #200)")]
fn test_require_valid_settings_invalid_vote_threshold_min() {
    let e = Env::default();
    let mut settings = settings(&e);
    settings.vote_threshold = 9;
    require(&settings);
}

#[test]
fn settings_bounds_are_inclusive() {
    let e = Env::default();
    let mut settings = settings(&e);
    settings.quorum = BPS - 100;
    settings.vote_threshold = 10;
    settings.vote_period = ONE_HOUR_LEDGERS;
    settings.grace_period = ONE_DAY_LEDGERS;
    settings.counting_type = 0b111;
    settings.proposal_threshold = 1;
    assert_eq!(require_valid_settings(&settings), Ok(()));
    settings.quorum = 10;
    settings.vote_threshold = BPS - 100;
    assert_eq!(require_valid_settings(&settings), Ok(()));
    settings.quorum = 9;
    assert_eq!(
        require_valid_settings(&settings),
        Err(GovernorError::InvalidSettingsError)
    );
}
