use soroban_governor::balance::Holder;
use soroban_governor::checkpoints::{Checkpoint, VotingHistory};
use soroban_governor::emissions::{
    claim_emissions, set_emissions, update_emissions, EmissionConfig, EmissionData, Emissions,
    UserEmissionData, SCALAR_7,
};
use soroban_governor::errors::TokenVotesError;
use soroban_sdk::{Env, Vec};

const ONE_DAY: u64 = 24 * 60 * 60;
const T_NOW: u64 = 1500000000;
/// The ledger sequence the emission tests run at.
const SEQUENCE: u32 = 123;

fn history(e: &Env, sequence: u32, amount: i128) -> VotingHistory {
    let current = u128::from_checkpoint_data(sequence, amount).unwrap();
    VotingHistory::new(current, Vec::<u128>::new(e)).unwrap()
}

/********** update_emissions **********/

#[test]
fn test_update_emissions() {
    let total_supply = 1_123_456 * SCALAR_7;
    let balance = 50_000 * SCALAR_7;
    let mut emissions = Some(Emissions {
        config: EmissionConfig { expiration: T_NOW + ONE_DAY * 5, eps: 5000000 },
        data: EmissionData { index: 1234567, last_time: T_NOW - ONE_DAY },
    });
    let mut user = Some(UserEmissionData { index: 1000000, accrued: 4 });

    update_emissions(T_NOW, &mut emissions, total_supply, &mut user, balance);

    let new_emis_data = emissions.unwrap().data;
    assert_eq!(new_emis_data.index, 1234567 + 384527);
    assert_eq!(new_emis_data.last_time, T_NOW);
    let new_user_data = user.unwrap();
    assert_eq!(new_user_data.index, new_emis_data.index);
    assert_eq!(new_user_data.accrued, 4 + 3095_4700000);
}

#[test]
fn test_update_emissions_no_user_data_with_balance_accrues() {
    let total_supply = 1_123_456 * SCALAR_7;
    let balance = 1000 * SCALAR_7;
    let mut emissions = Some(Emissions {
        config: EmissionConfig { expiration: T_NOW + ONE_DAY * 5, eps: 5000000 },
        data: EmissionData { index: 1000, last_time: T_NOW - ONE_DAY },
    });
    let mut user = None;

    update_emissions(T_NOW, &mut emissions, total_supply, &mut user, balance);

    let new_emis_data = emissions.unwrap().data;
    assert_eq!(new_emis_data.index, 1000 + 384527);
    assert_eq!(new_emis_data.last_time, T_NOW);
    let new_user_data = user.unwrap();
    assert_eq!(new_user_data.index, new_emis_data.index);
    assert_eq!(new_user_data.accrued, 38_5527000);
}

#[test]
fn test_update_emissions_no_starting_balance_no_accrual() {
    let total_supply = 1_123_456 * SCALAR_7;
    let balance = 0;
    let mut emissions = Some(Emissions {
        config: EmissionConfig { expiration: T_NOW + ONE_DAY * 5, eps: 5000000 },
        data: EmissionData { index: 1000, last_time: T_NOW - ONE_DAY },
    });
    let mut user = None;

    update_emissions(T_NOW, &mut emissions, total_supply, &mut user, balance);

    let new_emis_data = emissions.unwrap().data;
    assert_eq!(new_emis_data.index, 1000 + 384527);
    assert_eq!(new_emis_data.last_time, T_NOW);
    let new_user_data = user.unwrap();
    assert_eq!(new_user_data.index, new_emis_data.index);
    assert_eq!(new_user_data.accrued, 0);
}

#[test]
fn test_update_emissions_no_update_data_still_updates_user() {
    let total_supply = 1_123_456 * SCALAR_7;
    let balance = 50_000 * SCALAR_7;
    let mut emissions = Some(Emissions {
        config: EmissionConfig { expiration: T_NOW + ONE_DAY * 5, eps: 5000000 },
        data: EmissionData { index: 1234567, last_time: T_NOW },
    });
    let mut user = Some(UserEmissionData { index: 1000000, accrued: 0 });

    update_emissions(T_NOW, &mut emissions, total_supply, &mut user, balance);

    let new_emis_data = emissions.unwrap().data;
    assert_eq!(new_emis_data.index, 1234567);
    assert_eq!(new_emis_data.last_time, T_NOW);
    let new_user_data = user.unwrap();
    assert_eq!(new_user_data.index, new_emis_data.index);
    assert_eq!(new_user_data.accrued, 1172_8350000);
}

#[test]
fn test_update_emissions_config_expires() {
    let total_supply = 123_456 * SCALAR_7;
    let balance = 42 * SCALAR_7;
    let mut emissions = Some(Emissions {
        config: EmissionConfig { expiration: T_NOW - 1000, eps: 5000000 },
        data: EmissionData { index: 0, last_time: T_NOW - 1100 },
    });
    let mut user = Some(UserEmissionData { index: 0, accrued: 0 });

    update_emissions(T_NOW, &mut emissions, total_supply, &mut user, balance);

    let new_emis_data = emissions.unwrap().data;
    assert_eq!(new_emis_data.index, 4050);
    assert_eq!(new_emis_data.last_time, T_NOW);
    let new_user_data = user.unwrap();
    assert_eq!(new_user_data.index, new_emis_data.index);
    assert_eq!(new_user_data.accrued, 0_0170100);
}

#[test]
fn test_update_emissions_no_config() {
    let total_supply = 100 * SCALAR_7;
    let balance = 5 * SCALAR_7;
    let mut emissions: Option<Emissions> = None;
    let mut user = None;

    update_emissions(T_NOW, &mut emissions, total_supply, &mut user, balance);

    assert!(emissions.is_none());
    assert!(user.is_none());
}

#[test]
fn test_update_emissions_no_balance() {
    let total_supply = 23_456 * SCALAR_7;
    let balance = 0;
    let mut emissions = Some(Emissions {
        config: EmissionConfig { expiration: T_NOW + ONE_DAY * 5, eps: 2000000 },
        data: EmissionData { index: 1234567, last_time: T_NOW - 12345 },
    });
    let mut user = Some(UserEmissionData { index: 4567, accrued: 0 });

    update_emissions(T_NOW, &mut emissions, total_supply, &mut user, balance);

    let new_emis_data = emissions.unwrap().data;
    assert_eq!(new_emis_data.index, 1052609 + 1234567);
    assert_eq!(new_emis_data.last_time, T_NOW);
    let new_user_data = user.unwrap();
    assert_eq!(new_user_data.index, new_emis_data.index);
    assert_eq!(new_user_data.accrued, 0);
}

/********** claim_emissions **********/

#[test]
fn test_claim_emissions() {
    let e = Env::default();
    let vote_ledgers = Vec::<u32>::new(&e);
    let total_supply = 1_123_456 * SCALAR_7;
    let balance = 50_000 * SCALAR_7;
    let mut supply = history(&e, 0, total_supply);
    let mut emissions = Some(Emissions {
        config: EmissionConfig { expiration: T_NOW + ONE_DAY * 5, eps: 5000000 },
        data: EmissionData { index: 1234567, last_time: T_NOW - ONE_DAY },
    });
    // the holder delegates to itself
    let mut holder = Holder {
        balance,
        emissions: Some(UserEmissionData { index: 1000000, accrued: 4 }),
    };
    let mut votes = history(&e, 0, 0);

    let result = claim_emissions(
        &vote_ledgers,
        SEQUENCE,
        T_NOW,
        &mut supply,
        &mut emissions,
        &mut holder,
        &mut votes,
    );

    let new_emis_data = emissions.unwrap().data;
    assert_eq!(new_emis_data.index, 1234567 + 384527);
    assert_eq!(new_emis_data.last_time, T_NOW);
    let new_user_data = holder.emissions.unwrap();
    assert_eq!(new_user_data.index, new_emis_data.index);
    assert_eq!(new_user_data.accrued, 0);

    assert_eq!(result, Ok(4 + 3095_4700000));
    assert_eq!(holder.balance, balance + 4 + 3095_4700000);
    assert_eq!(votes.current().to_checkpoint_data(), (123, 4 + 3095_4700000));
    assert_eq!(supply.amount(), total_supply + 4 + 3095_4700000);
}

#[test]
fn test_claim_emissions_already_updated_and_delegated() {
    let e = Env::default();
    let vote_ledgers = Vec::<u32>::new(&e);
    let total_supply = 1_123_456 * SCALAR_7;
    let mut supply = history(&e, 0, total_supply);
    let mut emissions = Some(Emissions {
        config: EmissionConfig { expiration: T_NOW + ONE_DAY * 5, eps: 5000000 },
        data: EmissionData { index: 1234567, last_time: T_NOW },
    });
    let mut holder = Holder {
        balance: 0,
        emissions: Some(UserEmissionData { index: 1234567, accrued: 3095_4700000 }),
    };
    // the holder delegates to samwise
    let mut samwise_votes = history(&e, 0, 0);

    let result = claim_emissions(
        &vote_ledgers,
        SEQUENCE,
        T_NOW,
        &mut supply,
        &mut emissions,
        &mut holder,
        &mut samwise_votes,
    );

    let new_emis_data = emissions.unwrap().data;
    assert_eq!(new_emis_data.index, 1234567);
    assert_eq!(new_emis_data.last_time, T_NOW);
    let new_user_data = holder.emissions.unwrap();
    assert_eq!(new_user_data.index, new_emis_data.index);
    assert_eq!(new_user_data.accrued, 0);

    assert_eq!(result, Ok(3095_4700000));
    assert_eq!(holder.balance, 3095_4700000);
    assert_eq!(samwise_votes.current().to_checkpoint_data(), (123, 3095_4700000));
}

#[test]
fn test_claim_no_config() {
    let e = Env::default();
    let vote_ledgers = Vec::<u32>::new(&e);
    let total_supply = 100 * SCALAR_7;
    let balance = 5 * SCALAR_7;
    let mut supply = history(&e, 0, total_supply);
    let mut emissions: Option<Emissions> = None;
    let mut holder = Holder { balance, emissions: None };
    let mut votes = history(&e, 0, balance);

    let result = claim_emissions(
        &vote_ledgers,
        SEQUENCE,
        T_NOW,
        &mut supply,
        &mut emissions,
        &mut holder,
        &mut votes,
    );

    assert_eq!(result, Ok(0));
    assert!(emissions.is_none());
    assert!(holder.emissions.is_none());
    assert_eq!(holder.balance, balance);
}

#[test]
fn test_claim_no_accrual() {
    let e = Env::default();
    let vote_ledgers = Vec::<u32>::new(&e);
    let total_supply = 23_456 * SCALAR_7;
    let mut supply = history(&e, 0, total_supply);
    let mut emissions = Some(Emissions {
        config: EmissionConfig { expiration: T_NOW + ONE_DAY * 5, eps: 2000000 },
        data: EmissionData { index: 1234567, last_time: T_NOW - 12345 },
    });
    let mut holder = Holder {
        balance: 0,
        emissions: Some(UserEmissionData { index: 4567, accrued: 0 }),
    };
    let mut votes = history(&e, 0, 0);

    let result = claim_emissions(
        &vote_ledgers,
        SEQUENCE,
        T_NOW,
        &mut supply,
        &mut emissions,
        &mut holder,
        &mut votes,
    );

    assert_eq!(result, Ok(0));
    let new_emis_data = emissions.unwrap().data;
    assert_eq!(new_emis_data.index, 1052609 + 1234567);
    assert_eq!(new_emis_data.last_time, T_NOW);
    let new_user_data = holder.emissions.unwrap();
    assert_eq!(new_user_data.index, new_emis_data.index);
    assert_eq!(new_user_data.accrued, 0);
    assert_eq!(holder.balance, 0);
    assert_eq!(votes.amount(), 0);
}

/********** set_emissions **********/

#[test]
fn test_set_emissions_init() {
    let total_supply = 654_321 * SCALAR_7;
    let new_tokens = 14_000 * SCALAR_7;
    let new_expiration = T_NOW + ONE_DAY * 14;
    let mut emissions: Option<Emissions> = None;

    let eps = set_emissions(T_NOW, &mut emissions, total_supply, new_tokens, new_expiration);

    assert_eq!(eps, Ok(115740));
    let new = emissions.unwrap();
    assert_eq!(new.config.expiration, new_expiration);
    assert_eq!(new.config.eps, 115740);
    assert_eq!(new.data.index, 0);
    assert_eq!(new.data.last_time, T_NOW);
}

#[test]
fn test_set_emissions_update_expired() {
    let total_supply = 654_321 * SCALAR_7;
    let mut emissions = Some(Emissions {
        config: EmissionConfig { expiration: T_NOW - 1000, eps: 5000000 },
        data: EmissionData { index: 54321, last_time: T_NOW - 1000 },
    });
    let new_tokens = 70_000 * SCALAR_7;
    let new_expiration = T_NOW + ONE_DAY * 7;

    set_emissions(T_NOW, &mut emissions, total_supply, new_tokens, new_expiration).unwrap();

    let new = emissions.unwrap();
    assert_eq!(new.config.expiration, new_expiration);
    assert_eq!(new.config.eps, 1157407);
    assert_eq!(new.data.index, 54321);
    assert_eq!(new.data.last_time, T_NOW);
}

#[test]
fn test_set_emissions_update_ongoing() {
    let total_supply = 654_321 * SCALAR_7;
    let mut emissions = Some(Emissions {
        config: EmissionConfig { expiration: T_NOW + 5000, eps: 5000000 },
        data: EmissionData { index: 54321, last_time: T_NOW - 1000 },
    });
    let new_tokens = 70_000 * SCALAR_7;
    let new_expiration = T_NOW + ONE_DAY * 7;

    set_emissions(T_NOW, &mut emissions, total_supply, new_tokens, new_expiration).unwrap();

    let new = emissions.unwrap();
    assert_eq!(new.config.expiration, new_expiration);
    assert_eq!(new.config.eps, 1198743);
    assert_eq!(new.data.index, 54321 + 7641);
    assert_eq!(new.data.last_time, T_NOW);
}

#[test]
fn set_emissions_refuses_bad_schedules() {
    let mut emissions: Option<Emissions> = None;
    assert_eq!(
        set_emissions(T_NOW, &mut emissions, 100, 1000, T_NOW),
        Err(TokenVotesError::InvalidEmissionConfigError)
    );
    assert_eq!(
        set_emissions(T_NOW, &mut emissions, 100, 0, T_NOW + 10),
        Err(TokenVotesError::InvalidEmissionConfigError)
    );
    assert!(emissions.is_none());
}

#[test]
fn index_never_outgrows_emissions() {
    // 1000 seconds at 3 tokens per second over a supply of 7 tokens
    let mut emissions = Some(Emissions {
        config: EmissionConfig { expiration: T_NOW + 5000, eps: 3 },
        data: EmissionData { index: 10, last_time: T_NOW - 1000 },
    });
    let mut user = Some(UserEmissionData { index: 10, accrued: 0 });
    update_emissions(T_NOW, &mut emissions, 7, &mut user, 7);
    let data = emissions.unwrap().data;
    // floor(3000 * 10^7 / 7)
    assert_eq!(data.index, 10 + 4285714285);
    assert!((data.index - 10) * 7 <= 3000 * SCALAR_7);
    // the holder of the whole supply accrues at most what was emitted
    assert_eq!(user.unwrap().accrued, 2999);
}
