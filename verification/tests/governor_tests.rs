use soroban_governor::constants::ONE_DAY_LEDGERS;
use soroban_governor::errors::GovernorError;
use soroban_governor::governor::GovernorContract;
use soroban_governor::types::{
    GovernorSettings, ProposalAction, ProposalData, ProposalStatus, VoteCount,
};
use soroban_sdk::testutils::Address as _;
use soroban_sdk::{Address, Env};

/// The decimals of the votes token in the scenarios.
const UNIT: i128 = 10_000_000;

fn default_settings(e: &Env) -> GovernorSettings {
    GovernorSettings {
        council: Address::generate(e),
        proposal_threshold: 1_0000000,
        vote_delay: ONE_DAY_LEDGERS,
        vote_period: ONE_DAY_LEDGERS * 7,
        timelock: ONE_DAY_LEDGERS,
        grace_period: ONE_DAY_LEDGERS * 7,
        quorum: 100,      // 1%
        counting_type: 2, // for votes only
        vote_threshold: 5100,
    }
}

/// A proposal action that calls another contract (the payload is not looked at).
fn call() -> ProposalAction<u32, u32> {
    ProposalAction::Calldata(7)
}

fn propose(
    creator: &Address,
    settings: &GovernorSettings,
    action: &ProposalAction<u32, u32>,
    now: u32,
) -> ProposalData {
    let (data, next_id) = GovernorContract::propose(
        creator.clone(),
        false,
        100 * UNIT,
        settings,
        action,
        false,
        0,
        now,
    )
    .unwrap();
    assert_eq!(next_id, 1);
    data
}

/// Another proposal data with the same fields.
fn copy(d: &ProposalData) -> ProposalData {
    ProposalData {
        creator: d.creator.clone(),
        vote_start: d.vote_start,
        vote_end: d.vote_end,
        eta: d.eta,
        status: d.status,
        executable: d.executable,
    }
}

fn votes(against: i128, _for: i128, abstain: i128) -> VoteCount {
    VoteCount { against, _for, abstain }
}

#[test]
fn test_is_over_quorum() {
    let mut vote_count = VoteCount::new();
    vote_count.add_vote(0, 100).unwrap(); // 100 votes against (0b100)
    vote_count.add_vote(1, 101).unwrap(); // 101 votes for (0b010)
    vote_count.add_vote(2, 1).unwrap(); // 1 vote abstain (0b001)

    // quorum = 100 (10% of 1000)
    assert!(vote_count.is_over_quorum(1000, 0b111, 1000));
    assert!(vote_count.is_over_quorum(1000, 0b110, 1000));
    assert!(vote_count.is_over_quorum(1000, 0b101, 1000));
    assert!(!vote_count.is_over_quorum(1000, 0b100, 1000));
    assert!(vote_count.is_over_quorum(1000, 0b011, 1000));
    assert!(vote_count.is_over_quorum(1000, 0b010, 1000));
    assert!(!vote_count.is_over_quorum(1000, 0b001, 1000));
    assert!(!vote_count.is_over_quorum(1000, 0b000, 1000));
}

#[test]
fn test_is_over_threshold() {
    let mut vote_count = VoteCount::new();
    vote_count.add_vote(0, 100).unwrap(); // 100 votes against
    vote_count.add_vote(1, 100).unwrap(); // 100 votes for
    vote_count.add_vote(2, 1000).unwrap(); // 1000 votes abstain

    // rounds for / against down
    assert!(!vote_count.is_over_threshold(5000));
    assert!(vote_count.is_over_threshold(4999));

    vote_count.add_vote(1, 1).unwrap();
    assert!(vote_count.is_over_threshold(5000));
}

#[test]
fn vote_count_starts_empty_and_counts_by_support() {
    let mut count = VoteCount::new();
    assert_eq!(count, votes(0, 0, 0));
    assert_eq!(count.add_vote(3, 5), Err(GovernorError::InvalidProposalSupportError));
    assert_eq!(count, votes(0, 0, 0));
    count.add_vote(2, 5).unwrap();
    count.add_vote(0, 3).unwrap();
    assert_eq!(count, votes(3, 0, 5));
    assert_eq!(count.count_quorum(0b101), 8);
    assert_eq!(count.count_quorum(0b010), 0);
}

#[test]
fn threshold_needs_for_or_against_votes() {
    // only abstentions: no share of "for" votes, so never over the threshold
    assert!(!votes(0, 0, 500).is_over_threshold(10));
    // quorum rounds the requirement towards zero: 999 * 1% = 9.99 -> 9
    assert!(votes(0, 10, 0).is_over_quorum(100, 0b010, 999));
    assert!(!votes(0, 9, 0).is_over_quorum(100, 0b010, 999));
}

#[test]
fn more_votes_keep_quorum_and_threshold() {
    let small = votes(40, 60, 0);
    let large = votes(40, 90, 10);
    assert!(small.is_over_quorum(1000, 0b111, 900));
    assert!(large.is_over_quorum(1000, 0b111, 900));
    assert!(small.is_over_threshold(5900));
    assert!(large.is_over_threshold(5900));
}

#[test]
fn initialize_checks_flag_and_settings() {
    let e = Env::default();
    let settings = default_settings(&e);
    assert_eq!(GovernorContract::initialize(false, &settings), Ok(()));
    assert_eq!(
        GovernorContract::initialize(true, &settings),
        Err(GovernorError::AlreadyInitializedError)
    );
    let mut bad = default_settings(&e);
    bad.vote_period = ONE_DAY_LEDGERS * 7 + 1;
    assert_eq!(
        GovernorContract::initialize(false, &bad),
        Err(GovernorError::InvalidSettingsError)
    );
}

#[test]
fn propose_sets_vote_window() {
    let e = Env::default();
    let creator = Address::generate(&e);
    let settings = default_settings(&e);
    let now = 100;

    let data = propose(&creator, &settings, &call(), now);
    assert_eq!(data.creator, creator);
    assert_eq!(data.vote_start, now + settings.vote_delay);
    assert_eq!(data.vote_end, now + settings.vote_delay + settings.vote_period);
    assert_eq!(data.eta, 0);
    assert_eq!(data.status, ProposalStatus::Open);
    assert!(data.executable);

    // a snapshot starts at once and cannot be executed
    let snapshot = propose(&creator, &settings, &ProposalAction::Snapshot, now);
    assert_eq!(snapshot.vote_start, now);
    assert_eq!(snapshot.vote_end, now + settings.vote_period);
    assert!(!snapshot.executable);
}

#[test]
fn propose_errors() {
    let e = Env::default();
    let creator = Address::generate(&e);
    let settings = default_settings(&e);
    let action = call();
    assert_eq!(
        GovernorContract::propose(creator.clone(), true, 100 * UNIT, &settings, &action, false, 0, 1)
            .err(),
        Some(GovernorError::ProposalAlreadyOpenError)
    );
    assert_eq!(
        GovernorContract::propose(creator.clone(), false, 999_999, &settings, &action, false, 0, 1)
            .err(),
        Some(GovernorError::InsufficientVotingUnitsError)
    );
    // a call to the governor itself is refused
    assert_eq!(
        GovernorContract::propose(creator.clone(), false, 100 * UNIT, &settings, &action, true, 0, 1)
            .err(),
        Some(GovernorError::InvalidProposalActionError)
    );
    // new settings must be valid
    let mut new_settings = default_settings(&e);
    new_settings.vote_delay = 5 * ONE_DAY_LEDGERS;
    new_settings.vote_period = 5 * ONE_DAY_LEDGERS;
    new_settings.timelock = 7 * ONE_DAY_LEDGERS;
    new_settings.grace_period = 7 * ONE_DAY_LEDGERS + 1;
    let settings_action: ProposalAction<u32, u32> = ProposalAction::Settings(new_settings);
    let err = GovernorContract::propose(
        creator.clone(),
        false,
        100 * UNIT,
        &settings,
        &settings_action,
        false,
        0,
        1,
    )
    .err()
    .unwrap();
    assert_eq!(err, GovernorError::InvalidSettingsError);
    assert_eq!(err.code(), 200);
    assert_eq!(GovernorError::InvalidProposalActionError.code(), 213);
}

#[test]
fn close_successful_sets_timelock() {
    let e = Env::default();
    let samwise = Address::generate(&e);
    let settings = default_settings(&e);
    let data = propose(&samwise, &settings, &call(), 100);

    // 10,000 tokens; 105 for and 100 against
    let total_votes = 10_000 * UNIT;
    let count = votes(100 * UNIT, 105 * UNIT, 0);
    let closed_at = data.vote_end + 1;
    let closed = GovernorContract::close(copy(&data), &settings, &count, total_votes, closed_at).unwrap();
    assert_eq!(closed.status, ProposalStatus::Successful);
    assert_eq!(closed.eta, closed_at + settings.timelock);
    assert_eq!(closed.vote_start, data.vote_start);
    // a closed proposal takes no more votes
    assert_eq!(
        GovernorContract::require_votable(Some(closed), data.vote_end).err(),
        Some(GovernorError::ProposalNotActiveError)
    );
}

#[test]
fn close_defeated_below_quorum() {
    let e = Env::default();
    let samwise = Address::generate(&e);
    let settings = default_settings(&e);
    let data = propose(&samwise, &settings, &call(), 100);

    // quorum is 1% of 10,000: 99 "for" votes are not enough
    let count = votes(10 * UNIT, 99 * UNIT, 0);
    let closed = GovernorContract::close(data, &settings, &count, 10_000 * UNIT, 200_000).unwrap();
    assert_eq!(closed.status, ProposalStatus::Defeated);
    assert_eq!(closed.eta, 0);
}

#[test]
fn close_defeated_below_threshold() {
    let e = Env::default();
    let samwise = Address::generate(&e);
    let settings = default_settings(&e);
    let data = propose(&samwise, &settings, &call(), 100);

    // 50% for is below the 51% threshold
    let count = votes(200 * UNIT, 200 * UNIT, 0);
    let closed = GovernorContract::close(data, &settings, &count, 10_000 * UNIT, 200_000).unwrap();
    assert_eq!(closed.status, ProposalStatus::Defeated);
}

#[test]
fn close_counts_quorum_by_counting_type() {
    let e = Env::default();
    let samwise = Address::generate(&e);
    let mut settings = default_settings(&e);
    settings.counting_type = 0b011; // "for" and abstain count towards quorum
    let data = propose(&samwise, &settings, &call(), 100);

    let count = votes(10 * UNIT, 50 * UNIT, 90 * UNIT);
    let closed = GovernorContract::close(data, &settings, &count, 10_000 * UNIT, 200_000).unwrap();
    assert_eq!(closed.status, ProposalStatus::Successful);
}

#[test]
fn require_closable_waits_for_vote_end() {
    let e = Env::default();
    let samwise = Address::generate(&e);
    let settings = default_settings(&e);
    let data = propose(&samwise, &settings, &call(), 100);
    assert_eq!(
        GovernorContract::require_closable(Some(copy(&data)), data.vote_end).err(),
        Some(GovernorError::VotePeriodNotFinishedError)
    );
    assert_eq!(
        GovernorContract::require_closable(None, data.vote_end).err(),
        Some(GovernorError::NonExistentProposalError)
    );
    assert!(GovernorContract::require_closable(Some(copy(&data)), data.vote_end + 1).is_ok());
}

#[test]
fn execute_follows_timelock_and_grace_period() {
    let e = Env::default();
    let samwise = Address::generate(&e);
    let settings = default_settings(&e);
    let data = propose(&samwise, &settings, &call(), 100);
    let count = votes(0, 105 * UNIT, 0);
    let closed_at = data.vote_end + 1;
    let closed = GovernorContract::close(data, &settings, &count, 10_000 * UNIT, closed_at).unwrap();
    let eta = closed.eta;

    assert_eq!(
        GovernorContract::execute(Some(copy(&closed)), &settings, eta - 1).err(),
        Some(GovernorError::TimelockNotMetError)
    );
    let (executed, carried_out) =
        GovernorContract::execute(Some(copy(&closed)), &settings, eta).unwrap();
    assert!(carried_out);
    assert_eq!(executed.status, ProposalStatus::Executed);
    // executing twice is refused
    assert_eq!(
        GovernorContract::execute(Some(executed), &settings, eta + 1).err(),
        Some(GovernorError::ProposalNotExecutableError)
    );
    // after the grace period the proposal expires instead
    let (expired, carried_out) = GovernorContract::execute(
        Some(closed),
        &settings,
        eta + settings.grace_period + 1,
    )
    .unwrap();
    assert!(!carried_out);
    assert_eq!(expired.status, ProposalStatus::Expired);
    assert_eq!(
        GovernorContract::execute(None, &settings, eta).err(),
        Some(GovernorError::NonExistentProposalError)
    );
}

#[test]
fn snapshot_and_defeated_proposals_never_execute() {
    let e = Env::default();
    let samwise = Address::generate(&e);
    let settings = default_settings(&e);
    let snapshot = propose(&samwise, &settings, &ProposalAction::Snapshot, 100);
    let count = votes(0, 105 * UNIT, 0);
    let closed = GovernorContract::close(snapshot, &settings, &count, 10_000 * UNIT, 300_000).unwrap();
    assert_eq!(closed.status, ProposalStatus::Successful);
    assert_eq!(closed.eta, 0);
    assert_eq!(
        GovernorContract::execute(Some(closed), &settings, 400_000).err(),
        Some(GovernorError::ProposalNotExecutableError)
    );

    let data = propose(&samwise, &settings, &call(), 100);
    let defeated = GovernorContract::close(data, &settings, &votes(0, 0, 0), 10_000 * UNIT, 300_000).unwrap();
    assert_eq!(defeated.status, ProposalStatus::Defeated);
    assert_eq!(
        GovernorContract::execute(Some(defeated), &settings, 400_000).err(),
        Some(GovernorError::ProposalNotExecutableError)
    );
}

#[test]
fn cancel_before_vote_start_only() {
    let e = Env::default();
    let samwise = Address::generate(&e);
    let settings = default_settings(&e);
    let data = propose(&samwise, &settings, &call(), 100);

    // the creator or the council may cancel before the vote starts
    let canceled =
        GovernorContract::cancel(Some(copy(&data)), true, false, data.vote_start - 1).unwrap();
    assert_eq!(canceled.status, ProposalStatus::Canceled);
    assert!(GovernorContract::cancel(Some(copy(&data)), false, true, 100).is_ok());
    assert_eq!(
        GovernorContract::cancel(Some(copy(&data)), false, false, 100).err(),
        Some(GovernorError::UnauthorizedError)
    );
    assert_eq!(
        GovernorContract::cancel(Some(copy(&data)), true, false, data.vote_start).err(),
        Some(GovernorError::ProposalVotePeriodStartedError)
    );
    assert_eq!(
        GovernorContract::cancel(None, true, true, 100).err(),
        Some(GovernorError::NonExistentProposalError)
    );
    // a canceled proposal takes no votes
    assert_eq!(
        GovernorContract::require_votable(Some(canceled), data.vote_start).err(),
        Some(GovernorError::ProposalNotActiveError)
    );
}

#[test]
fn voting_checks_window_and_voter() {
    let e = Env::default();
    let samwise = Address::generate(&e);
    let settings = default_settings(&e);
    let data = propose(&samwise, &settings, &call(), 100);

    assert!(GovernorContract::require_votable(Some(copy(&data)), data.vote_start).is_ok());
    assert!(GovernorContract::require_votable(Some(copy(&data)), data.vote_end).is_ok());
    assert_eq!(
        GovernorContract::require_votable(Some(copy(&data)), data.vote_start - 1).err(),
        Some(GovernorError::ProposalNotActiveError)
    );
    assert_eq!(
        GovernorContract::require_votable(Some(copy(&data)), data.vote_end + 1).err(),
        Some(GovernorError::ProposalNotActiveError)
    );
    assert_eq!(
        GovernorContract::require_votable(None, data.vote_start).err(),
        Some(GovernorError::NonExistentProposalError)
    );

    let at = data.vote_start;
    let count = VoteCount::new();
    let count = GovernorContract::vote(Some(copy(&data)), at, &count, 1, 8_000 * UNIT, None).unwrap();
    assert_eq!(count, votes(0, 8_000 * UNIT, 0));
    let count = GovernorContract::vote(Some(copy(&data)), at, &count, 0, 5, None).unwrap();
    let count = GovernorContract::vote(Some(copy(&data)), data.vote_end, &count, 2, 7, None).unwrap();
    assert_eq!(count, votes(5, 8_000 * UNIT, 7));
    assert_eq!(
        GovernorContract::vote(Some(copy(&data)), at, &count, 3, 7, None),
        Err(GovernorError::InvalidProposalSupportError)
    );
    assert_eq!(
        GovernorContract::vote(Some(copy(&data)), at, &count, 1, 0, None),
        Err(GovernorError::InsufficientVotingUnitsError)
    );
    // outside the vote period, on a missing or on a canceled proposal no vote counts
    assert_eq!(
        GovernorContract::vote(Some(copy(&data)), at - 1, &count, 1, 7, None),
        Err(GovernorError::ProposalNotActiveError)
    );
    assert_eq!(
        GovernorContract::vote(Some(copy(&data)), data.vote_end + 1, &count, 1, 7, None),
        Err(GovernorError::ProposalNotActiveError)
    );
    assert_eq!(
        GovernorContract::vote(None, at, &count, 1, 7, None),
        Err(GovernorError::NonExistentProposalError)
    );
    let mut canceled = copy(&data);
    canceled.status = ProposalStatus::Canceled;
    assert_eq!(
        GovernorContract::vote(Some(canceled), at, &count, 1, 7, None),
        Err(GovernorError::ProposalNotActiveError)
    );
}

#[test]
fn get_proposal_needs_config_and_data() {
    let e = Env::default();
    let samwise = Address::generate(&e);
    let settings = default_settings(&e);
    let data = propose(&samwise, &settings, &call(), 100);
    let proposal = GovernorContract::get_proposal(4, Some(9u32), Some(copy(&data))).unwrap();
    assert_eq!(proposal.id, 4);
    assert_eq!(proposal.config, 9);
    assert!(GovernorContract::get_proposal::<u32>(4, None, Some(data)).is_none());
    assert!(GovernorContract::get_proposal(4, Some(9u32), None).is_none());
}

#[test]
fn test_vote_user_changes_support() {
    let e = Env::default();
    let samwise = Address::generate(&e);
    let settings = default_settings(&e);
    let data = propose(&samwise, &settings, &call(), 100);
    let at = data.vote_start + 1;
    // a voter with 1000 votes first votes against, then for
    let count = GovernorContract::vote(Some(copy(&data)), at, &VoteCount::new(), 0, 1000, None).unwrap();
    assert_eq!(count, votes(1000, 0, 0));
    let count = GovernorContract::vote(Some(copy(&data)), at, &count, 1, 1000, Some(0)).unwrap();
    assert_eq!(count, votes(0, 1000, 0));
    // voting the same support again changes nothing
    let count = GovernorContract::vote(Some(data), at, &count, 1, 1000, Some(1)).unwrap();
    assert_eq!(count, votes(0, 1000, 0));
}

#[test]
#[should_panic(expected = "Error(Contract, #202)")]
fn test_vote_delay_not_ended() {
    let e = Env::default();
    let samwise = Address::generate(&e);
    let settings = default_settings(&e);
    let data = propose(&samwise, &settings, &call(), 100);
    let now = 100 + settings.vote_delay - 1;
    if let Err(err) = GovernorContract::require_votable(Some(data), now) {
        panic!("Error(Contract, #{})", err.code());
    }
}

#[test]
fn closing_twice_is_refused() {
    let e = Env::default();
    let samwise = Address::generate(&e);
    let settings = default_settings(&e);
    let data = propose(&samwise, &settings, &call(), 100);
    let count = votes(0, 105 * UNIT, 0);
    let closed_at = data.vote_end + 1;
    let closed = GovernorContract::close(data, &settings, &count, 10_000 * UNIT, closed_at).unwrap();
    let (executed, _) = GovernorContract::execute(Some(copy(&closed)), &settings, closed.eta).unwrap();
    // an executed proposal cannot be closed again, so it never runs twice
    assert_eq!(
        GovernorContract::require_closable(Some(copy(&executed)), closed.eta + 1).err(),
        Some(GovernorError::ProposalNotActiveError)
    );
    assert_eq!(
        GovernorContract::close(executed, &settings, &count, 10_000 * UNIT, closed.eta + 1).err(),
        Some(GovernorError::ProposalNotActiveError)
    );
    assert_eq!(GovernorError::ProposalNotActiveError.code(), 202);
}

#[test]
fn closing_a_canceled_proposal_waits_for_the_vote_end() {
    let e = Env::default();
    let samwise = Address::generate(&e);
    let settings = default_settings(&e);
    let mut data = propose(&samwise, &settings, &call(), 100);
    data.status = ProposalStatus::Canceled;
    let count = votes(0, 105 * UNIT, 0);
    // before the vote end the period is unfinished, whatever the status
    assert_eq!(
        GovernorContract::close(copy(&data), &settings, &count, 10_000 * UNIT, data.vote_end).err(),
        Some(GovernorError::VotePeriodNotFinishedError)
    );
    assert_eq!(
        GovernorContract::require_closable(Some(copy(&data)), data.vote_end).err(),
        Some(GovernorError::VotePeriodNotFinishedError)
    );
    // after it a canceled proposal is not active
    assert_eq!(
        GovernorContract::close(copy(&data), &settings, &count, 10_000 * UNIT, data.vote_end + 1).err(),
        Some(GovernorError::ProposalNotActiveError)
    );
    assert_eq!(
        GovernorContract::require_closable(Some(copy(&data)), data.vote_end + 1).err(),
        Some(GovernorError::ProposalNotActiveError)
    );
}

#[test]
fn threshold_with_no_for_or_against_votes_is_not_met() {
    // the for share is not computed when for and against cancel out
    assert!(!votes(-i128::MAX, i128::MAX, 7).is_over_threshold(10));
    assert!(!votes(0, 0, 0).is_over_threshold(0));
}

#[test]
fn initialize_twice_fails_before_looking_at_settings() {
    let e = Env::default();
    let mut settings = default_settings(&e);
    settings.vote_delay = u32::MAX;
    settings.timelock = u32::MAX;
    assert_eq!(
        GovernorContract::initialize(true, &settings),
        Err(GovernorError::AlreadyInitializedError)
    );
}
