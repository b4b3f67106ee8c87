//! The governor's rules for proposals: creating, voting, closing, executing and
//! canceling them, on values its storage, the votes token and the ledger hold.
use vstd::prelude::*;

use crate::errors::GovernorError;
use crate::settings::{periods_in_bounds, require_valid_settings, valid_settings};
use crate::types::{
    GovernorSettings, Proposal, ProposalAction, ProposalData, ProposalStatus, VoteCount,
};
use crate::vote_count::{over_quorum, over_threshold, quorum_votes_fit};

verus! {

/// Validating the settings stays within `u32`.
pub open spec fn settings_check_fits(s: GovernorSettings) -> bool {
    periods_in_bounds(s) ==> s.vote_delay + s.vote_period + s.timelock + s.grace_period * 2
        <= u32::MAX
}

/// The ledger at which voting on a new proposal starts: at once for a snapshot,
/// after the vote delay for anything else.
pub open spec fn vote_start_for<C, W>(action: ProposalAction<C, W>, settings: GovernorSettings, now: u32) -> int {
    match action {
        ProposalAction::Snapshot => now as int,
        _ => now + settings.vote_delay,
    }
}

/// The data of a proposal created by `creator` at ledger `now`: open, with no
/// `eta`, voting from `vote_start_for` for the vote period, executable unless it is
/// a snapshot.
pub open spec fn proposed_data<C, W>(
    creator: soroban_sdk::Address,
    action: ProposalAction<C, W>,
    settings: GovernorSettings,
    now: u32,
) -> ProposalData {
    ProposalData {
        creator,
        vote_start: vote_start_for(action, settings, now) as u32,
        vote_end: (vote_start_for(action, settings, now) + settings.vote_period) as u32,
        eta: 0,
        status: ProposalStatus::Open,
        executable: !(action is Snapshot),
    }
}

/// What checking an action before it is proposed gives: a call targeting the
/// governor itself fails with `InvalidProposalActionError`, invalid settings with
/// `InvalidSettingsError`.
pub open spec fn action_check<C, W>(action: ProposalAction<C, W>, targets_self: bool) -> Result<
    (),
    GovernorError,
> {
    match action {
        ProposalAction::Calldata(_) => if targets_self {
            Err(GovernorError::InvalidProposalActionError)
        } else {
            Ok(())
        },
        ProposalAction::Settings(s) => if valid_settings(s) {
            Ok(())
        } else {
            Err(GovernorError::InvalidSettingsError)
        },
        _ => Ok(()),
    }
}

/// The data of a proposal once its voting is closed at ledger `now`: successful
/// when the votes reach quorum and pass the vote threshold, defeated otherwise; a
/// successful executable proposal gets its timelock end as `eta`.
pub open spec fn closed_data(
    data: ProposalData,
    settings: GovernorSettings,
    vote_count: VoteCount,
    total_vote_supply: int,
    now: u32,
) -> ProposalData {
    let passed = over_quorum(vote_count, settings.quorum, settings.counting_type, total_vote_supply)
        && over_threshold(vote_count, settings.vote_threshold);
    ProposalData {
        status: if passed {
            ProposalStatus::Successful
        } else {
            ProposalStatus::Defeated
        },
        eta: if passed && data.executable {
            (now + settings.timelock) as u32
        } else {
            data.eta
        },
        ..data
    }
}

/// What executing a proposal at ledger `now` gives: its new data and whether its
/// action is carried out.
pub open spec fn execute_outcome(data: Option<ProposalData>, settings: GovernorSettings, now: u32) -> Result<
    (ProposalData, bool),
    GovernorError,
> {
    match data {
        None => Err(GovernorError::NonExistentProposalError),
        Some(d) => if d.status != ProposalStatus::Successful || !d.executable || d.eta == 0 {
            Err(GovernorError::ProposalNotExecutableError)
        } else if now < d.eta {
            Err(GovernorError::TimelockNotMetError)
        } else if now > d.eta + settings.grace_period {
            Ok((ProposalData { status: ProposalStatus::Expired, ..d }, false))
        } else {
            Ok((ProposalData { status: ProposalStatus::Executed, ..d }, true))
        },
    }
}

/// What canceling a proposal at ledger `now` gives, on behalf of its creator or of
/// the council.
pub open spec fn cancel_outcome(
    data: Option<ProposalData>,
    from_is_creator: bool,
    from_is_council: bool,
    now: u32,
) -> Result<ProposalData, GovernorError> {
    match data {
        None => Err(GovernorError::NonExistentProposalError),
        Some(d) => if !from_is_creator && !from_is_council {
            Err(GovernorError::UnauthorizedError)
        } else if d.vote_start <= now {
            Err(GovernorError::ProposalVotePeriodStartedError)
        } else {
            Ok(ProposalData { status: ProposalStatus::Canceled, ..d })
        },
    }
}

/// What checking a vote on a proposal at ledger `now` gives: the proposal must
/// exist, be open, and be within its vote period.
pub open spec fn vote_check(data: Option<ProposalData>, now: u32) -> Result<ProposalData, GovernorError> {
    match data {
        None => Err(GovernorError::NonExistentProposalError),
        Some(d) => if d.status != ProposalStatus::Open || d.vote_start > now || d.vote_end < now {
            Err(GovernorError::ProposalNotActiveError)
        } else {
            Ok(d)
        },
    }
}

/// What checking that a proposal can be closed at ledger `now` gives: its vote
/// period must have ended, and it must still be open.
pub open spec fn close_check(data: ProposalData, now: u32) -> Result<(), GovernorError> {
    if now <= data.vote_end {
        Err(GovernorError::VotePeriodNotFinishedError)
    } else if data.status != ProposalStatus::Open {
        Err(GovernorError::ProposalNotActiveError)
    } else {
        Ok(())
    }
}

/// The votes a support moves: `amount` for the type it names (0 against, 1 for,
/// 2 abstain), none for any other.
pub open spec fn support_share(support: u32, target: u32, amount: int) -> int {
    if support == target {
        amount
    } else {
        0
    }
}

/// What a previous support gives back when it is replaced.
pub open spec fn previous_share(previous: Option<u32>, target: u32, amount: int) -> int {
    match previous {
        Some(p) => support_share(p, target, amount),
        None => 0,
    }
}

/// The count after a voter with `power` votes moves from its `previous` support (if
/// any) to `support`.
pub open spec fn recast(c: VoteCount, previous: Option<u32>, support: u32, power: int) -> VoteCount {
    VoteCount {
        against: (c.against - previous_share(previous, 0, power) + support_share(support, 0, power)) as i128,
        _for: (c._for - previous_share(previous, 1, power) + support_share(support, 1, power)) as i128,
        abstain: (c.abstain - previous_share(previous, 2, power) + support_share(support, 2, power)) as i128,
    }
}

/// Moving a vote stays within `i128`, also after taking back the previous support.
pub open spec fn recast_fits(c: VoteCount, previous: Option<u32>, support: u32, power: int) -> bool {
    &&& i128::MIN <= c.against - previous_share(previous, 0, power)
    &&& i128::MIN <= c._for - previous_share(previous, 1, power)
    &&& i128::MIN <= c.abstain - previous_share(previous, 2, power)
    &&& c.against - previous_share(previous, 0, power) + support_share(support, 0, power) <= i128::MAX
    &&& c._for - previous_share(previous, 1, power) + support_share(support, 1, power) <= i128::MAX
    &&& c.abstain - previous_share(previous, 2, power) + support_share(support, 2, power) <= i128::MAX
}

/// The logic of the governor contract.
pub struct GovernorContract;

impl GovernorContract {
    /// Fails with `AlreadyInitializedError` when the governor is already
    /// initialized, and with `InvalidSettingsError` when the settings are invalid.
    pub fn initialize(is_init: bool, settings: &GovernorSettings) -> (r: Result<(), GovernorError>)
        requires
            !is_init ==> settings_check_fits(*settings),
        ensures
            is_init ==> r == Err::<(), GovernorError>(GovernorError::AlreadyInitializedError),
            !is_init && !valid_settings(*settings) ==> r == Err::<(), GovernorError>(
                GovernorError::InvalidSettingsError,
            ),
            !is_init && valid_settings(*settings) ==> r is Ok,
    {
        if is_init {
            return Err(GovernorError::AlreadyInitializedError);
        }
        require_valid_settings(settings)
    }

    /// Checks an action before it is proposed: a call targeting the governor itself
    /// (`targets_self`) fails with `InvalidProposalActionError`, invalid settings with
    /// `InvalidSettingsError`.
    pub fn validate_action<C, W>(action: &ProposalAction<C, W>, targets_self: bool) -> (r: Result<
        (),
        GovernorError,
    >)
        requires
            match *action {
                ProposalAction::Settings(s) => settings_check_fits(s),
                _ => true,
            },
        ensures
            r == action_check(*action, targets_self),
            *action is Upgrade || *action is Snapshot ==> r is Ok,
    {
        match action {
            ProposalAction::Calldata(_) => {
                if targets_self {
                    return Err(GovernorError::InvalidProposalActionError);
                }
                Ok(())
            },
            ProposalAction::Settings(settings) => require_valid_settings(settings),
            _ => Ok(()),
        }
    }

    /// Creates proposal `proposal_id` of `creator` at ledger `now`. Returns its data
    /// and the next proposal id.
    ///
    /// Fails with `ProposalAlreadyOpenError` when the creator has an open proposal,
    /// with `InsufficientVotingUnitsError` when the creator's votes are below the
    /// proposal threshold, and as `validate_action` does for an invalid action.
    pub fn propose<C, W>(
        creator: soroban_sdk::Address,
        has_open_proposal: bool,
        creator_votes: i128,
        settings: &GovernorSettings,
        action: &ProposalAction<C, W>,
        targets_self: bool,
        proposal_id: u32,
        now: u32,
    ) -> (r: Result<(ProposalData, u32), GovernorError>)
        requires
            !has_open_proposal && creator_votes >= settings.proposal_threshold ==> match *action {
                ProposalAction::Settings(s) => settings_check_fits(s),
                _ => true,
            },
            !has_open_proposal && creator_votes >= settings.proposal_threshold && action_check(
                *action,
                targets_self,
            ) is Ok ==> vote_start_for(*action, *settings, now) + settings.vote_period <= u32::MAX
                && proposal_id < u32::MAX,
        ensures
            has_open_proposal ==> r == Err::<(ProposalData, u32), GovernorError>(
                GovernorError::ProposalAlreadyOpenError,
            ),
            !has_open_proposal && creator_votes < settings.proposal_threshold ==> r == Err::<
                (ProposalData, u32),
                GovernorError,
            >(GovernorError::InsufficientVotingUnitsError),
            !has_open_proposal && creator_votes >= settings.proposal_threshold ==> (
            action_check(*action, targets_self) matches Err(e) ==> r == Err::<
                (ProposalData, u32),
                GovernorError,
            >(e)),
            !has_open_proposal && creator_votes >= settings.proposal_threshold && action_check(
                *action,
                targets_self,
            ) is Ok ==> r == Ok::<(ProposalData, u32), GovernorError>(
                (proposed_data(creator, *action, *settings, now), (proposal_id + 1) as u32),
            ),
            // an upgrade or a snapshot is proposed whenever the creator may propose
            !has_open_proposal && creator_votes >= settings.proposal_threshold && (action is Upgrade
                || action is Snapshot) ==> r is Ok,
            // all but a snapshot wait the vote delay
            r matches Ok((d, _)) ==> d.vote_start == (if *action is Snapshot {
                now as int
            } else {
                now + settings.vote_delay
            }) && d.vote_end == d.vote_start + settings.vote_period,
    {
        if has_open_proposal {
            return Err(GovernorError::ProposalAlreadyOpenError);
        }
        if creator_votes < settings.proposal_threshold {
            return Err(GovernorError::InsufficientVotingUnitsError);
        }
        let valid = Self::validate_action(action, targets_self);
        if valid.is_err() {
            return match valid {
                Err(e) => Err(e),
                Ok(()) => Err(GovernorError::InternalError),
            };
        }
        let vote_start = match action {
            // no vote delay for snapshot proposals as they cannot be executed
            ProposalAction::Snapshot => now,
            // all other proposals have a vote delay
            _ => now + settings.vote_delay,
        };
        let vote_end = vote_start + settings.vote_period;
        let data = ProposalData {
            creator,
            vote_start,
            vote_end,
            eta: 0,
            status: ProposalStatus::Open,
            executable: action.is_executable(),
        };
        Ok((data, proposal_id + 1))
    }

    /// The proposal `proposal_id`, or `None` unless both its configuration and its
    /// data exist.
    pub fn get_proposal<C>(proposal_id: u32, config: Option<C>, data: Option<ProposalData>) -> (r:
        Option<Proposal<C>>)
        ensures
            config is None || data is None ==> r is None,
            config is Some && data is Some ==> r == Some(
                Proposal { id: proposal_id, config: config.unwrap(), data: data.unwrap() },
            ),
    {
        match (config, data) {
            (Some(config), Some(data)) => Some(Proposal { id: proposal_id, config, data }),
            _ => None,
        }
    }

    /// Checks that a proposal can be closed at ledger `now`: it exists, its vote
    /// period has ended, and it is still open. Fails with
    /// `NonExistentProposalError`, `VotePeriodNotFinishedError` or
    /// `ProposalNotActiveError`, in that order.
    pub fn require_closable(data: Option<ProposalData>, now: u32) -> (r: Result<ProposalData, GovernorError>)
        ensures
            match data {
                None => r == Err::<ProposalData, GovernorError>(GovernorError::NonExistentProposalError),
                Some(d) => match close_check(d, now) {
                    Err(e) => r == Err::<ProposalData, GovernorError>(e),
                    Ok(_) => r == Ok::<ProposalData, GovernorError>(d),
                },
            },
    {
        match data {
            None => Err(GovernorError::NonExistentProposalError),
            Some(d) => {
                if now <= d.vote_end {
                    return Err(GovernorError::VotePeriodNotFinishedError);
                }
                if d.status != ProposalStatus::Open {
                    return Err(GovernorError::ProposalNotActiveError);
                }
                Ok(d)
            },
        }
    }

    /// Closes the voting of a proposal at ledger `now`, given its votes and the total
    /// voting supply at its vote start. The proposal succeeds when the votes reach
    /// quorum and pass the vote threshold, and is defeated otherwise; a successful
    /// executable proposal can be executed once the timelock has passed.
    ///
    /// Fails as `require_closable` does, and then changes nothing, unless the
    /// proposal is open and its vote period has ended.
    pub fn close(
        data: ProposalData,
        settings: &GovernorSettings,
        vote_count: &VoteCount,
        total_vote_supply: i128,
        now: u32,
    ) -> (r: Result<ProposalData, GovernorError>)
        requires
            close_check(data, now) is Ok ==> {
                &&& quorum_votes_fit(*vote_count, settings.counting_type)
                &&& i128::MIN <= total_vote_supply * settings.quorum <= i128::MAX
                &&& i128::MIN <= vote_count.against + vote_count._for <= i128::MAX
                &&& vote_count.against + vote_count._for != 0 ==> i128::MIN <= vote_count._for
                    * 10_000 <= i128::MAX
                &&& now + settings.timelock <= u32::MAX
            },
        ensures
            match close_check(data, now) {
                Err(e) => r == Err::<ProposalData, GovernorError>(e),
                Ok(_) => r == Ok::<ProposalData, GovernorError>(
                    closed_data(data, *settings, *vote_count, total_vote_supply as int, now),
                ),
            },
    {
        let mut data = data;
        if now <= data.vote_end {
            return Err(GovernorError::VotePeriodNotFinishedError);
        }
        if data.status != ProposalStatus::Open {
            return Err(GovernorError::ProposalNotActiveError);
        }
        let passed_quorum = vote_count.is_over_quorum(
            settings.quorum,
            settings.counting_type,
            total_vote_supply,
        );
        let passed_vote_threshold = vote_count.is_over_threshold(settings.vote_threshold);
        if passed_vote_threshold && passed_quorum {
            data.status = ProposalStatus::Successful;
            if data.executable {
                data.eta = now + settings.timelock;
            }
        } else {
            data.status = ProposalStatus::Defeated;
        }
        Ok(data)
    }

    /// Executes a proposal at ledger `now`. Returns its new data and whether its
    /// action must be carried out: a proposal executed after its grace period
    /// expires instead.
    ///
    /// Fails with `NonExistentProposalError` when it does not exist, with
    /// `ProposalNotExecutableError` unless it succeeded, is executable and has a
    /// timelock set, and with `TimelockNotMetError` before the timelock has passed.
    pub fn execute(data: Option<ProposalData>, settings: &GovernorSettings, now: u32) -> (r: Result<
        (ProposalData, bool),
        GovernorError,
    >)
        requires
            match data {
                Some(d) => d.eta + settings.grace_period <= u32::MAX,
                None => true,
            },
        ensures
            r == execute_outcome(data, *settings, now),
    {
        let mut data = match data {
            None => {
                return Err(GovernorError::NonExistentProposalError);
            },
            Some(d) => d,
        };
        if data.status != ProposalStatus::Successful || !data.executable || data.eta == 0 {
            return Err(GovernorError::ProposalNotExecutableError);
        }
        if now < data.eta {
            return Err(GovernorError::TimelockNotMetError);
        }
        if now > data.eta + settings.grace_period {
            data.status = ProposalStatus::Expired;
            Ok((data, false))
        } else {
            data.status = ProposalStatus::Executed;
            Ok((data, true))
        }
    }

    /// Cancels a proposal at ledger `now` on behalf of an account that is its
    /// creator (`from_is_creator`) or the council (`from_is_council`).
    ///
    /// Fails with `NonExistentProposalError` when it does not exist, with
    /// `UnauthorizedError` when the account is neither, and with
    /// `ProposalVotePeriodStartedError` once its voting has started.
    pub fn cancel(data: Option<ProposalData>, from_is_creator: bool, from_is_council: bool, now: u32) -> (r:
        Result<ProposalData, GovernorError>)
        ensures
            r == cancel_outcome(data, from_is_creator, from_is_council, now),
    {
        let mut data = match data {
            None => {
                return Err(GovernorError::NonExistentProposalError);
            },
            Some(d) => d,
        };
        // only the creator or the council can cancel
        if !from_is_creator {
            if !from_is_council {
                return Err(GovernorError::UnauthorizedError);
            }
        }
        if data.vote_start <= now {
            return Err(GovernorError::ProposalVotePeriodStartedError);
        }
        data.status = ProposalStatus::Canceled;
        Ok(data)
    }

    /// Checks that a proposal takes votes at ledger `now`: it exists, is open, and
    /// its vote period covers `now`. Fails with `NonExistentProposalError` or
    /// `ProposalNotActiveError`.
    pub fn require_votable(data: Option<ProposalData>, now: u32) -> (r: Result<ProposalData, GovernorError>)
        ensures
            r == vote_check(data, now),
    {
        let data = match data {
            None => {
                return Err(GovernorError::NonExistentProposalError);
            },
            Some(d) => d,
        };
        if data.status != ProposalStatus::Open || data.vote_start > now || data.vote_end < now {
            return Err(GovernorError::ProposalNotActiveError);
        }
        Ok(data)
    }

    /// Casts a vote at ledger `now` of `voter_power` votes with `support` (0
    /// against, 1 for, 2 abstain) on the proposal with `data`. A voter who voted
    /// before with support `previous` changes its vote: its power leaves the
    /// previous option and joins the new one.
    ///
    /// Fails as `require_votable` does unless the proposal is open and `now` lies in
    /// its vote period, with `InsufficientVotingUnitsError` when the voter has no voting power
    /// at the vote start, and with `InvalidProposalSupportError` for an unknown
    /// support.
    pub fn vote(
        data: Option<ProposalData>,
        now: u32,
        vote_count: &VoteCount,
        support: u32,
        voter_power: i128,
        previous: Option<u32>,
    ) -> (r: Result<VoteCount, GovernorError>)
        requires
            vote_check(data, now) is Ok && voter_power > 0 && support <= 2 ==> recast_fits(
                *vote_count,
                previous,
                support,
                voter_power as int,
            ),
        ensures
            r == match vote_check(data, now) {
                Err(e) => Err(e),
                Ok(_) => if voter_power <= 0 {
                    Err(GovernorError::InsufficientVotingUnitsError)
                } else if support > 2 {
                    Err(GovernorError::InvalidProposalSupportError)
                } else {
                    Ok::<VoteCount, GovernorError>(recast(*vote_count, previous, support, voter_power as int))
                },
            },
    {
        match Self::require_votable(data, now) {
            Err(e) => {
                return Err(e);
            },
            Ok(_) => {},
        }
        if voter_power <= 0 {
            return Err(GovernorError::InsufficientVotingUnitsError);
        }
        if support > 2 {
            return Err(GovernorError::InvalidProposalSupportError);
        }
        let mut count = *vote_count;
        match previous {
            Some(p) => {
                if p <= 2 {
                    // take back the previous support
                    let _ = count.add_vote(p, -voter_power);
                }
            },
            None => {},
        }
        let _ = count.add_vote(support, voter_power);
        Ok(count)
    }
}

/// A snapshot proposal is never executed: however its voting closes, executing it
/// fails with `ProposalNotExecutableError` at every ledger.
pub proof fn lemma_snapshot_never_executes<C, W>(
    creator: soroban_sdk::Address,
    settings: GovernorSettings,
    proposed_at: u32,
    vote_count: VoteCount,
    total_vote_supply: int,
    closed_at: u32,
    executed_at: u32,
)
    ensures
        execute_outcome(
            Some(
                closed_data(
                    proposed_data(creator, ProposalAction::<C, W>::Snapshot, settings, proposed_at),
                    settings,
                    vote_count,
                    total_vote_supply,
                    closed_at,
                ),
            ),
            settings,
            executed_at,
        ) == Err::<(ProposalData, bool), GovernorError>(GovernorError::ProposalNotExecutableError),
{
}

/// A proposal is executed only once it succeeded and its timelock has passed, and
/// at most once: its action is carried out only within the grace period, and the
/// data it leaves behind can never be executed, closed or voted on again.
pub proof fn lemma_execute_once(
    data: ProposalData,
    settings: GovernorSettings,
    now: u32,
    later_settings: GovernorSettings,
    later: u32,
)
    requires
        execute_outcome(Some(data), settings, now) is Ok,
    ensures
        ({
            let (after, carried_out) = execute_outcome(Some(data), settings, now)->Ok_0;
            &&& data.status == ProposalStatus::Successful
            &&& data.executable
            &&& data.eta <= now
            &&& carried_out <==> now <= data.eta + settings.grace_period
            &&& after.status == if carried_out {
                ProposalStatus::Executed
            } else {
                ProposalStatus::Expired
            }
            &&& execute_outcome(Some(after), later_settings, later) == Err::<
                (ProposalData, bool),
                GovernorError,
            >(GovernorError::ProposalNotExecutableError)
            // nor can it be closed again, nor voted on
            &&& close_check(after, later) is Err
            &&& vote_check(Some(after), later) == Err::<ProposalData, GovernorError>(
                GovernorError::ProposalNotActiveError,
            )
        }),
{
}

/// A proposal closed at ledger `closed_at` cannot be executed before its timelock
/// has passed, that is before `closed_at + timelock`.
pub proof fn lemma_timelock_holds<C, W>(
    creator: soroban_sdk::Address,
    action: ProposalAction<C, W>,
    settings: GovernorSettings,
    proposed_at: u32,
    vote_count: VoteCount,
    total_vote_supply: int,
    closed_at: u32,
    executed_at: u32,
)
    requires
        closed_at + settings.timelock <= u32::MAX,
        executed_at < closed_at + settings.timelock,
    ensures
        execute_outcome(
            Some(
                closed_data(
                    proposed_data(creator, action, settings, proposed_at),
                    settings,
                    vote_count,
                    total_vote_supply,
                    closed_at,
                ),
            ),
            settings,
            executed_at,
        ) is Err,
{
}

/// Once voting on a proposal is closed, or the proposal is canceled, no vote on it
/// is accepted (voting fails with `ProposalNotActiveError`) and it cannot be
/// closed again. A canceled proposal is never executed either.
pub proof fn lemma_closed_refuses_votes(
    data: ProposalData,
    settings: GovernorSettings,
    vote_count: VoteCount,
    total_vote_supply: int,
    closed_at: u32,
    from_is_creator: bool,
    from_is_council: bool,
    canceled_at: u32,
    now: u32,
)
    ensures
        vote_check(Some(closed_data(data, settings, vote_count, total_vote_supply, closed_at)), now)
            == Err::<ProposalData, GovernorError>(GovernorError::ProposalNotActiveError),
        close_check(closed_data(data, settings, vote_count, total_vote_supply, closed_at), now) is Err,
        cancel_outcome(Some(data), from_is_creator, from_is_council, canceled_at) matches Ok(c)
            ==> vote_check(Some(c), now) == Err::<ProposalData, GovernorError>(
            GovernorError::ProposalNotActiveError,
        ) && close_check(c, now) is Err && execute_outcome(Some(c), settings, now) == Err::<(ProposalData, bool), GovernorError>(
            GovernorError::ProposalNotExecutableError,
        ),
{
}

/// Changing a vote never counts a voter twice: the voter's power leaves its
/// previous option and joins the new one, so the total of the votes is unchanged.
/// A first vote adds the voter's power once.
pub proof fn lemma_vote_counted_once(c: VoteCount, previous: Option<u32>, support: u32, power: int)
    requires
        support <= 2,
        power > 0,
        recast_fits(c, previous, support, power),
    ensures
        ({
            let r = recast(c, previous, support, power);
            match previous {
                Some(p) => p <= 2 ==> r.against + r._for + r.abstain == c.against + c._for
                    + c.abstain,
                None => r.against + r._for + r.abstain == c.against + c._for + c.abstain + power,
            }
        }),
{
}

/// A proposal can be canceled only before its voting starts: from its vote start
/// on, canceling fails whoever asks.
pub proof fn lemma_no_cancel_once_voting(
    data: ProposalData,
    from_is_creator: bool,
    from_is_council: bool,
    now: u32,
)
    requires
        data.vote_start <= now,
    ensures
        cancel_outcome(Some(data), from_is_creator, from_is_council, now) is Err,
{
}

/// Changing a vote moves the voter's power, option by option: the option the voter
/// chose before (0 against, 1 for, 2 abstain) loses `power`, the option it chooses
/// now gains `power`, and every other option keeps its votes. A first vote only
/// adds `power` to the option chosen; voting the same option again changes nothing.
pub proof fn lemma_vote_moves_power(c: VoteCount, previous: Option<u32>, support: u32, power: int)
    requires
        support <= 2,
        power > 0,
        recast_fits(c, previous, support, power),
    ensures
        ({
            let r = recast(c, previous, support, power);
            &&& r.against == c.against - (if previous == Some(0u32) {
                power
            } else {
                0
            }) + (if support == 0 {
                power
            } else {
                0
            })
            &&& r._for == c._for - (if previous == Some(1u32) {
                power
            } else {
                0
            }) + (if support == 1 {
                power
            } else {
                0
            })
            &&& r.abstain == c.abstain - (if previous == Some(2u32) {
                power
            } else {
                0
            }) + (if support == 2 {
                power
            } else {
                0
            })
            &&& previous == Some(support) ==> r == c
        }),
{
    let r = recast(c, previous, support, power);
    match previous {
        Some(p) => {
            assert(previous_share(previous, 0, power) == if p == 0 { power } else { 0 });
            assert(previous_share(previous, 1, power) == if p == 1 { power } else { 0 });
            assert(previous_share(previous, 2, power) == if p == 2 { power } else { 0 });
            if p == support {
                assert(r.against == c.against && r._for == c._for && r.abstain == c.abstain);
            }
        },
        None => {},
    }
}

/// The vote window of a new proposal: every proposal but a snapshot waits the vote
/// delay, so voting starts at `now + vote_delay`; a snapshot votes from `now`.
/// Voting lasts the vote period, and the proposal is open, has no `eta`, and is
/// executable unless it is a snapshot. Until its vote start, its creator or the
/// council can cancel it.
pub proof fn lemma_proposal_vote_window<C, W>(
    creator: soroban_sdk::Address,
    action: ProposalAction<C, W>,
    settings: GovernorSettings,
    now: u32,
)
    requires
        now + settings.vote_delay + settings.vote_period <= u32::MAX,
    ensures
        ({
            let d = proposed_data(creator, action, settings, now);
            &&& action is Snapshot ==> d.vote_start == now && d.vote_end == now
                + settings.vote_period
            &&& !(action is Snapshot) ==> d.vote_start == now + settings.vote_delay && d.vote_end
                == now + settings.vote_delay + settings.vote_period
            &&& d.executable <==> !(action is Snapshot)
            &&& d.status == ProposalStatus::Open
            &&& d.eta == 0
            &&& d.creator == creator
            &&& forall|at: u32, from_is_creator: bool, from_is_council: bool|
                (from_is_creator || from_is_council) && at < d.vote_start ==> cancel_outcome(
                    Some(d),
                    from_is_creator,
                    from_is_council,
                    at,
                ) is Ok
        }),
{
}

/// Only two actions are refused before they are proposed: a call that targets the
/// governor itself, with `InvalidProposalActionError`, and settings that are not
/// valid, with `InvalidSettingsError`. Every other action, an upgrade or a
/// snapshot among them, is accepted.
pub proof fn lemma_action_refusals<C, W>(action: ProposalAction<C, W>, targets_self: bool)
    ensures
        (action is Calldata && targets_self) ==> action_check(action, targets_self) == Err::<
            (),
            GovernorError,
        >(GovernorError::InvalidProposalActionError),
        (action matches ProposalAction::Settings(s) && !valid_settings(s)) ==> action_check(
            action,
            targets_self,
        ) == Err::<(), GovernorError>(GovernorError::InvalidSettingsError),
        !(action is Calldata && targets_self) && !(action matches ProposalAction::Settings(s)
            && !valid_settings(s)) ==> action_check(action, targets_self) == Ok::<(), GovernorError>(()),
        action is Upgrade || action is Snapshot ==> action_check(action, targets_self) == Ok::<(), GovernorError>(()),
{
}

} // verus!
