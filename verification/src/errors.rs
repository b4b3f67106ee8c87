//! The error codes of the governor and of the votes token.
use vstd::prelude::*;

verus! {

/// The errors the governor can fail with.
#[derive(Debug, Clone, Copy, PartialEq, Eq, Structural)]
pub enum GovernorError {
    InternalError,
    AlreadyInitializedError,
    UnauthorizedError,
    NegativeAmountError,
    AllowanceError,
    BalanceError,
    OverflowError,
    InvalidSettingsError,
    NonExistentProposalError,
    ProposalNotActiveError,
    InvalidProposalSupportError,
    VotePeriodNotFinishedError,
    ProposalNotExecutableError,
    TimelockNotMetError,
    ProposalVotePeriodStartedError,
    InsufficientVotingUnitsError,
    InvalidProposalType,
    ProposalAlreadyOpenError,
    InvalidProposalActionError,
}

impl GovernorError {
    /// The contract error code under which the error is reported.
    pub fn code(&self) -> (r: u32)
        ensures
            r == governor_error_code(*self),
    {
        match self {
            GovernorError::InternalError => 1,
            GovernorError::AlreadyInitializedError => 3,
            GovernorError::UnauthorizedError => 4,
            GovernorError::NegativeAmountError => 8,
            GovernorError::AllowanceError => 9,
            GovernorError::BalanceError => 10,
            GovernorError::OverflowError => 12,
            GovernorError::InvalidSettingsError => 200,
            GovernorError::NonExistentProposalError => 201,
            GovernorError::ProposalNotActiveError => 202,
            GovernorError::InvalidProposalSupportError => 203,
            GovernorError::VotePeriodNotFinishedError => 204,
            GovernorError::ProposalNotExecutableError => 205,
            GovernorError::TimelockNotMetError => 206,
            GovernorError::ProposalVotePeriodStartedError => 207,
            GovernorError::InsufficientVotingUnitsError => 208,
            GovernorError::InvalidProposalType => 210,
            GovernorError::ProposalAlreadyOpenError => 211,
            GovernorError::InvalidProposalActionError => 213,
        }
    }
}

/// The contract error code of each governor error.
pub open spec fn governor_error_code(e: GovernorError) -> u32 {
    match e {
        GovernorError::InternalError => 1,
        GovernorError::AlreadyInitializedError => 3,
        GovernorError::UnauthorizedError => 4,
        GovernorError::NegativeAmountError => 8,
        GovernorError::AllowanceError => 9,
        GovernorError::BalanceError => 10,
        GovernorError::OverflowError => 12,
        GovernorError::InvalidSettingsError => 200,
        GovernorError::NonExistentProposalError => 201,
        GovernorError::ProposalNotActiveError => 202,
        GovernorError::InvalidProposalSupportError => 203,
        GovernorError::VotePeriodNotFinishedError => 204,
        GovernorError::ProposalNotExecutableError => 205,
        GovernorError::TimelockNotMetError => 206,
        GovernorError::ProposalVotePeriodStartedError => 207,
        GovernorError::InsufficientVotingUnitsError => 208,
        GovernorError::InvalidProposalType => 210,
        GovernorError::ProposalAlreadyOpenError => 211,
        GovernorError::InvalidProposalActionError => 213,
    }
}

/// The errors the votes token can fail with.
#[derive(Debug, Clone, Copy, PartialEq, Eq, Structural)]
pub enum TokenVotesError {
    InternalError,
    AlreadyInitializedError,
    UnauthorizedError,
    NegativeAmountError,
    AllowanceError,
    BalanceError,
    OverflowError,
    InsufficientVotesError,
    InvalidDelegateeError,
    InvalidCheckpointError,
    SequenceNotClosedError,
    InvalidEmissionConfigError,
}

impl TokenVotesError {
    /// The contract error code under which the error is reported.
    pub fn code(&self) -> (r: u32)
        ensures
            r == token_votes_error_code(*self),
    {
        match self {
            TokenVotesError::InternalError => 1,
            TokenVotesError::AlreadyInitializedError => 3,
            TokenVotesError::UnauthorizedError => 4,
            TokenVotesError::NegativeAmountError => 8,
            TokenVotesError::AllowanceError => 9,
            TokenVotesError::BalanceError => 10,
            TokenVotesError::OverflowError => 12,
            TokenVotesError::InsufficientVotesError => 100,
            TokenVotesError::InvalidDelegateeError => 101,
            TokenVotesError::InvalidCheckpointError => 102,
            TokenVotesError::SequenceNotClosedError => 103,
            TokenVotesError::InvalidEmissionConfigError => 104,
        }
    }
}

/// The contract error code of each votes token error.
pub open spec fn token_votes_error_code(e: TokenVotesError) -> u32 {
    match e {
        TokenVotesError::InternalError => 1,
        TokenVotesError::AlreadyInitializedError => 3,
        TokenVotesError::UnauthorizedError => 4,
        TokenVotesError::NegativeAmountError => 8,
        TokenVotesError::AllowanceError => 9,
        TokenVotesError::BalanceError => 10,
        TokenVotesError::OverflowError => 12,
        TokenVotesError::InsufficientVotesError => 100,
        TokenVotesError::InvalidDelegateeError => 101,
        TokenVotesError::InvalidCheckpointError => 102,
        TokenVotesError::SequenceNotClosedError => 103,
        TokenVotesError::InvalidEmissionConfigError => 104,
    }
}

} // verus!
