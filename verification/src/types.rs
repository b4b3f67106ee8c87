//! The governor's data: settings, proposals, their status and their vote counts.
use vstd::prelude::*;

verus! {

/// One in basis points.
pub const BPS_SCALAR: i128 = 10_000;

/// The governor settings for managing proposals.
#[derive(Debug)]
pub struct GovernorSettings {
    /// The security council that can cancel proposals during the vote delay period.
    pub council: soroban_sdk::Address,
    /// The votes required to create a proposal.
    pub proposal_threshold: i128,
    /// The delay (in ledgers) from the proposal creation to when the voting period begins.
    pub vote_delay: u32,
    /// The time (in ledgers) the proposal is open to vote.
    pub vote_period: u32,
    /// The time (in ledgers) between the vote period closing and execution.
    pub timelock: u32,
    /// The time (in ledgers) the proposal has to be executed after the timelock.
    pub grace_period: u32,
    /// The percentage (in BPS) of the total votes needed to reach quorum.
    pub quorum: u32,
    /// Which votes count towards quorum: bits `{against}{for}{abstain}`.
    pub counting_type: u32,
    /// The percentage (in BPS) of "for" votes among "for" and "against" needed to pass.
    pub vote_threshold: u32,
}

/// The action a proposal takes when executed: a call (`C`), an upgrade to a new
/// WASM hash (`W`), new settings, or nothing (a snapshot).
#[derive(Debug)]
pub enum ProposalAction<C, W> {
    Calldata(C),
    Upgrade(W),
    Settings(GovernorSettings),
    Snapshot,
}

impl<C, W> ProposalAction<C, W> {
    /// Whether the action can be executed: all but snapshots.
    pub fn is_executable(&self) -> (r: bool)
        ensures
            r == !(self is Snapshot),
    {
        match self {
            ProposalAction::Calldata(_) => true,
            ProposalAction::Settings(_) => true,
            ProposalAction::Upgrade(_) => true,
            ProposalAction::Snapshot => false,
        }
    }
}

/// The status of a proposal.
#[derive(Copy, Clone, Debug, Eq, PartialEq, Structural)]
pub enum ProposalStatus {
    /// The proposal exists and voting has not been closed.
    Open,
    /// The proposal was voted for. If it is executable, the timelock begins.
    Successful,
    /// The proposal was voted against or did not reach quorum.
    Defeated,
    /// The proposal was not executed within its grace period.
    Expired,
    /// The proposal has been executed.
    Executed,
    /// The proposal has been canceled.
    Canceled,
}

/// The state of a proposal.
#[derive(Debug)]
pub struct ProposalData {
    pub creator: soroban_sdk::Address,
    pub vote_start: u32,
    pub vote_end: u32,
    /// The ledger from which an executable proposal can be executed; zero until set.
    pub eta: u32,
    pub status: ProposalStatus,
    pub executable: bool,
}

/// A proposal: its id, its configuration and its state.
#[derive(Debug)]
pub struct Proposal<C> {
    pub id: u32,
    pub config: C,
    pub data: ProposalData,
}

/// The types of votes that can be cast.
#[derive(Copy, Clone, Debug, Eq, PartialEq, Structural)]
pub enum VoteType {
    Against,
    For,
    Abstain,
}

/// The votes cast on a proposal.
#[derive(Copy, Clone, Debug, Eq, PartialEq, Structural)]
pub struct VoteCount {
    pub against: i128,
    pub _for: i128,
    pub abstain: i128,
}

} // verus!
