//! Time and scale constants of the governor and the votes token.
use vstd::prelude::*;

verus! {

/// One day of ledgers, at five seconds a ledger.
pub const ONE_DAY_LEDGERS: u32 = 17280;
/// One hour of ledgers, at five seconds a ledger.
pub const ONE_HOUR_LEDGERS: u32 = 720;
/// The longest a proposal can exist for (31 days).
pub const MAX_PROPOSAL_LIFETIME: u32 = 535680;
/// The longest a proposal can be voted on (7 days).
pub const MAX_VOTE_PERIOD: u32 = 120960;
/// The shortest a proposal can be voted on (one hour).
pub const MIN_VOTE_PERIOD: u32 = 720;
/// The longest grace period (7 days).
pub const MAX_GRACE_PERIOD: u32 = 120960;
/// The shortest grace period (one day).
pub const MIN_GRACE_PERIOD: u32 = 17280;
/// The fewest votes a proposal threshold can require.
pub const MIN_VOTE_THRESHOLD: i128 = 1;
/// The longest a checkpoint is needed once written: the longest vote period and
/// grace period together (14 days), plus a day.
pub const MAX_CHECKPOINT_AGE_LEDGERS: u32 = 259200;
/// The longest a proposal can exist, as the votes token counts it.
pub const MAX_PROPOSAL_AGE_LEDGERS: u32 = 535680;

} // verus!
