//! Validation of the governor settings.
use vstd::prelude::*;

use crate::constants::{
    MAX_GRACE_PERIOD, MAX_PROPOSAL_LIFETIME, MAX_VOTE_PERIOD, MIN_GRACE_PERIOD, MIN_VOTE_PERIOD,
    MIN_VOTE_THRESHOLD,
};
use crate::errors::GovernorError;
use crate::types::{GovernorSettings, BPS_SCALAR};

verus! {

/// The vote period and grace period are within their bounds.
pub open spec fn periods_in_bounds(s: GovernorSettings) -> bool {
    &&& MIN_VOTE_PERIOD <= s.vote_period <= MAX_VOTE_PERIOD
    &&& MIN_GRACE_PERIOD <= s.grace_period <= MAX_GRACE_PERIOD
}

/// The settings are valid:
/// * the vote period is between one hour and 7 days;
/// * the grace period is between one day and 7 days;
/// * the vote delay, vote period, timelock and twice the grace period fit in the
///   maximum proposal lifetime (31 days);
/// * the counting type uses only its lowest 3 bits;
/// * the proposal threshold is at least 1;
/// * the quorum and the vote threshold are between 0.1% and 99%.
pub open spec fn valid_settings(s: GovernorSettings) -> bool {
    &&& periods_in_bounds(s)
    &&& s.vote_delay + s.vote_period + s.timelock + s.grace_period * 2 <= MAX_PROPOSAL_LIFETIME
    &&& s.counting_type <= 0b111
    &&& s.proposal_threshold >= MIN_VOTE_THRESHOLD
    &&& 10 <= s.quorum <= BPS_SCALAR - 100
    &&& 10 <= s.vote_threshold <= BPS_SCALAR - 100
}

/// Fails with `InvalidSettingsError` unless the settings are valid.
pub fn require_valid_settings(settings: &GovernorSettings) -> (r: Result<(), GovernorError>)
    requires
        periods_in_bounds(*settings) ==> settings.vote_delay + settings.vote_period
            + settings.timelock + settings.grace_period * 2 <= u32::MAX,
    ensures
        r == if valid_settings(*settings) {
            Ok::<(), GovernorError>(())
        } else {
            Err(GovernorError::InvalidSettingsError)
        },
{
    if settings.vote_period > MAX_VOTE_PERIOD || settings.vote_period < MIN_VOTE_PERIOD
        || settings.grace_period < MIN_GRACE_PERIOD || settings.grace_period > MAX_GRACE_PERIOD
        || settings.vote_delay + settings.vote_period + settings.timelock + settings.grace_period
        * 2 > MAX_PROPOSAL_LIFETIME || settings.counting_type > 0b111
        || settings.proposal_threshold < MIN_VOTE_THRESHOLD || settings.quorum as i128
        > BPS_SCALAR - 100 || settings.quorum < 10 || settings.vote_threshold as i128 > BPS_SCALAR
        - 100 || settings.vote_threshold < 10 {
        return Err(GovernorError::InvalidSettingsError);
    }
    Ok(())
}

} // verus!
