//! Moving voting units between delegates.
use vstd::prelude::*;

use crate::checkpoints::{deposit_outcome, recorded, withdraw_outcome, VotingHistory};
use crate::errors::TokenVotesError;
use crate::ledger_vec::ledger_list;

verus! {

/// Moves `amount` voting units from `from` to `to`; a missing side is the mint
/// (no `from`) or the burn (no `to`). Nothing moves unless `amount` is positive.
///
/// The two histories belong to different accounts: the caller skips the move when
/// both sides are the same delegate.
///
/// Fails with `InsufficientVotesError` when `from` holds fewer than `amount` units,
/// with `InvalidCheckpointError` when `to` would hold 2^96 units or more, and with
/// `OverflowError` when a history that must change has no room left. A refused
/// move changes neither history.
pub fn move_voting_units(
    vote_ledgers: &soroban_sdk::Vec<u32>,
    now: u32,
    from: Option<&mut VotingHistory>,
    to: Option<&mut VotingHistory>,
    amount: i128,
) -> (r: Result<(), TokenVotesError>)
    requires
        match from {
            Some(f) => f.ready(now),
            None => true,
        },
        match to {
            Some(t) => t.ready(now) && (from is None && amount > 0 ==> t.current_amount() + amount
                <= i128::MAX),
            None => true,
        },
    ensures
        amount <= 0 ==> r is Ok && match from {
            Some(f) => *final(f) == *f,
            None => true,
        } && match to {
            Some(t) => *final(t) == *t,
            None => true,
        },
        amount > 0 ==> {
            let from_result = match from {
                Some(f) => withdraw_outcome(*f, amount as int),
                None => Ok(()),
            };
            let to_result = match to {
                Some(t) => deposit_outcome(*t, amount as int),
                None => Ok(()),
            };
            &&& r == if from_result is Err {
                from_result
            } else {
                to_result
            }
            // a refused move changes nothing
            &&& r is Err ==> match from {
                Some(f) => *final(f) == *f,
                None => true,
            } && match to {
                Some(t) => *final(t) == *t,
                None => true,
            }
            &&& r is Ok ==> match from {
                Some(f) => recorded(
                    *f,
                    *final(f),
                    ledger_list(*vote_ledgers),
                    now,
                    f.current_amount() - amount,
                ),
                None => true,
            }
            &&& r is Ok ==> match to {
                Some(t) => recorded(
                    *t,
                    *final(t),
                    ledger_list(*vote_ledgers),
                    now,
                    t.current_amount() + amount,
                ),
                None => true,
            }
        },
{
    if amount > 0 {
        // check both sides before changing either
        let from_check = match &from {
            Some(f) => {
                let voting_units = f.amount();
                if voting_units < amount {
                    Err(TokenVotesError::InsufficientVotesError)
                } else {
                    f.check_record(voting_units - amount)
                }
            },
            None => Ok(()),
        };
        if from_check.is_err() {
            return from_check;
        }
        // with a source, `amount` is below 2^96, so the sum fits in `i128`
        let to_check = match &to {
            Some(t) => t.check_record(t.amount() + amount),
            None => Ok(()),
        };
        if to_check.is_err() {
            return to_check;
        }
        match from {
            Some(f) => {
                // decrease the voting units of `from`, keeping their old units in
                // the checkpoints
                let voting_units = f.amount();
                let _ = f.record(vote_ledgers, now, voting_units - amount);
            },
            None => {},
        }
        match to {
            Some(t) => {
                // increase the voting units of `to`, keeping their old units in
                // the checkpoints
                let voting_units = t.amount();
                let _ = t.record(vote_ledgers, now, voting_units + amount);
            },
            None => {},
        }
    }
    Ok(())
}

} // verus!
