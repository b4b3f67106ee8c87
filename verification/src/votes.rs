//! The votes token: allowances, amount validation, vote ledgers, delegation and
//! the queries on past voting power.
use vstd::prelude::*;

use crate::constants::MAX_CHECKPOINT_AGE_LEDGERS;
use crate::checkpoints::{deposit_outcome, recorded, withdraw_outcome, VotingHistory};
use crate::errors::TokenVotesError;
use crate::ledger_vec::{
    ledger_list, ledgers_get, ledgers_len, ledgers_push, ledgers_search, ledgers_slice, sorted_ledgers,
};
use crate::voting_units::move_voting_units;

verus! {

/// Fails with `NegativeAmountError` when `amount` is negative.
pub fn require_nonnegative_amount(amount: i128) -> (r: Result<(), TokenVotesError>)
    ensures
        amount < 0 <==> r == Err::<(), TokenVotesError>(TokenVotesError::NegativeAmountError),
        amount >= 0 <==> r is Ok,
{
    if amount < 0 {
        return Err(TokenVotesError::NegativeAmountError);
    }
    Ok(())
}

/// An amount `spender` may spend on behalf of an owner, up to the ledger
/// `expiration_ledger`.
#[derive(Debug, Clone, Copy, PartialEq, Eq, Structural)]
pub struct Allowance {
    pub amount: i128,
    pub expiration_ledger: u32,
}

/// The allowance an approval at ledger `now` sets. Fails with `AllowanceError`
/// when a positive amount would expire before `now`.
pub fn create_allowance(amount: i128, expiration_ledger: u32, now: u32) -> (r: Result<
    Allowance,
    TokenVotesError,
>)
    ensures
        amount > 0 && expiration_ledger < now ==> r == Err::<Allowance, TokenVotesError>(
            TokenVotesError::AllowanceError,
        ),
        !(amount > 0 && expiration_ledger < now) ==> r == Ok::<Allowance, TokenVotesError>(
            Allowance { amount, expiration_ledger },
        ),
{
    if amount > 0 && expiration_ledger < now {
        return Err(TokenVotesError::AllowanceError);
    }
    Ok(Allowance { amount, expiration_ledger })
}

/// Spends `amount` of `allowance` at ledger `now`. Fails with `AllowanceError`
/// when the allowance is smaller than `amount` or has expired.
pub fn spend_allowance(allowance: &Allowance, amount: i128, now: u32) -> (r: Result<
    Allowance,
    TokenVotesError,
>)
    requires
        allowance.amount - amount <= i128::MAX,
    ensures
        allowance.amount < amount || now > allowance.expiration_ledger ==> r == Err::<
            Allowance,
            TokenVotesError,
        >(TokenVotesError::AllowanceError),
        !(allowance.amount < amount || now > allowance.expiration_ledger) ==> r == Ok::<
            Allowance,
            TokenVotesError,
        >(
            Allowance {
                amount: (allowance.amount - amount) as i128,
                expiration_ledger: allowance.expiration_ledger,
            },
        ),
{
    if allowance.amount < amount || now > allowance.expiration_ledger {
        return Err(TokenVotesError::AllowanceError);
    }
    Ok(Allowance {
        amount: allowance.amount - amount,
        expiration_ledger: allowance.expiration_ledger,
    })
}

/// The vote ledgers before index `k` are those dropped at ledger `now`: none
/// while `now` is below `MAX_CHECKPOINT_AGE_LEDGERS`, and otherwise only ledgers
/// before the cutoff `now - MAX_CHECKPOINT_AGE_LEDGERS`, whatever the order of the
/// list. Of an ascending list, exactly those before the cutoff are dropped.
pub open spec fn pruned_before(ledgers: Seq<u32>, k: int, now: u32) -> bool {
    &&& 0 <= k <= ledgers.len()
    &&& now < MAX_CHECKPOINT_AGE_LEDGERS ==> k == 0
    &&& now >= MAX_CHECKPOINT_AGE_LEDGERS ==> forall|j: int|
        0 <= j < k ==> ledgers[j] < now - MAX_CHECKPOINT_AGE_LEDGERS
    &&& sorted_ledgers(ledgers) && now >= MAX_CHECKPOINT_AGE_LEDGERS ==> forall|j: int|
        k <= j < ledgers.len() ==> ledgers[j] >= now - MAX_CHECKPOINT_AGE_LEDGERS
}

/// Vote ledgers are kept long enough, whatever their order: a vote ledger less
/// than `MAX_CHECKPOINT_AGE_LEDGERS` before the current ledger survives the
/// pruning, and the new ledger is added after the kept ones.
pub proof fn lemma_recent_vote_ledgers_kept(ledgers: Seq<u32>, k: int, now: u32, sequence: u32, v: u32)
    requires
        pruned_before(ledgers, k, now),
        ledgers.contains(v),
        now < v + MAX_CHECKPOINT_AGE_LEDGERS,
    ensures
        ledgers.subrange(k, ledgers.len() as int).push(sequence).contains(v),
        ledgers.subrange(k, ledgers.len() as int).push(sequence).last() == sequence,
{
    let j = choose|j: int| 0 <= j < ledgers.len() && ledgers[j] == v;
    assert(j >= k);
    let kept = ledgers.subrange(k, ledgers.len() as int).push(sequence);
    assert(kept[j - k] == v);
}

/// The logic of the votes token contract, on values its storage and the ledger hold.
pub struct TokenVotes;

impl TokenVotes {
    /// Fails with `AlreadyInitializedError` when the token is already initialized.
    pub fn initialize(is_init: bool) -> (r: Result<(), TokenVotesError>)
        ensures
            is_init <==> r == Err::<(), TokenVotesError>(TokenVotesError::AlreadyInitializedError),
            !is_init <==> r is Ok,
    {
        if is_init {
            return Err(TokenVotesError::AlreadyInitializedError);
        }
        Ok(())
    }

    /// The current total supply.
    pub fn total_supply(supply: &VotingHistory) -> (r: i128)
        ensures
            r == supply.current_amount(),
    {
        supply.amount()
    }

    /// The current voting power of an account.
    pub fn get_votes(units: &VotingHistory) -> (r: i128)
        ensures
            r == units.current_amount(),
    {
        units.amount()
    }

    /// The total supply at the closed ledger `sequence`; fails with
    /// `SequenceNotClosedError` unless `sequence` is before the current ledger `now`.
    pub fn get_past_total_supply(supply: &VotingHistory, sequence: u32, now: u32) -> (r: Result<
        i128,
        TokenVotesError,
    >)
        ensures
            sequence >= now ==> r == Err::<i128, TokenVotesError>(
                TokenVotesError::SequenceNotClosedError,
            ),
            sequence < now ==> r == Ok::<i128, TokenVotesError>(
                supply.value_at(sequence as int) as i128,
            ),
    {
        supply.past_amount(sequence, now)
    }

    /// The voting power of an account at the closed ledger `sequence`; fails with
    /// `SequenceNotClosedError` unless `sequence` is before the current ledger `now`.
    pub fn get_past_votes(units: &VotingHistory, sequence: u32, now: u32) -> (r: Result<
        i128,
        TokenVotesError,
    >)
        ensures
            sequence >= now ==> r == Err::<i128, TokenVotesError>(
                TokenVotesError::SequenceNotClosedError,
            ),
            sequence < now ==> r == Ok::<i128, TokenVotesError>(
                units.value_at(sequence as int) as i128,
            ),
    {
        units.past_amount(sequence, now)
    }

    /// Adds a ledger at which a vote starts, first dropping the vote ledgers older
    /// than `MAX_CHECKPOINT_AGE_LEDGERS` before the current ledger `now`: no vote
    /// can ask for voting power at them any more. The cutoff is looked up by a
    /// binary search, and only ledgers before it are dropped, whatever the order
    /// of the list.
    ///
    /// Fails with `OverflowError`, leaving the vote ledgers as they were, when the
    /// host vector has no room left for another ledger.
    ///
    /// The vote ledgers stay in ascending order only while each new ledger is not
    /// before the last one; the reads at past vote ledgers rely on that order.
    pub fn set_vote_sequence(vote_ledgers: &mut soroban_sdk::Vec<u32>, sequence: u32, now: u32) -> (r:
        Result<(), TokenVotesError>)
        ensures
            ({
                let old_list = ledger_list(*old(vote_ledgers));
                let new_list = ledger_list(*final(vote_ledgers));
                exists|k: int|
                    {
                        &&& #[trigger] pruned_before(old_list, k, now)
                        &&& if old_list.len() - k >= u32::MAX {
                            r == Err::<(), TokenVotesError>(TokenVotesError::OverflowError)
                                && new_list == old_list
                        } else {
                            r is Ok && new_list == old_list.subrange(k, old_list.len() as int).push(
                                sequence,
                            )
                        }
                    }
            }),
            // whatever the order, no ledger at or after the cutoff is dropped
            r is Ok ==> ledger_list(*final(vote_ledgers)).last() == sequence && forall|j: int|
                0 <= j < ledger_list(*old(vote_ledgers)).len() && now < ledger_list(
                    *old(vote_ledgers),
                )[j] + MAX_CHECKPOINT_AGE_LEDGERS ==> ledger_list(*final(vote_ledgers)).contains(
                    #[trigger] ledger_list(*old(vote_ledgers))[j],
                ),
            // the vote ledgers stay sorted when the new one is not before the others
            r is Ok && sorted_ledgers(ledger_list(*old(vote_ledgers))) && (ledger_list(
                *old(vote_ledgers),
            ).len() == 0 || sequence >= ledger_list(*old(vote_ledgers)).last()) ==> sorted_ledgers(
                ledger_list(*final(vote_ledgers)),
            ),
    {
        let ghost old_list = ledger_list(*vote_ledgers);
        let len = ledgers_len(vote_ledgers);
        let mut k: u32 = 0;
        if len > 0 && now >= MAX_CHECKPOINT_AGE_LEDGERS {
            let ledger_cutoff = now - MAX_CHECKPOINT_AGE_LEDGERS;
            // drop everything before the cutoff, or before where it would be inserted
            let found = ledgers_search(vote_ledgers, ledger_cutoff);
            let index = match found {
                Ok(index) => index,
                Err(index) => index,
            };
            // the search result is only meaningful on a sorted list; keep everything
            // when it lies outside the list
            let index = if index > len {
                0
            } else {
                index
            };
            // drop only ledgers before the cutoff: on a list out of order the
            // search result may point past ledgers that are still needed
            while k < index && ledgers_get(vote_ledgers, k) < ledger_cutoff
                invariant
                    k <= index <= len,
                    len == old_list.len(),
                    old_list == ledger_list(*vote_ledgers),
                    forall|j: int| 0 <= j < k ==> old_list[j] < ledger_cutoff,
                decreases index - k,
            {
                k = k + 1;
            }
            proof {
                if sorted_ledgers(old_list) {
                    assert forall|j: int| k <= j < old_list.len() implies old_list[j] >= ledger_cutoff by {
                        if k < index {
                            assert(old_list[k as int] <= old_list[j]);
                        } else if found is Ok {
                            assert(old_list[index as int] <= old_list[j]);
                        }
                    }
                }
            }
        }
        if len - k == u32::MAX {
            proof {
                // `k` witnesses the pruning point
                assert(pruned_before(old_list, k as int, now));
            }
            return Err(TokenVotesError::OverflowError);
        }
        if k > 0 {
            *vote_ledgers = ledgers_slice(vote_ledgers, k, len);
        }
        assert(ledger_list(*vote_ledgers) =~= old_list.subrange(k as int, old_list.len() as int));
        ledgers_push(vote_ledgers, sequence);
        proof {
            assert(pruned_before(old_list, k as int, now));
            let new_list = ledger_list(*vote_ledgers);
            assert forall|j: int|
                0 <= j < old_list.len() && now < old_list[j] + MAX_CHECKPOINT_AGE_LEDGERS implies new_list.contains(
                #[trigger] old_list[j]) by {
                assert(old_list.contains(old_list[j]));
                lemma_recent_vote_ledgers_kept(old_list, k as int, now, sequence, old_list[j]);
            }
            assert(new_list == old_list.subrange(k as int, old_list.len() as int).push(sequence));
            if sorted_ledgers(old_list) && (old_list.len() == 0 || sequence >= old_list.last()) {
                assert forall|i: int, j: int| 0 <= i <= j < new_list.len() implies new_list[i]
                    <= new_list[j] by {
                    if j == new_list.len() - 1 && i < j {
                        assert(old_list[i + k] <= old_list.last());
                    }
                }
            }
        }
        Ok(())
    }

    /// Changes the delegate of an account holding `balance` tokens: its voting units
    /// move from its current delegate to the new delegate's own delegate.
    ///
    /// `same_as_current` tells whether the new delegate is the current one;
    /// `dest_delegate` is `None` when the units would move to the current delegate
    /// itself (nothing moves).
    ///
    /// Fails with `InvalidDelegateeError` when the new delegate is the current one,
    /// and as `move_voting_units` does otherwise.
    pub fn delegate(
        vote_ledgers: &soroban_sdk::Vec<u32>,
        now: u32,
        balance: i128,
        same_as_current: bool,
        cur_delegate: &mut VotingHistory,
        dest_delegate: Option<&mut VotingHistory>,
    ) -> (r: Result<(), TokenVotesError>)
        requires
            old(cur_delegate).ready(now),
            match dest_delegate {
                Some(d) => d.ready(now),
                None => true,
            },
        ensures
            same_as_current ==> r == Err::<(), TokenVotesError>(
                TokenVotesError::InvalidDelegateeError,
            ),
            !same_as_current && (balance <= 0 || dest_delegate is None) ==> r is Ok && *final(cur_delegate) == *old(cur_delegate) && match dest_delegate {
                Some(d) => *final(d) == *d,
                None => true,
            },
            // a refused delegation changes neither history
            r is Err ==> *final(cur_delegate) == *old(cur_delegate) && match dest_delegate {
                Some(d) => *final(d) == *d,
                None => true,
            },
            !same_as_current && balance > 0 ==> match dest_delegate {
                Some(d) => {
                    &&& r == if withdraw_outcome(*old(cur_delegate), balance as int) is Err {
                        withdraw_outcome(*old(cur_delegate), balance as int)
                    } else {
                        deposit_outcome(*d, balance as int)
                    }
                    &&& r is Ok ==> recorded(
                        *old(cur_delegate),
                        *final(cur_delegate),
                        ledger_list(*vote_ledgers),
                        now,
                        old(cur_delegate).current_amount() - balance,
                    ) && recorded(
                        *d,
                        *final(d),
                        ledger_list(*vote_ledgers),
                        now,
                        d.current_amount() + balance,
                    )
                },
                None => true,
            },
    {
        if same_as_current {
            return Err(TokenVotesError::InvalidDelegateeError);
        }
        if balance > 0 {
            match dest_delegate {
                Some(d) => {
                    return move_voting_units(vote_ledgers, now, Some(cur_delegate), Some(d), balance);
                },
                None => {},
            }
        }
        Ok(())
    }
}

} // verus!
