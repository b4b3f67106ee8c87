//! Minting, burning and transferring balances of the votes token, with the
//! emission and voting unit bookkeeping each balance change needs.
use vstd::prelude::*;

use crate::checkpoints::{
    deposit_outcome, record_outcome, recorded, withdraw_outcome, VotingHistory,
};
use crate::emissions::{
    emissions_after, emissions_update_fits, update_emissions, user_emissions_after, Emissions,
    UserEmissionData,
};
use crate::errors::TokenVotesError;
use crate::ledger_vec::ledger_list;
use crate::voting_units::move_voting_units;

verus! {

/// What the token records of one holder: its balance and its emission data.
pub struct Holder {
    pub balance: i128,
    pub emissions: Option<UserEmissionData>,
}

/// What minting `amount` gives: `OverflowError` when the supply would exceed
/// `i128`, otherwise what recording the new supply and then adding the units to the
/// delegate gives.
pub open spec fn mint_outcome(supply: VotingHistory, delegate: VotingHistory, amount: int) -> Result<
    (),
    TokenVotesError,
> {
    let new_supply = supply.current_amount() + amount;
    if new_supply > i128::MAX {
        Err(TokenVotesError::OverflowError)
    } else if record_outcome(supply, new_supply) is Err {
        record_outcome(supply, new_supply)
    } else {
        deposit_outcome(delegate, amount)
    }
}

/// What minting `amount` would give, without minting: `mint_outcome` computed.
pub fn check_mint(supply: &VotingHistory, delegate: &VotingHistory, amount: i128) -> (r: Result<
    (),
    TokenVotesError,
>)
    requires
        amount > 0,
    ensures
        r == mint_outcome(*supply, *delegate, amount as int),
{
    let new_supply = match supply.amount().checked_add(amount) {
        Some(s) => s,
        None => {
            return Err(TokenVotesError::OverflowError);
        },
    };
    let checked = supply.check_record(new_supply);
    if checked.is_err() {
        return checked;
    }
    // the new supply fits in 96 bits, so the delegate's units plus `amount` fit too
    delegate.check_record(delegate.amount() + amount)
}

/// What burning `amount` from a holder with `balance` gives: `BalanceError` when
/// the balance is below `amount`, `InsufficientVotesError` when the supply is,
/// otherwise what recording the new supply and then taking the units from the
/// delegate gives.
pub open spec fn burn_outcome(supply: VotingHistory, balance: int, delegate: VotingHistory, amount: int) -> Result<
    (),
    TokenVotesError,
> {
    let new_supply = supply.current_amount() - amount;
    if balance < amount {
        Err(TokenVotesError::BalanceError)
    } else if new_supply < 0 {
        Err(TokenVotesError::InsufficientVotesError)
    } else if record_outcome(supply, new_supply) is Err {
        record_outcome(supply, new_supply)
    } else {
        withdraw_outcome(delegate, amount)
    }
}

/// Adds `amount` to the balance of `to`, to the total supply, and to the voting
/// units of `to`'s delegate, after updating `to`'s emissions. Does nothing unless
/// `amount` is positive.
///
/// Fails with `OverflowError` when the supply would exceed `i128` or a history that
/// must change has no room left, and with `InvalidCheckpointError` when the supply
/// or the delegate's units would reach 2^96. A refused mint changes nothing.
pub fn mint_balance(
    vote_ledgers: &soroban_sdk::Vec<u32>,
    now: u32,
    now_time: u64,
    supply: &mut VotingHistory,
    emissions: &mut Option<Emissions>,
    to: &mut Holder,
    to_delegate: &mut VotingHistory,
    amount: i128,
) -> (r: Result<(), TokenVotesError>)
    requires
        old(supply).ready(now),
        old(to_delegate).ready(now),
        amount > 0 ==> emissions_update_fits(
            *old(emissions),
            old(to).emissions,
            old(supply).current_amount(),
            old(to).balance as int,
            now_time,
        ),
        amount > 0 && mint_outcome(*old(supply), *old(to_delegate), amount as int) is Ok ==> old(to).balance
            + amount <= i128::MAX,
    ensures
        amount <= 0 ==> r is Ok && *final(supply) == *old(supply) && *final(emissions) == *old(emissions) && *final(to) == *old(to) && *final(to_delegate) == *old(to_delegate),
        amount > 0 ==> {
            let new_supply = old(supply).current_amount() + amount;
            &&& r == mint_outcome(*old(supply), *old(to_delegate), amount as int)
            // a refused mint changes nothing
            &&& r is Err ==> *final(supply) == *old(supply) && *final(emissions) == *old(emissions)
                && *final(to) == *old(to) && *final(to_delegate) == *old(to_delegate)
            &&& r is Ok ==> {
                &&& recorded(*old(supply), *final(supply), ledger_list(*vote_ledgers), now, new_supply)
                &&& recorded(
                    *old(to_delegate),
                    *final(to_delegate),
                    ledger_list(*vote_ledgers),
                    now,
                    old(to_delegate).current_amount() + amount,
                )
                &&& final(to).balance == old(to).balance + amount
                // the supply and the delegate's units grow with the balance
                &&& final(supply).current_amount() - old(supply).current_amount()
                    == final(to_delegate).current_amount() - old(to_delegate).current_amount()
                &&& *final(emissions) == emissions_after(
                    *old(emissions),
                    old(supply).current_amount(),
                    now_time,
                )
                &&& final(to).emissions == user_emissions_after(
                    *old(emissions),
                    old(to).emissions,
                    old(supply).current_amount(),
                    old(to).balance as int,
                    now_time,
                )
            }
        },
{
    if amount > 0 {
        let balance = to.balance;
        // check both histories before changing anything
        let checked = check_mint(supply, to_delegate, amount);
        if checked.is_err() {
            return checked;
        }
        let supply_amount = supply.amount();
        let new_supply = supply_amount + amount;
        update_emissions(now_time, emissions, supply_amount, &mut to.emissions, balance);
        let _ = supply.record(vote_ledgers, now, new_supply);
        let _ = move_voting_units(vote_ledgers, now, None, Some(to_delegate), amount);
        to.balance = balance + amount;
    }
    Ok(())
}

/// Removes `amount` from the balance of `from`, from the total supply, and from
/// the voting units of `from`'s delegate, after updating `from`'s emissions. Does
/// nothing unless `amount` is positive.
///
/// Fails with `BalanceError` when the balance is below `amount`, with
/// `InsufficientVotesError` when the supply or the delegate's units are, and with
/// `OverflowError` when a history that must change has no room left. A refused
/// burn changes nothing.
pub fn burn_balance(
    vote_ledgers: &soroban_sdk::Vec<u32>,
    now: u32,
    now_time: u64,
    supply: &mut VotingHistory,
    emissions: &mut Option<Emissions>,
    from: &mut Holder,
    from_delegate: &mut VotingHistory,
    amount: i128,
) -> (r: Result<(), TokenVotesError>)
    requires
        old(supply).ready(now),
        old(from_delegate).ready(now),
        amount > 0 && old(from).balance >= amount ==> emissions_update_fits(
            *old(emissions),
            old(from).emissions,
            old(supply).current_amount(),
            old(from).balance as int,
            now_time,
        ),
    ensures
        amount <= 0 ==> r is Ok && *final(supply) == *old(supply) && *final(emissions) == *old(emissions) && *final(from) == *old(from) && *final(from_delegate) == *old(from_delegate),
        amount > 0 ==> {
            let new_supply = old(supply).current_amount() - amount;
            &&& r == burn_outcome(*old(supply), old(from).balance as int, *old(from_delegate), amount as int)
            // a refused burn changes nothing
            &&& r is Err ==> *final(supply) == *old(supply) && *final(emissions) == *old(emissions)
                && *final(from) == *old(from) && *final(from_delegate) == *old(from_delegate)
            &&& old(from).balance < amount ==> *final(supply) == *old(supply) && *final(emissions)
                == *old(emissions) && *final(from) == *old(from) && *final(from_delegate) == *old(from_delegate)
            &&& r is Ok ==> {
                &&& recorded(*old(supply), *final(supply), ledger_list(*vote_ledgers), now, new_supply)
                &&& recorded(
                    *old(from_delegate),
                    *final(from_delegate),
                    ledger_list(*vote_ledgers),
                    now,
                    old(from_delegate).current_amount() - amount,
                )
                &&& final(from).balance == old(from).balance - amount
                // the supply and the delegate's units shrink with the balance
                &&& old(supply).current_amount() - final(supply).current_amount()
                    == old(from_delegate).current_amount() - final(from_delegate).current_amount()
                &&& *final(emissions) == emissions_after(
                    *old(emissions),
                    old(supply).current_amount(),
                    now_time,
                )
                &&& final(from).emissions == user_emissions_after(
                    *old(emissions),
                    old(from).emissions,
                    old(supply).current_amount(),
                    old(from).balance as int,
                    now_time,
                )
            }
        },
{
    if amount > 0 {
        let balance = from.balance;
        if balance < amount {
            return Err(TokenVotesError::BalanceError);
        }
        let supply_amount = supply.amount();
        let new_supply = supply_amount - amount;
        if new_supply < 0 {
            return Err(TokenVotesError::InsufficientVotesError);
        }
        // check both histories before changing anything
        let checked = supply.check_record(new_supply);
        if checked.is_err() {
            return checked;
        }
        let units = from_delegate.amount();
        if units < amount {
            return Err(TokenVotesError::InsufficientVotesError);
        }
        let checked = from_delegate.check_record(units - amount);
        if checked.is_err() {
            return checked;
        }
        update_emissions(now_time, emissions, supply_amount, &mut from.emissions, balance);
        let _ = supply.record(vote_ledgers, now, new_supply);
        let _ = move_voting_units(vote_ledgers, now, Some(from_delegate), None, amount);
        from.balance = balance - amount;
    }
    Ok(())
}

/// Moves `amount` from the balance of `from` to that of `to`, updating both
/// holders' emissions and moving the voting units between their delegates. Does
/// nothing unless `amount` is positive.
///
/// `to` is `None` when the recipient is `from` itself (the balance is unchanged),
/// and `to_delegate` is `None` when the recipient's delegate is `from`'s delegate
/// (no voting units move).
///
/// Fails with `BalanceError` when the balance of `from` is below `amount`, with
/// `InsufficientVotesError` when `from`'s delegate holds fewer units than
/// `amount`, with `InvalidCheckpointError` when `to`'s delegate would reach 2^96
/// units, and with `OverflowError` when a delegate's history has no room left. A
/// refused transfer changes nothing.
pub fn transfer_balance(
    vote_ledgers: &soroban_sdk::Vec<u32>,
    now: u32,
    now_time: u64,
    supply: &VotingHistory,
    emissions: &mut Option<Emissions>,
    from: &mut Holder,
    to: Option<&mut Holder>,
    from_delegate: &mut VotingHistory,
    to_delegate: Option<&mut VotingHistory>,
    amount: i128,
) -> (r: Result<(), TokenVotesError>)
    requires
        to is None ==> to_delegate is None,
        old(from_delegate).ready(now),
        match to_delegate {
            Some(d) => d.ready(now),
            None => true,
        },
        amount > 0 && old(from).balance >= amount ==> emissions_update_fits(
            *old(emissions),
            old(from).emissions,
            supply.current_amount(),
            old(from).balance as int,
            now_time,
        ),
        match to {
            Some(t) => {
                &&& amount > 0 ==> t.balance + amount <= i128::MAX
                &&& amount > 0 && old(from).balance >= amount ==> emissions_update_fits(
                    emissions_after(*old(emissions), supply.current_amount(), now_time),
                    t.emissions,
                    supply.current_amount(),
                    t.balance as int,
                    now_time,
                )
            },
            None => true,
        },
    ensures
        amount <= 0 || old(from).balance < amount ==> {
            &&& r == if amount <= 0 {
                Ok::<(), TokenVotesError>(())
            } else {
                Err::<(), TokenVotesError>(TokenVotesError::BalanceError)
            }
            &&& *final(emissions) == *old(emissions)
            &&& *final(from) == *old(from)
            &&& *final(from_delegate) == *old(from_delegate)
            &&& match to {
                Some(t) => *final(t) == *t,
                None => true,
            }
            &&& match to_delegate {
                Some(d) => *final(d) == *d,
                None => true,
            }
        },
        amount > 0 && old(from).balance >= amount ==> {
            let supply_amount = supply.current_amount();
            &&& r == match to_delegate {
                Some(d) => if withdraw_outcome(*old(from_delegate), amount as int) is Err {
                    withdraw_outcome(*old(from_delegate), amount as int)
                } else {
                    deposit_outcome(*d, amount as int)
                },
                None => Ok(()),
            }
            // a refused transfer changes nothing
            &&& r is Err ==> {
                &&& *final(emissions) == *old(emissions)
                &&& *final(from) == *old(from)
                &&& *final(from_delegate) == *old(from_delegate)
                &&& match to {
                    Some(t) => *final(t) == *t,
                    None => true,
                }
                &&& match to_delegate {
                    Some(d) => *final(d) == *d,
                    None => true,
                }
            }
            &&& r is Ok ==> {
                &&& final(from).emissions == user_emissions_after(
                    *old(emissions),
                    old(from).emissions,
                    supply_amount,
                    old(from).balance as int,
                    now_time,
                )
                &&& match to {
                    Some(t) => {
                        &&& final(from).balance == old(from).balance - amount
                        &&& final(t).balance == t.balance + amount
                        // the two balances together are unchanged
                        &&& final(from).balance + final(t).balance == old(from).balance + t.balance
                        &&& final(t).emissions == user_emissions_after(
                            emissions_after(*old(emissions), supply_amount, now_time),
                            t.emissions,
                            supply_amount,
                            t.balance as int,
                            now_time,
                        )
                    },
                    None => final(from).balance == old(from).balance,
                }
                &&& *final(emissions) == emissions_after(*old(emissions), supply_amount, now_time)
                &&& match to_delegate {
                    Some(d) => {
                        &&& recorded(
                            *old(from_delegate),
                            *final(from_delegate),
                            ledger_list(*vote_ledgers),
                            now,
                            old(from_delegate).current_amount() - amount,
                        )
                        &&& recorded(
                            *d,
                            *final(d),
                            ledger_list(*vote_ledgers),
                            now,
                            d.current_amount() + amount,
                        )
                        // the two delegates' voting units together are unchanged
                        &&& final(from_delegate).current_amount() + final(d).current_amount()
                            == old(from_delegate).current_amount() + d.current_amount()
                    },
                    None => *final(from_delegate) == *old(from_delegate),
                }
            }
        },
{
    if amount > 0 {
        let from_balance = from.balance;
        if from_balance < amount {
            return Err(TokenVotesError::BalanceError);
        }
        // check both delegates before changing anything
        match &to_delegate {
            Some(d) => {
                let units = from_delegate.amount();
                if units < amount {
                    return Err(TokenVotesError::InsufficientVotesError);
                }
                let checked = from_delegate.check_record(units - amount);
                if checked.is_err() {
                    return checked;
                }
                let checked = d.check_record(d.amount() + amount);
                if checked.is_err() {
                    return checked;
                }
            },
            None => {},
        }
        let supply_amount = supply.amount();
        match to {
            Some(t) => {
                from.balance = from_balance - amount;
                let to_balance = t.balance;
                t.balance = to_balance + amount;
                update_emissions(now_time, emissions, supply_amount, &mut from.emissions, from_balance);
                update_emissions(now_time, emissions, supply_amount, &mut t.emissions, to_balance);
            },
            None => {
                // a transfer to oneself leaves the balance as it was
                update_emissions(now_time, emissions, supply_amount, &mut from.emissions, from_balance);
            },
        }
        match to_delegate {
            Some(d) => {
                let _ = move_voting_units(vote_ledgers, now, Some(from_delegate), Some(d), amount);
            },
            None => {},
        }
    }
    Ok(())
}

} // verus!
