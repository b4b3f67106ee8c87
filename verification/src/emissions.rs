//! Emissions: tokens streamed to the holders of the votes token, pro rata to
//! their balances, through a global index and a per-holder index.
use vstd::prelude::*;

use crate::errors::TokenVotesError;
use crate::balance::{check_mint, mint_balance, mint_outcome, Holder};
use crate::checkpoints::{recorded, VotingHistory};
use crate::fixed_point::{div_floor, mul_floor};
use crate::ledger_vec::ledger_list;

verus! {

/// The fixed point scale of emission indexes (seven decimals).
pub const SCALAR_7: i128 = 1_0000000;

/// The current emission schedule: tokens per second until `expiration`.
#[derive(Debug, Clone, Copy, PartialEq, Eq, Structural)]
pub struct EmissionConfig {
    pub expiration: u64,
    pub eps: u64,
}

/// The global emission index (tokens emitted per token held, scaled by
/// `SCALAR_7`) and the time it was last brought up to date.
#[derive(Debug, Clone, Copy, PartialEq, Eq, Structural)]
pub struct EmissionData {
    pub index: i128,
    pub last_time: u64,
}

/// A holder's position in the emission index and the emissions accrued to it.
#[derive(Debug, Clone, Copy, PartialEq, Eq, Structural)]
pub struct UserEmissionData {
    pub index: i128,
    pub accrued: i128,
}

/// The emission schedule together with the global index; both exist once
/// emissions have been set.
#[derive(Debug, Clone, Copy, PartialEq, Eq, Structural)]
pub struct Emissions {
    pub config: EmissionConfig,
    pub data: EmissionData,
}

/// The time up to which emissions accrue: now, or the expiration if it has passed.
pub open spec fn accrual_end(config: EmissionConfig, now: u64) -> int {
    if now > config.expiration {
        config.expiration as int
    } else {
        now as int
    }
}

/// Whether the global index needs bringing up to date.
pub open spec fn index_outdated(data: EmissionData, config: EmissionConfig, total_supply: int, now: u64) -> bool {
    !(data.last_time >= config.expiration || now == data.last_time || config.eps == 0 || total_supply
        == 0)
}

/// The tokens emitted since the last update, unscaled: seconds times tokens per second.
pub open spec fn emitted(data: EmissionData, config: EmissionConfig, now: u64) -> int {
    (accrual_end(config, now) - data.last_time) * config.eps
}

/// The growth of the index since the last update.
pub open spec fn index_increase(data: EmissionData, config: EmissionConfig, total_supply: int, now: u64) -> int {
    emitted(data, config, now) * SCALAR_7 / total_supply
}

/// The global index brought up to `now`, or `None` when it is already up to date,
/// the schedule has expired since, nothing is emitted, or nothing is held.
pub open spec fn updated_emission_data(
    data: EmissionData,
    config: EmissionConfig,
    total_supply: int,
    now: u64,
) -> Option<EmissionData> {
    if index_outdated(data, config, total_supply, now) {
        Some(
            EmissionData {
                index: (data.index + index_increase(data, config, total_supply, now)) as i128,
                last_time: now,
            },
        )
    } else {
        None
    }
}

/// What updating the global index needs: time has not run backwards since the
/// last update, and the arithmetic stays within `i128`.
pub open spec fn index_update_fits(data: EmissionData, config: EmissionConfig, total_supply: int, now: u64) -> bool {
    index_outdated(data, config, total_supply, now) ==> {
        &&& data.last_time <= now
        &&& emitted(data, config, now) * SCALAR_7 <= i128::MAX
        &&& data.index + index_increase(data, config, total_supply, now) <= i128::MAX
    }
}

/// The emissions a balance earns as the index moves by `delta`.
pub open spec fn accrual(balance: int, delta: int) -> int {
    balance * delta / (SCALAR_7 as int)
}

/// A holder's emission data moved to `index`, or `None` when it is already there.
/// A holder first seen with a balance is due everything emitted since the index began.
pub open spec fn updated_user_emissions(
    user: Option<UserEmissionData>,
    index: i128,
    balance: int,
) -> Option<UserEmissionData> {
    match user {
        Some(u) => if u.index < index {
            Some(
                UserEmissionData {
                    index,
                    accrued: (u.accrued + if balance != 0 {
                        accrual(balance, index - u.index)
                    } else {
                        0
                    }) as i128,
                },
            )
        } else {
            None
        },
        None => if balance == 0 {
            Some(UserEmissionData { index, accrued: 0 })
        } else {
            Some(UserEmissionData { index, accrued: accrual(balance, index as int) as i128 })
        },
    }
}

/// What moving a holder's emission data needs to stay within `i128`.
pub open spec fn user_update_fits(user: Option<UserEmissionData>, index: i128, balance: int) -> bool {
    match user {
        Some(u) => u.index < index && balance != 0 ==> {
            &&& i128::MIN <= balance * (index - u.index) <= i128::MAX
            &&& i128::MIN <= u.accrued + accrual(balance, index - u.index) <= i128::MAX
            &&& index - u.index <= i128::MAX
        },
        None => balance != 0 ==> i128::MIN <= balance * index <= i128::MAX,
    }
}

/// Brings the global emission index up to the current time `now`.
///
/// Returns the updated data, or `None` when the data does not need updating.
pub fn update_emission_data(
    now: u64,
    emis_data: &EmissionData,
    emis_config: &EmissionConfig,
    total_supply: i128,
) -> (r: Option<EmissionData>)
    requires
        total_supply >= 0,
        index_update_fits(*emis_data, *emis_config, total_supply as int, now),
    ensures
        r == updated_emission_data(*emis_data, *emis_config, total_supply as int, now),
{
    if emis_data.last_time >= emis_config.expiration || now == emis_data.last_time
        || emis_config.eps == 0 || total_supply == 0 {
        // the data is already up to date, or the schedule expired before it
        return None;
    }
    let max_timestamp = if now > emis_config.expiration {
        emis_config.expiration
    } else {
        now
    };
    let elapsed = (max_timestamp - emis_data.last_time) as i128;
    let eps = emis_config.eps as i128;
    assert(0 <= elapsed * eps <= i128::MAX) by (nonlinear_arith)
        requires
            0 <= elapsed,
            0 <= eps,
            elapsed * eps * SCALAR_7 <= i128::MAX,
    ;
    let additional_idx = match div_floor(elapsed * eps, total_supply, SCALAR_7) {
        Some(v) => v,
        None => {
            return None;
        },
    };
    Some(EmissionData { index: additional_idx + emis_data.index, last_time: now })
}

/// Moves a holder's emission data to the global index, accruing the emissions its
/// balance earned since its last update.
///
/// Returns the updated data, or `None` when the data does not need updating.
pub fn update_user_emissions(
    user_data_opt: &Option<UserEmissionData>,
    emis_data: &EmissionData,
    balance: i128,
) -> (r: Option<UserEmissionData>)
    requires
        user_update_fits(*user_data_opt, emis_data.index, balance as int),
    ensures
        r == updated_user_emissions(*user_data_opt, emis_data.index, balance as int),
{
    match user_data_opt {
        Some(user) => {
            let mut user_data = *user;
            if user_data.index < emis_data.index {
                if balance != 0 {
                    let delta_index = emis_data.index - user_data.index;
                    let to_accrue = match mul_floor(balance, delta_index, SCALAR_7) {
                        Some(v) => v,
                        None => {
                            return None;
                        },
                    };
                    user_data.accrued = user_data.accrued + to_accrue;
                }
                user_data.index = emis_data.index;
                Some(user_data)
            } else {
                None
            }
        },
        None => {
            if balance == 0 {
                // first time the holder registered a balance after emissions began
                Some(UserEmissionData { index: emis_data.index, accrued: 0 })
            } else {
                // the holder had tokens before emissions began: they are due all
                // historical emissions
                let accrued = match mul_floor(balance, emis_data.index, SCALAR_7) {
                    Some(v) => v,
                    None => {
                        return None;
                    },
                };
                Some(UserEmissionData { index: emis_data.index, accrued })
            }
        },
    }
}

/// The emission state after bringing the global index up to `now`.
pub open spec fn emissions_after(emissions: Option<Emissions>, total_supply: int, now: u64) -> Option<Emissions> {
    match emissions {
        Some(em) => Some(
            Emissions {
                config: em.config,
                data: match updated_emission_data(em.data, em.config, total_supply, now) {
                    Some(d) => d,
                    None => em.data,
                },
            },
        ),
        None => None,
    }
}

/// A holder's emission data after an emission update with `balance`.
pub open spec fn user_emissions_after(
    emissions: Option<Emissions>,
    user: Option<UserEmissionData>,
    total_supply: int,
    balance: int,
    now: u64,
) -> Option<UserEmissionData> {
    match emissions_after(emissions, total_supply, now) {
        Some(em) => match updated_user_emissions(user, em.data.index, balance) {
            Some(u) => Some(u),
            None => user,
        },
        None => user,
    }
}

/// What an emission update needs: time does not run backwards and the arithmetic
/// stays within `i128`.
pub open spec fn emissions_update_fits(
    emissions: Option<Emissions>,
    user: Option<UserEmissionData>,
    total_supply: int,
    balance: int,
    now: u64,
) -> bool {
    match emissions {
        Some(em) => {
            &&& index_update_fits(em.data, em.config, total_supply, now)
            &&& match emissions_after(emissions, total_supply, now) {
                Some(e2) => user_update_fits(user, e2.data.index, balance),
                None => true,
            }
        },
        None => true,
    }
}

/// Updates the emissions of a holder before its balance changes: brings the
/// global index up to `now` and accrues what `balance` earned since the holder's
/// last update. Does nothing while no emissions are set.
pub fn update_emissions(
    now: u64,
    emissions: &mut Option<Emissions>,
    total_supply: i128,
    user: &mut Option<UserEmissionData>,
    balance: i128,
)
    requires
        total_supply >= 0,
        emissions_update_fits(*old(emissions), *old(user), total_supply as int, balance as int, now),
    ensures
        *final(emissions) == emissions_after(*old(emissions), total_supply as int, now),
        *final(user) == user_emissions_after(
            *old(emissions),
            *old(user),
            total_supply as int,
            balance as int,
            now,
        ),
{
    match emissions {
        Some(em) => {
            match update_emission_data(now, &em.data, &em.config, total_supply) {
                Some(data) => {
                    em.data = data;
                },
                None => {},
            }
            match update_user_emissions(user, &em.data, balance) {
                Some(new_user_data) => {
                    *user = Some(new_user_data);
                },
                None => {},
            }
        },
        None => {},
    }
}

/// The global index brought up to `now` when that stays within `i128`, or `None`
/// when it does not; the data as it is when it needs no update.
fn checked_index(data: &EmissionData, config: &EmissionConfig, total_supply: i128, now: u64) -> (r:
    Option<i128>)
    requires
        total_supply >= 0,
    ensures
        r is Some <==> index_update_fits(*data, *config, total_supply as int, now),
        r matches Some(index) ==> index == match updated_emission_data(
            *data,
            *config,
            total_supply as int,
            now,
        ) {
            Some(d) => d.index,
            None => data.index,
        },
{
    if data.last_time >= config.expiration || now == data.last_time || config.eps == 0
        || total_supply == 0 {
        return Some(data.index);
    }
    if data.last_time > now {
        return None;
    }
    let max_timestamp = if now > config.expiration {
        config.expiration
    } else {
        now
    };
    let elapsed = (max_timestamp - data.last_time) as i128;
    let emitted = match elapsed.checked_mul(config.eps as i128) {
        Some(v) => v,
        None => {
            proof {
                assert(emitted(*data, *config, now) * SCALAR_7 > i128::MAX) by (nonlinear_arith)
                    requires
                        emitted(*data, *config, now) > i128::MAX,
                ;
            }
            return None;
        },
    };
    let scaled = match emitted.checked_mul(SCALAR_7) {
        Some(v) => v,
        None => {
            return None;
        },
    };
    assert(0 <= emitted) by (nonlinear_arith)
        requires
            emitted == elapsed * config.eps,
            elapsed >= 0,
    ;
    let increase = scaled / total_supply;
    data.index.checked_add(increase)
}

/// Whether an emission update stays within its types: `emissions_update_fits`
/// computed.
pub fn check_emissions_update(
    now: u64,
    emissions: &Option<Emissions>,
    user: &Option<UserEmissionData>,
    total_supply: i128,
    balance: i128,
) -> (r: bool)
    requires
        total_supply >= 0,
    ensures
        r == emissions_update_fits(*emissions, *user, total_supply as int, balance as int, now),
{
    match emissions {
        None => true,
        Some(em) => {
            let index = match checked_index(&em.data, &em.config, total_supply, now) {
                Some(index) => index,
                None => {
                    return false;
                },
            };
            match user {
                Some(u) => {
                    if u.index < index && balance != 0 {
                        let delta = match index.checked_sub(u.index) {
                            Some(d) => d,
                            None => {
                                return false;
                            },
                        };
                        let product = match balance.checked_mul(delta) {
                            Some(p) => p,
                            None => {
                                return false;
                            },
                        };
                        let accrual = match product.checked_div_euclid(SCALAR_7) {
                            Some(a) => a,
                            None => {
                                return false;
                            },
                        };
                        u.accrued.checked_add(accrual).is_some()
                    } else {
                        true
                    }
                },
                None => balance == 0 || balance.checked_mul(index).is_some(),
            }
        },
    }
}

/// The tokens the current schedule has not emitted yet at `now`.
pub open spec fn unemitted(config: EmissionConfig, now: u64) -> int {
    if config.expiration > now {
        config.eps * (config.expiration - now)
    } else {
        0
    }
}

/// The tokens a new schedule set at `now` has to emit: the new tokens and those
/// the current schedule has not emitted yet.
pub open spec fn tokens_to_emit(emissions: Option<Emissions>, new_tokens: int, now: u64) -> int {
    match emissions {
        Some(em) => new_tokens + unemitted(em.config, now),
        None => new_tokens,
    }
}

/// What setting a schedule needs: time does not run backwards and the arithmetic
/// stays within its types.
pub open spec fn set_emissions_fits(
    emissions: Option<Emissions>,
    total_supply: int,
    new_tokens: int,
    new_expiration: u64,
    now: u64,
) -> bool {
    &&& match emissions {
        Some(em) => {
            &&& index_update_fits(em.data, em.config, total_supply, now)
            &&& unemitted(em.config, now) <= u64::MAX
            &&& new_tokens + unemitted(em.config, now) <= i128::MAX
        },
        None => true,
    }
    &&& new_expiration > now && new_tokens > 0 ==> tokens_to_emit(emissions, new_tokens, now) / (
    new_expiration - now) <= u64::MAX
}

/// Sets a new emission schedule at `now`: `new_tokens` plus whatever the current
/// schedule has not emitted yet are spread evenly until `new_expiration`.
/// Returns the new tokens per second.
///
/// Fails with `InvalidEmissionConfigError` when `new_expiration` is not after
/// `now` or `new_tokens` is not positive.
pub fn set_emissions(
    now: u64,
    emissions: &mut Option<Emissions>,
    total_supply: i128,
    new_tokens: i128,
    new_expiration: u64,
) -> (r: Result<u64, TokenVotesError>)
    requires
        new_expiration > now && new_tokens > 0 ==> total_supply >= 0 && set_emissions_fits(
            *old(emissions),
            total_supply as int,
            new_tokens as int,
            new_expiration,
            now,
        ),
    ensures
        new_expiration <= now || new_tokens <= 0 ==> r == Err::<u64, TokenVotesError>(
            TokenVotesError::InvalidEmissionConfigError,
        ) && *final(emissions) == *old(emissions),
        new_expiration > now && new_tokens > 0 ==> {
            let eps = tokens_to_emit(*old(emissions), new_tokens as int, now) / (new_expiration - now);
            &&& r == Ok::<u64, TokenVotesError>(eps as u64)
            &&& *final(emissions) == Some(
                Emissions {
                    config: EmissionConfig { expiration: new_expiration, eps: eps as u64 },
                    data: match *old(emissions) {
                        Some(em) => EmissionData {
                            index: match updated_emission_data(
                                em.data,
                                em.config,
                                total_supply as int,
                                now,
                            ) {
                                Some(d) => d.index,
                                None => em.data.index,
                            },
                            last_time: now,
                        },
                        None => EmissionData { index: 0, last_time: now },
                    },
                },
            )
        },
{
    if new_expiration <= now || new_tokens <= 0 {
        return Err(TokenVotesError::InvalidEmissionConfigError);
    }
    let mut tokens_left_to_emit = new_tokens;
    let emis_data = match emissions {
        Some(em) => {
            // bring the data up to date with the old schedule
            let mut emis_data = match update_emission_data(now, &em.data, &em.config, total_supply) {
                Some(data) => data,
                None => em.data,
            };
            if emis_data.last_time != now {
                // force the data to the current time
                emis_data.last_time = now;
            }
            // the tokens the old schedule has not emitted yet
            if em.config.expiration > now {
                let time_left = em.config.expiration - now;
                assert(0 <= em.config.eps * time_left) by (nonlinear_arith)
                    requires
                        0 <= em.config.eps,
                        0 <= time_left,
                ;
                let tokens_since_last_emission = (em.config.eps * time_left) as i128;
                tokens_left_to_emit = tokens_left_to_emit + tokens_since_last_emission;
            }
            emis_data
        },
        None => {
            // first schedule: the index starts now
            EmissionData { index: 0, last_time: now }
        },
    };
    let delta_seconds = (new_expiration - now) as i128;
    let eps = (tokens_left_to_emit / delta_seconds) as u64;
    *emissions = Some(
        Emissions { config: EmissionConfig { expiration: new_expiration, eps }, data: emis_data },
    );
    Ok(eps)
}

/// The emissions a holder can claim at `now`: what it accrued up to its last
/// update and what its balance earned since.
pub open spec fn claimable(
    emissions: Option<Emissions>,
    user: Option<UserEmissionData>,
    total_supply: int,
    balance: int,
    now: u64,
) -> int {
    match user_emissions_after(emissions, user, total_supply, balance, now) {
        Some(u) => u.accrued as int,
        None => 0,
    }
}

/// Whether setting a schedule stays within its types: `set_emissions_fits`
/// computed.
pub fn check_set_emissions(
    now: u64,
    emissions: &Option<Emissions>,
    total_supply: i128,
    new_tokens: i128,
    new_expiration: u64,
) -> (r: bool)
    requires
        total_supply >= 0,
    ensures
        r == set_emissions_fits(*emissions, total_supply as int, new_tokens as int, new_expiration, now),
{
    let mut to_emit: i128 = new_tokens;
    match emissions {
        Some(em) => {
            if checked_index(&em.data, &em.config, total_supply, now).is_none() {
                return false;
            }
            if em.config.expiration > now {
                let left = match em.config.eps.checked_mul(em.config.expiration - now) {
                    Some(v) => v,
                    None => {
                        return false;
                    },
                };
                to_emit = match new_tokens.checked_add(left as i128) {
                    Some(v) => v,
                    None => {
                        return false;
                    },
                };
            }
        },
        None => {},
    }
    if new_expiration > now && new_tokens > 0 {
        let seconds = (new_expiration - now) as i128;
        let eps = to_emit / seconds;
        proof {
            assert(to_emit >= 0);
        }
        eps <= u64::MAX as i128
    } else {
        true
    }
}

/// The emissions a holder can claim at `now`: `claimable` computed.
pub fn claimable_amount(
    now: u64,
    emissions: &Option<Emissions>,
    user: &Option<UserEmissionData>,
    total_supply: i128,
    balance: i128,
) -> (r: i128)
    requires
        total_supply >= 0,
        emissions_update_fits(*emissions, *user, total_supply as int, balance as int, now),
    ensures
        r == claimable(*emissions, *user, total_supply as int, balance as int, now),
{
    let mut emissions_after = *emissions;
    let mut user_after = *user;
    update_emissions(now, &mut emissions_after, total_supply, &mut user_after, balance);
    match user_after {
        Some(u) => u.accrued,
        None => 0,
    }
}

/// Claims the emissions of `holder` into its balance: brings the emissions up to
/// `now`, zeroes what the holder accrued and mints it to the holder. Returns the
/// amount claimed; zero while no emissions are set.
///
/// Fails as `mint_balance` does when the claimed amount cannot be minted; a refused
/// claim changes nothing.
pub fn claim_emissions(
    vote_ledgers: &soroban_sdk::Vec<u32>,
    now: u32,
    now_time: u64,
    supply: &mut VotingHistory,
    emissions: &mut Option<Emissions>,
    holder: &mut Holder,
    delegate: &mut VotingHistory,
) -> (r: Result<i128, TokenVotesError>)
    requires
        old(supply).ready(now),
        old(delegate).ready(now),
        emissions_update_fits(
            *old(emissions),
            old(holder).emissions,
            old(supply).current_amount(),
            old(holder).balance as int,
            now_time,
        ),
        ({
            let to_claim = claimable(
                *old(emissions),
                old(holder).emissions,
                old(supply).current_amount(),
                old(holder).balance as int,
                now_time,
            );
            *old(emissions) is Some && to_claim > 0 && mint_outcome(*old(supply), *old(delegate), to_claim)
                is Ok ==> old(holder).balance + to_claim <= i128::MAX
        }),
    ensures
        *old(emissions) is None ==> r == Ok::<i128, TokenVotesError>(0) && *final(supply) == *old(supply) && *final(emissions) == *old(emissions) && *final(holder) == *old(holder)
            && *final(delegate) == *old(delegate),
        *old(emissions) is Some ==> {
            let total_supply = old(supply).current_amount();
            let balance = old(holder).balance as int;
            let to_claim = claimable(*old(emissions), old(holder).emissions, total_supply, balance, now_time);
            let user = user_emissions_after(*old(emissions), old(holder).emissions, total_supply, balance, now_time);
            let new_supply = total_supply + to_claim;
            &&& to_claim <= 0 ==> {
                &&& r == Ok::<i128, TokenVotesError>(to_claim as i128)
                &&& *final(emissions) == emissions_after(*old(emissions), total_supply, now_time)
                &&& final(holder).emissions == user
                &&& final(holder).balance == old(holder).balance
                &&& *final(supply) == *old(supply)
                &&& *final(delegate) == *old(delegate)
            }
            &&& to_claim > 0 ==> {
                &&& mint_outcome(*old(supply), *old(delegate), to_claim) matches Err(e) ==> r
                    == Err::<i128, TokenVotesError>(e)
                &&& mint_outcome(*old(supply), *old(delegate), to_claim) is Ok ==> r is Ok
                // a refused claim changes nothing
                &&& r is Err ==> *final(supply) == *old(supply) && *final(emissions) == *old(
                    emissions) && *final(holder) == *old(holder) && *final(delegate) == *old(delegate)
                &&& r is Ok ==> {
                    &&& r == Ok::<i128, TokenVotesError>(to_claim as i128)
                    &&& *final(emissions) == emissions_after(*old(emissions), total_supply, now_time)
                    &&& final(holder).emissions == Some(
                        UserEmissionData { index: user.unwrap().index, accrued: 0 },
                    )
                    &&& final(holder).balance == old(holder).balance + to_claim
                    &&& recorded(*old(supply), *final(supply), ledger_list(*vote_ledgers), now, new_supply)
                    &&& recorded(
                        *old(delegate),
                        *final(delegate),
                        ledger_list(*vote_ledgers),
                        now,
                        old(delegate).current_amount() + to_claim,
                    )
                }
            }
        },
{
    let total_supply = supply.amount();
    let balance = holder.balance;
    if emissions.is_none() {
        return Ok(0);
    }
    // bring the emissions up to date on copies, committed once the claim can go through
    let mut emissions_after = *emissions;
    let mut user_after = holder.emissions;
    update_emissions(now_time, &mut emissions_after, total_supply, &mut user_after, balance);
    let mut user_data = match user_after {
        Some(data) => data,
        // never reached: an update with emissions set leaves user data
        None => UserEmissionData { index: 0, accrued: 0 },
    };
    let to_claim = user_data.accrued;
    if to_claim > 0 {
        // check the mint before changing anything
        let checked = check_mint(supply, delegate, to_claim);
        if checked.is_err() {
            return match checked {
                Err(e) => Err(e),
                Ok(()) => Ok(0),
            };
        }
        user_data.accrued = 0;
        *emissions = emissions_after;
        holder.emissions = Some(user_data);
        let _ = mint_balance(vote_ledgers, now, now_time, supply, emissions, holder, delegate, to_claim);
        Ok(to_claim)
    } else {
        *emissions = emissions_after;
        holder.emissions = Some(user_data);
        Ok(to_claim)
    }
}

/// The global index only grows, and its time never runs backwards: bringing it up
/// to `now` never lowers it.
pub proof fn lemma_index_grows(data: EmissionData, config: EmissionConfig, total_supply: int, now: u64)
    requires
        total_supply >= 0,
        index_update_fits(data, config, total_supply, now),
    ensures
        updated_emission_data(data, config, total_supply, now) matches Some(d) ==> d.index
            >= data.index && d.last_time == now,
{
    if index_outdated(data, config, total_supply, now) {
        assert(emitted(data, config, now) >= 0) by (nonlinear_arith)
            requires
                accrual_end(config, now) >= data.last_time,
                config.eps >= 0,
                emitted(data, config, now) == (accrual_end(config, now) - data.last_time)
                    * config.eps,
        ;
        assert(index_increase(data, config, total_supply, now) >= 0) by (nonlinear_arith)
            requires
                emitted(data, config, now) >= 0,
                total_supply > 0,
                index_increase(data, config, total_supply, now) == emitted(data, config, now)
                    * SCALAR_7 / total_supply,
        ;
    }
}

/// The index never promises more than the schedule emits: the growth of the index
/// over the whole supply is at most what was emitted since the last update.
pub proof fn lemma_index_within_emitted(
    data: EmissionData,
    config: EmissionConfig,
    total_supply: int,
    now: u64,
)
    requires
        total_supply > 0,
        data.last_time <= now,
    ensures
        index_increase(data, config, total_supply, now) * total_supply <= emitted(data, config, now)
            * SCALAR_7,
{
    let x = emitted(data, config, now) * SCALAR_7;
    vstd::arithmetic::div_mod::lemma_fundamental_div_mod(x, total_supply);
    vstd::arithmetic::div_mod::lemma_mod_bound(x, total_supply);
    assert((x / total_supply) * total_supply <= x) by (nonlinear_arith)
        requires
            x == total_supply * (x / total_supply) + x % total_supply,
            x % total_supply >= 0,
    ;
}

/// A holder's accrued emissions never shrink while it holds a non-negative balance:
/// moving its data up the index only adds to them.
pub proof fn lemma_accrual_grows(user: UserEmissionData, index: i128, balance: int)
    requires
        balance >= 0,
        user_update_fits(Some(user), index, balance),
    ensures
        updated_user_emissions(Some(user), index, balance) matches Some(u) ==> u.accrued as int
            >= user.accrued && u.index == index,
{
    if user.index < index && balance != 0 {
        assert(accrual(balance, index - user.index) >= 0) by (nonlinear_arith)
            requires
                balance >= 0,
                index - user.index > 0,
                accrual(balance, index - user.index) == balance * (index - user.index) / (
                SCALAR_7 as int),
        ;
    }
}

} // verus!
