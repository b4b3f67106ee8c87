//! Verified core of a Soroban DAO: the governor's proposal rules and the votes
//! token's balance, delegation, checkpoint and emission bookkeeping.
pub mod checkpoints;
pub mod errors;
pub mod ledger_vec;
pub mod emissions;
pub mod fixed_point;
pub mod voting_units;
pub mod balance;
pub mod votes;
pub mod types;
pub mod vote_count;
pub mod constants;
pub mod settings;
pub mod governor;
