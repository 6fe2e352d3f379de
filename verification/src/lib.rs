//! A rank-based, stake-weighted registry with time-locked challenges.
//!
//! Accounts apply for promotion through a ladder of ranks. Other accounts
//! back or oppose a candidate by locking stake for a chosen number of blocks;
//! the weight of a vote grows linearly with the stake and quadratically with
//! the lock. A challenge suspends rank changes for a fixed window, after which
//! the first settlement decides it and the winning side withdraws with yield.
//!
//! The engine is a deterministic state-transition function: every operation
//! takes the current block height as a plain argument and answers with the
//! notification to emit. The only collaborator it calls is the balance ledger,
//! through [`Trait`].

pub mod checks;
pub mod consistency;
pub mod laws;
pub mod module;
pub mod params;
pub mod payout;
pub mod power;
pub mod rank;
pub mod records;
pub mod state;
pub mod table;

pub use crate::checks::{check_cancel, check_stake, check_vote};
pub use crate::module::{Module, Trait};
pub use crate::params::Params;
pub use crate::payout::unstake_amount;
pub use crate::power::{calculate_voting_power, calculate_yield};
pub use crate::rank::return_updated_rank;
pub use crate::records::{
    Candidate, ChallengeResult, Error, Event, Vote, ADMIRAL_RANK, CAPTAIN_RANK, CREW_RANK,
    ENGINEER_RANK, GUEST_RANK, SECTION31_RANK,
};
