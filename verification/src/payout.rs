//! What a withdrawn vote pays back, and when it may be withdrawn.

use crate::params::Params;
use crate::power::{accrued_yield, calculate_yield};
use crate::records::{Error, Vote};
use vstd::prelude::*;

verus! {

/// Whether the vote backed the side that `success` decides for: opposition
/// wins a successful challenge, support wins everything else.
pub open spec fn vote_won(vote: Vote<u64, u64, u64>, success: bool) -> bool {
    vote.opposes() == success
}

/// What the vote pays back at height `now`: the stake, and for the winning
/// side the yield accrued since the vote was cast.
pub open spec fn payout(vote: Vote<u64, u64, u64>, now: u64, success: bool) -> nat {
    if vote_won(vote, success) {
        vote.stake() as nat + accrued_yield(vote.stake() as nat, (now - vote.vote_time) as nat)
    } else {
        vote.stake() as nat
    }
}

/// Why the vote cannot be paid back at height `now`, if it cannot.
///
/// A slot whose stake is below the minimum holds no vote. A vote stays locked
/// until more than `lock_time` blocks have passed since it was cast.
pub open spec fn unstake_rejection(
    params: Params,
    vote: Vote<u64, u64, u64>,
    now: u64,
    success: bool,
) -> Option<Error> {
    if vote.stake() < params.min_stake {
        Some(Error::VoteExist)
    } else if !(now - vote.vote_time > vote.lock_time) {
        Some(Error::VoteLock)
    } else if payout(vote, now, success) > u64::MAX {
        Some(Error::OverflowPayout)
    } else {
        None
    }
}

/// Decides whether `vote` may be withdrawn at height `now` and computes what
/// it pays back, given whether the challenge it belongs to succeeded.
pub fn unstake_amount(params: &Params, vote: &Vote<u64, u64, u64>, now: u64, success: bool) -> (paid:
    Result<u64, Error>)
    ensures
        match unstake_rejection(*params, *vote, now, success) {
            Some(reason) => paid == Err::<u64, Error>(reason),
            None => paid == Ok::<u64, Error>(payout(*vote, now, success) as u64),
        },
{
    let voted_against = vote.stake_against != 0;
    let stake: u64 = if voted_against {
        vote.stake_against
    } else {
        vote.stake_for
    };
    if stake < params.min_stake {
        return Err(Error::VoteExist);
    }
    // The stake is out of reach until the lock has run out.
    if now <= vote.vote_time || now - vote.vote_time <= vote.lock_time {
        return Err(Error::VoteLock);
    }
    if voted_against == success {
        let earned: u128 = calculate_yield(stake, now - vote.vote_time);
        if earned > (u64::MAX - stake) as u128 {
            return Err(Error::OverflowPayout);
        }
        Ok(stake + earned as u64)
    } else {
        Ok(stake)
    }
}

} // verus!
