//! The decisions of the registry on plain values: whether a vote may be
//! placed, and whether one may be withdrawn.

use crate::params::Params;
use crate::payout::{payout, unstake_amount, unstake_rejection};
use crate::power::{calculate_voting_power, voting_power};
use crate::records::{Candidate, Error, Vote, GUEST_RANK};
use vstd::prelude::*;

verus! {

/// The weight of `stake` locked for `lock_time` under `params`.
pub open spec fn weight(params: Params, stake: u64, lock_time: u64) -> nat {
    voting_power(stake as nat, lock_time as nat, params.min_stake as nat, params.min_lock as nat)
}

/// Why a vote on a candidate with the given intended rank is refused, if it
/// is: the target has no open application, the lock is too short, or the
/// voter's place on the candidate is taken.
pub open spec fn vote_refusal(
    params: Params,
    intended_rank: u16,
    vote_index: u64,
    lock_time: u64,
) -> Option<Error> {
    if !(intended_rank > GUEST_RANK) {
        Some(Error::VoteRank)
    } else if !(lock_time >= params.min_lock) {
        Some(Error::VoteMinLock)
    } else if vote_index != 0 {
        Some(Error::VoteDouble)
    } else {
        None
    }
}

/// Why a voter may not lock `stake` for `lock_time` on one side of a
/// candidate, if it may not.
///
/// `vote_index` is the voter's place on the candidate, `vote_count` the
/// number of slots the voter has used, `tally` the weight already on that
/// side. The grounds are tried in this order: those of [`vote_refusal`]; a
/// stake below the minimum; a slot counter that would overflow; a tally that
/// would.
pub open spec fn stake_refusal(
    params: Params,
    intended_rank: u16,
    vote_index: u64,
    vote_count: u64,
    tally: u64,
    stake: u64,
    lock_time: u64,
) -> Option<Error> {
    let refusal = vote_refusal(params, intended_rank, vote_index, lock_time);
    if refusal is Some {
        refusal
    } else if !(stake >= params.min_stake) {
        Some(Error::VoteMinStake)
    } else if vote_count + 1 > u64::MAX {
        Some(Error::OverflowCount)
    } else if tally + weight(params, stake, lock_time) > u64::MAX {
        Some(Error::OverflowVotes)
    } else {
        None
    }
}

/// Why a vote may not be withdrawn at height `now`, if it may not.
///
/// `vote_index` is the voter's place on the candidate and `vote` what its
/// slot holds; `record` is the candidate after a challenge whose window ran
/// out was closed; `success` is the outcome that decides the payout. The
/// grounds are tried in this order: the voter holds no vote; the candidate's
/// challenge is open and began at or after the vote; those of
/// [`unstake_rejection`]; a vote that weighs more than the support the
/// candidate has left.
pub open spec fn cancel_refusal(
    params: Params,
    vote_index: u64,
    vote: Vote<u64, u64, u64>,
    record: Candidate<u64>,
    success: bool,
    now: u64,
) -> Option<Error> {
    if vote_index == 0 {
        Some(Error::VoteExist)
    } else if record.challenge_start != 0 && record.challenge_start >= vote.vote_time {
        Some(Error::VoteLockChallenge)
    } else if unstake_rejection(params, vote, now, success) is Some {
        unstake_rejection(params, vote, now, success)
    } else if record.votes_for < weight(params, vote.stake_for, vote.lock_time) {
        Some(Error::Underflow)
    } else {
        None
    }
}

/// Decides whether a vote may be placed on a candidate with the given
/// intended rank, by a voter whose place on that candidate is `vote_index`.
pub fn check_vote(params: &Params, intended_rank: u16, vote_index: u64, lock_time: u64) -> (checked:
    Result<(), Error>)
    ensures
        match vote_refusal(*params, intended_rank, vote_index, lock_time) {
            Some(reason) => checked == Err::<(), Error>(reason),
            None => checked is Ok,
        },
{
    if !(intended_rank > GUEST_RANK) {
        return Err(Error::VoteRank);
    }
    if !(lock_time >= params.min_lock) {
        return Err(Error::VoteMinLock);
    }
    if vote_index != 0 {
        return Err(Error::VoteDouble);
    }
    Ok(())
}

/// Decides whether a voter may lock `stake` for `lock_time` on one side of a
/// candidate, and computes the new tally of that side.
pub fn check_stake(
    params: &Params,
    intended_rank: u16,
    vote_index: u64,
    vote_count: u64,
    tally: u64,
    stake: u64,
    lock_time: u64,
) -> (checked: Result<u64, Error>)
    requires
        params.wf(),
    ensures
        match stake_refusal(
            *params,
            intended_rank,
            vote_index,
            vote_count,
            tally,
            stake,
            lock_time,
        ) {
            Some(reason) => checked == Err::<u64, Error>(reason),
            None => checked == Ok::<u64, Error>(
                (tally + weight(*params, stake, lock_time)) as u64,
            ),
        },
{
    match check_vote(params, intended_rank, vote_index, lock_time) {
        Err(reason) => {
            return Err(reason);
        },
        Ok(()) => {},
    }
    if !(stake >= params.min_stake) {
        return Err(Error::VoteMinStake);
    }
    if vote_count == u64::MAX {
        return Err(Error::OverflowCount);
    }
    let power = match calculate_voting_power(stake, lock_time, params.min_stake, params.min_lock) {
        Some(power) => power,
        None => {
            return Err(Error::OverflowVotes);
        },
    };
    match tally.checked_add(power) {
        Some(sum) => Ok(sum),
        None => Err(Error::OverflowVotes),
    }
}

/// Decides whether a vote may be withdrawn at height `now`, and computes
/// what it pays.
pub fn check_cancel(
    params: &Params,
    vote_index: u64,
    vote: &Vote<u64, u64, u64>,
    record: &Candidate<u64>,
    success: bool,
    now: u64,
) -> (checked: Result<u64, Error>)
    requires
        params.wf(),
    ensures
        match cancel_refusal(*params, vote_index, *vote, *record, success, now) {
            Some(reason) => checked == Err::<u64, Error>(reason),
            None => checked == Ok::<u64, Error>(payout(*vote, now, success) as u64) && payout(
                *vote,
                now,
                success,
            ) <= u64::MAX,
        },
{
    if vote_index == 0 {
        return Err(Error::VoteExist);
    }
    // A vote that an open challenge covers stays where it is.
    if record.challenge_start != 0 && record.challenge_start >= vote.vote_time {
        return Err(Error::VoteLockChallenge);
    }
    let paid = match unstake_amount(params, vote, now, success) {
        Err(reason) => {
            return Err(reason);
        },
        Ok(paid) => paid,
    };
    match calculate_voting_power(vote.stake_for, vote.lock_time, params.min_stake, params.min_lock) {
        Some(power) => {
            if record.votes_for < power {
                return Err(Error::Underflow);
            }
        },
        None => {
            return Err(Error::Underflow);
        },
    }
    Ok(paid)
}

} // verus!
