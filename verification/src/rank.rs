//! The rank-update algorithm: how a candidate's held rank follows its support
//! and the outcome of its last challenge.

use crate::params::Params;
use crate::records::{
    Candidate, ChallengeResult, ADMIRAL_RANK, CAPTAIN_RANK, CREW_RANK, ENGINEER_RANK, GUEST_RANK,
    SECTION31_RANK,
};
use vstd::prelude::*;

verus! {

/// Whether ranks are frozen at height `now`: a challenge is open, and fewer
/// than `challenge_lock` blocks have passed since it began.
pub open spec fn rank_frozen(params: Params, now: u64, candidate: Candidate<u64>) -> bool {
    candidate.challenge_start != 0 && now - candidate.challenge_start < params.challenge_lock
}

/// Whether the candidate is due the demotion that follows a successful
/// challenge: the challenge it names succeeded and was not yet acted on.
pub open spec fn demotion_due(candidate: Candidate<u64>, result: ChallengeResult) -> bool {
    candidate.challenge_start != 0 && result.success && !result.executed
}

/// The candidate after one step up the ladder, where its support allows it.
///
/// Only the rank applied for can be reached, and only when the support
/// strictly exceeds that rank's threshold.
pub open spec fn promoted(params: Params, candidate: Candidate<u64>) -> Candidate<u64> {
    match params.threshold(candidate.intended_rank) {
        Some(needed) => if candidate.votes_for > needed {
            Candidate { current_rank: candidate.intended_rank, ..candidate }
        } else {
            candidate
        },
        None => candidate,
    }
}

/// The candidate after a rank update at height `now`, where `result` is the
/// outcome recorded for the challenge that began at `challenge_start`.
pub open spec fn updated_candidate(
    params: Params,
    now: u64,
    candidate: Candidate<u64>,
    result: ChallengeResult,
) -> Candidate<u64> {
    if rank_frozen(params, now, candidate) {
        candidate
    } else if demotion_due(candidate, result) {
        Candidate { current_rank: GUEST_RANK, votes_for: 0, ..candidate }
    } else {
        promoted(params, candidate)
    }
}

/// Whether a rank update at height `now` demotes, and so marks `result` as
/// executed.
pub open spec fn update_demotes(
    params: Params,
    now: u64,
    candidate: Candidate<u64>,
    result: ChallengeResult,
) -> bool {
    !rank_frozen(params, now, candidate) && demotion_due(candidate, result)
}

/// The outcome record after a rank update at height `now`.
pub open spec fn updated_result(
    params: Params,
    now: u64,
    candidate: Candidate<u64>,
    result: ChallengeResult,
) -> ChallengeResult {
    if update_demotes(params, now, candidate, result) {
        ChallengeResult { executed: true, ..result }
    } else {
        result
    }
}

/// Runs the rank update on `candidate` at height `now`.
///
/// `result` is the outcome recorded for the challenge that began at the
/// candidate's `challenge_start`. The second component says whether the
/// candidate was demoted; the caller then records the outcome as executed.
pub fn return_updated_rank(
    params: &Params,
    now: u64,
    candidate: Candidate<u64>,
    result: ChallengeResult,
) -> (updated: (Candidate<u64>, bool))
    ensures
        updated.0 == updated_candidate(*params, now, candidate, result),
        updated.1 == update_demotes(*params, now, candidate, result),
{
    let mut candidate = candidate;
    let mut demoted = false;
    // Ranks do not change while a challenge is fresh.
    let window_passed = now >= candidate.challenge_start && now - candidate.challenge_start
        >= params.challenge_lock;
    if candidate.challenge_start == 0 || window_passed {
        if candidate.challenge_start != 0 && result.success && !result.executed {
            candidate.current_rank = GUEST_RANK;
            candidate.votes_for = 0;
            demoted = true;
        } else if candidate.votes_for > params.admiral_stake && candidate.intended_rank
            == ADMIRAL_RANK {
            candidate.current_rank = ADMIRAL_RANK;
        } else if candidate.votes_for > params.section31_stake && candidate.intended_rank
            == SECTION31_RANK {
            candidate.current_rank = SECTION31_RANK;
        } else if candidate.votes_for > params.captain_stake && candidate.intended_rank
            == CAPTAIN_RANK {
            candidate.current_rank = CAPTAIN_RANK;
        } else if candidate.votes_for > params.engineer_stake && candidate.intended_rank
            == ENGINEER_RANK {
            candidate.current_rank = ENGINEER_RANK;
        } else if candidate.votes_for > params.crew_stake && candidate.intended_rank
            == CREW_RANK {
            candidate.current_rank = CREW_RANK;
        }
    }
    (candidate, demoted)
}

/// A rank update keeps a well-formed candidate well-formed, and touches
/// nothing but the held rank and the accumulated support.
pub proof fn lemma_update_preserves_wf(
    params: Params,
    now: u64,
    candidate: Candidate<u64>,
    result: ChallengeResult,
)
    requires
        candidate.wf(),
    ensures
        updated_candidate(params, now, candidate, result).wf(),
        updated_candidate(params, now, candidate, result).intended_rank
            == candidate.intended_rank,
        updated_candidate(params, now, candidate, result).votes_against
            == candidate.votes_against,
        updated_candidate(params, now, candidate, result).last_change == candidate.last_change,
        updated_candidate(params, now, candidate, result).challenge_start
            == candidate.challenge_start,
{
}

/// The demotion that follows a successful challenge is applied exactly once.
///
/// The rank update that finds the outcome successful and not yet executed
/// sends the candidate back to the guest rank, clears its support and marks
/// the outcome as executed. Against an outcome so marked no rank update
/// demotes, whatever the record and the height: it leaves the support and the
/// outcome as they are.
pub proof fn lemma_demotion_happens_once(
    params: Params,
    now: u64,
    later: u64,
    candidate: Candidate<u64>,
    result: ChallengeResult,
    next: Candidate<u64>,
)
    requires
        update_demotes(params, now, candidate, result),
    ensures
        updated_candidate(params, now, candidate, result).current_rank == GUEST_RANK,
        updated_candidate(params, now, candidate, result).votes_for == 0,
        updated_result(params, now, candidate, result) == (ChallengeResult {
            success: true,
            executed: true,
        }),
        !update_demotes(params, later, next, updated_result(params, now, candidate, result)),
        updated_candidate(
            params,
            later,
            next,
            updated_result(params, now, candidate, result),
        ).votes_for == next.votes_for,
        updated_result(params, later, next, updated_result(params, now, candidate, result))
            == updated_result(params, now, candidate, result),
{
}

} // verus!
