//! What holds of the operations over every consistent registry.

use crate::consistency::lemma_indexed_vote_is_live;
use crate::power::lemma_power_of_no_stake;
use crate::rank::{lemma_demotion_happens_once, update_demotes};
use crate::records::{Candidate, ChallengeResult, Error, Vote, ADMIRAL_RANK, GUEST_RANK};
use crate::state::State;
use vstd::prelude::*;

verus! {

/// An account that applied must wait before it applies again.
///
/// After an application accepted at a height `first` above zero, a second one
/// at height `second` is rejected as too soon for as long as fewer than
/// `rank_lock` blocks separate the two. From then on it is accepted unless
/// the account holds the highest rank, and it aims exactly one rank above the
/// rank then held; for an account that reached the rank it first applied for,
/// that is one above its former aim.
pub proof fn lemma_application_cooldown(state: State, sender: u64, first: u64, second: u64)
    requires
        state.wf(),
        state.promotion_rejection(sender, first) is None,
        first != 0,
    ensures
        ({
            let applied = state.after_promotion(sender, first);
            let held = applied.candidate_by_account(sender);
            &&& held.last_change == first
            &&& held.intended_rank == state.candidate_by_account(sender).current_rank + 1
            &&& second - first < state.params.rank_lock ==> applied.promotion_rejection(
                sender,
                second,
            ) == Some(Error::RankLock)
            &&& second - first >= state.params.rank_lock && held.current_rank < ADMIRAL_RANK
                ==> {
                &&& applied.promotion_rejection(sender, second) is None
                &&& applied.after_promotion(sender, second).candidate_by_account(
                    sender,
                ).intended_rank == held.current_rank + 1
                &&& held.current_rank == held.intended_rank ==> applied.after_promotion(
                    sender,
                    second,
                ).candidate_by_account(sender).intended_rank == held.intended_rank + 1
            }
            &&& second - first >= state.params.rank_lock && held.current_rank >= ADMIRAL_RANK
                ==> applied.promotion_rejection(sender, second) == Some(Error::RankLower)
        }),
{
}

/// A voter cannot vote twice on one candidate.
///
/// While `sender` holds a vote on `candidate`, every further vote of it on
/// that candidate, on either side and with whatever stake, is rejected as a
/// duplicate, provided its lock reaches the minimum; a shorter lock is
/// rejected for being too short.
pub proof fn lemma_double_vote_rejected(state: State, sender: u64, candidate: u64, stake: u64, lock_time: u64)
    requires
        state.wf(),
        state.vote_index(sender, candidate) != 0,
    ensures
        lock_time >= state.params.min_lock ==> state.vote_rejection(
            sender,
            candidate,
            stake,
            lock_time,
        ) == Some(Error::VoteDouble) && state.challenge_rejection(
            sender,
            candidate,
            stake,
            lock_time,
        ) == Some(Error::VoteDouble),
        lock_time < state.params.min_lock ==> state.vote_rejection(
            sender,
            candidate,
            stake,
            lock_time,
        ) == Some(Error::VoteMinLock) && state.challenge_rejection(
            sender,
            candidate,
            stake,
            lock_time,
        ) == Some(Error::VoteMinLock),
{
    assert(state.vote_index.contains_key((sender, candidate)));
}

/// An accepted vote, on either side, is held from then on.
pub proof fn lemma_vote_is_held_once_cast(state: State, sender: u64, candidate: u64, stake: u64, lock_time: u64, now: u64)
    requires
        state.wf(),
    ensures
        state.vote_rejection(sender, candidate, stake, lock_time) is None ==> state.after_vote(
            sender,
            candidate,
            stake,
            lock_time,
            now,
        ).vote_index(sender, candidate) != 0,
        state.challenge_rejection(sender, candidate, stake, lock_time) is None
            ==> state.after_challenge(sender, candidate, stake, lock_time, now).vote_index(
            sender,
            candidate,
        ) != 0,
{
}

/// A vote stays held until its voter withdraws it.
///
/// No application, no vote of anyone and no withdrawal of another vote
/// changes the slot that `voter` holds on `target`.
pub proof fn lemma_vote_is_held_until_cancelled(
    state: State,
    voter: u64,
    target: u64,
    sender: u64,
    candidate: u64,
    stake: u64,
    lock_time: u64,
    now: u64,
)
    requires
        state.wf(),
        state.vote_index(voter, target) != 0,
    ensures
        state.after_promotion(sender, now).vote_index(voter, target) == state.vote_index(
            voter,
            target,
        ),
        state.vote_rejection(sender, candidate, stake, lock_time) is None ==> state.after_vote(
            sender,
            candidate,
            stake,
            lock_time,
            now,
        ).vote_index(voter, target) == state.vote_index(voter, target),
        state.challenge_rejection(sender, candidate, stake, lock_time) is None
            ==> state.after_challenge(sender, candidate, stake, lock_time, now).vote_index(
            voter,
            target,
        ) == state.vote_index(voter, target),
        (sender, candidate) != (voter, target) ==> state.after_cancel(
            sender,
            candidate,
            now,
        ).vote_index(voter, target) == state.vote_index(voter, target),
{
    assert(state.vote_index.contains_key((voter, target)));
}

/// A withdrawal frees the voter's place on the candidate.
///
/// After `sender` withdrew its vote on `candidate` it holds none there: the
/// index reads 0, the slot is empty, and a new vote is no longer a duplicate.
/// The voter's counter stays where it was, so that the slot is not used again.
pub proof fn lemma_cancel_clears_the_index(state: State, sender: u64, candidate: u64, now: u64)
    requires
        state.wf(),
        state.cancel_rejection(sender, candidate, now) is None,
    ensures
        ({
            let after = state.after_cancel(sender, candidate, now);
            &&& after.vote_index(sender, candidate) == 0
            &&& after.votes_of_owner_by_index(sender, state.vote_index(sender, candidate))
                == Vote::<u64, u64, u64>::zero()
            &&& after.vote_count(sender) == state.vote_count(sender)
        }),
{
}

/// Withdrawing an opposing vote takes nothing out of the tallies.
///
/// Unless the withdrawal settles the challenge, the opposition stays as it
/// was; the support stays as it was unless the rank update that follows
/// demotes the candidate.
pub proof fn lemma_withdrawn_opposition_leaves_tallies(state: State, sender: u64, candidate: u64, now: u64)
    requires
        state.wf(),
        state.cancel_rejection(sender, candidate, now) is None,
        state.votes_of_owner_by_index(sender, state.vote_index(sender, candidate)).opposes(),
    ensures
        ({
            let before = state.candidate_by_account(candidate);
            let after = state.after_cancel(sender, candidate, now).candidate_by_account(candidate);
            &&& !state.settles(candidate, now) ==> after.votes_against == before.votes_against
            &&& after.votes_for == before.votes_for || after.votes_for == 0
        }),
{
    lemma_indexed_vote_is_live(state, sender, candidate);
    let vote = state.votes_of_owner_by_index(sender, state.vote_index(sender, candidate));
    lemma_power_of_no_stake(
        vote.lock_time as nat,
        state.params.min_stake as nat,
        state.params.min_lock as nat,
    );
}

/// A vote cannot be withdrawn while it is locked.
///
/// Until more than `lock_time` blocks have passed since the vote was cast, a
/// withdrawal is rejected: as still locked, unless an open challenge covers
/// the vote, which is then the reason given.
pub proof fn lemma_locked_vote_stays(state: State, sender: u64, candidate: u64, now: u64)
    requires
        state.wf(),
        state.vote_index(sender, candidate) != 0,
        now - state.votes_of_owner_by_index(
            sender,
            state.vote_index(sender, candidate),
        ).vote_time <= state.votes_of_owner_by_index(
            sender,
            state.vote_index(sender, candidate),
        ).lock_time,
    ensures
        ({
            let vote = state.votes_of_owner_by_index(sender, state.vote_index(sender, candidate));
            let record = state.settled_candidate(candidate, now);
            let covered = record.challenge_start != 0 && record.challenge_start >= vote.vote_time;
            state.cancel_rejection(sender, candidate, now) == Some(
                if covered {
                    Error::VoteLockChallenge
                } else {
                    Error::VoteLock
                },
            )
        }),
{
    lemma_indexed_vote_is_live(state, sender, candidate);
}

/// An open challenge holds the votes cast up to its start.
///
/// While a challenge that began at a height `H` above zero is at most
/// `challenge_lock` blocks old, no vote on the candidate cast at or before
/// `H` can be withdrawn: the withdrawal is rejected as covered by the
/// challenge. Once the window has passed, the challenge no longer stands in
/// the way.
pub proof fn lemma_challenge_holds_votes(state: State, sender: u64, candidate: u64, now: u64)
    requires
        state.wf(),
        state.vote_index(sender, candidate) != 0,
        state.candidate_by_account(candidate).challenge_start != 0,
        state.votes_of_owner_by_index(sender, state.vote_index(sender, candidate)).vote_time
            <= state.candidate_by_account(candidate).challenge_start,
    ensures
        now - state.candidate_by_account(candidate).challenge_start
            <= state.params.challenge_lock ==> state.cancel_rejection(sender, candidate, now)
            == Some(Error::VoteLockChallenge),
        now - state.candidate_by_account(candidate).challenge_start
            > state.params.challenge_lock ==> state.cancel_rejection(sender, candidate, now)
            != Some(Error::VoteLockChallenge),
{
    lemma_indexed_vote_is_live(state, sender, candidate);
    if state.candidates.contains_key(candidate) {
        assert(state.candidates[candidate].wf());
    }
}

/// A challenge is settled once, and its outcome starts out unexecuted.
///
/// The withdrawal that finds the window of a challenge run out records the
/// outcome under the height at which the challenge began: successful exactly
/// if the opposition outweighed the support, and not yet executed. It closes
/// the challenge, so that no later withdrawal settles it again.
pub proof fn lemma_settlement_is_recorded_once(state: State, sender: u64, candidate: u64, now: u64, later: u64)
    requires
        state.wf(),
        state.cancel_rejection(sender, candidate, now) is None,
        state.settles(candidate, now),
    ensures
        ({
            let before = state.candidate_by_account(candidate);
            let after = state.after_cancel(sender, candidate, now);
            &&& after.result(candidate, before.challenge_start) == (ChallengeResult {
                success: before.votes_against > before.votes_for,
                executed: false,
            })
            &&& after.candidate_by_account(candidate).votes_against == 0
            &&& after.candidate_by_account(candidate).challenge_start == 0
            &&& !after.settles(candidate, later)
        }),
{
    assert(state.vote_index.contains_key((sender, candidate)));
}

/// A successful challenge demotes its candidate once and never again.
///
/// The rank update of `account` that finds the outcome of its challenge
/// successful and not yet executed stores the record at the guest rank with
/// no support, and the outcome as executed. A later rank update of the
/// account under the same challenge, whatever support `next` has gathered
/// since, leaves that support and every outcome as they are.
pub proof fn lemma_demotion_is_executed_once(
    state: State,
    now: u64,
    later: u64,
    account: u64,
    candidate: Candidate<u64>,
    next: Candidate<u64>,
)
    requires
        update_demotes(
            state.params,
            now,
            candidate,
            state.result(account, candidate.challenge_start),
        ),
        next.challenge_start == candidate.challenge_start,
    ensures
        ({
            let demoted = state.with_updated_rank(now, account, candidate);
            let again = demoted.with_updated_rank(later, account, next);
            &&& demoted.candidate_by_account(account).current_rank == GUEST_RANK
            &&& demoted.candidate_by_account(account).votes_for == 0
            &&& demoted.result(account, candidate.challenge_start) == (ChallengeResult {
                success: true,
                executed: true,
            })
            &&& again.results == demoted.results
            &&& again.candidate_by_account(account).votes_for == next.votes_for
            &&& again.candidate_by_account(account).current_rank != next.current_rank
                ==> again.candidate_by_account(account).current_rank == next.intended_rank
        }),
{
    lemma_demotion_happens_once(
        state.params,
        now,
        later,
        candidate,
        state.result(account, candidate.challenge_start),
        next,
    );
}

} // verus!
