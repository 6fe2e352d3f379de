//! Every operation keeps the registry consistent.

use crate::power::lemma_power_positive;
use crate::rank::lemma_update_preserves_wf;
use crate::records::{Candidate, GUEST_RANK};
use crate::state::{vote_live, State};
use vstd::prelude::*;

verus! {

/// A rank update that stores a well-formed record keeps the registry
/// consistent, provided the record still names the application that the
/// votes on the account were cast for.
pub proof fn lemma_updated_rank_wf(state: State, now: u64, account: u64, candidate: Candidate<u64>)
    requires
        state.wf(),
        candidate.wf(),
        candidate.intended_rank > GUEST_RANK,
    ensures
        state.with_updated_rank(now, account, candidate).wf(),
{
    let result = state.result(account, candidate.challenge_start);
    lemma_update_preserves_wf(state.params, now, candidate, result);
}

/// In a consistent registry the slot that the index names holds a live vote
/// on that candidate.
pub proof fn lemma_indexed_vote_is_live(state: State, voter: u64, candidate: u64)
    requires
        state.wf(),
        state.vote_index(voter, candidate) != 0,
    ensures
        vote_live(
            state.params,
            state.votes_of_owner_by_index(voter, state.vote_index(voter, candidate)),
        ),
        state.votes_of_owner_by_index(voter, state.vote_index(voter, candidate)).account
            == candidate,
{
    assert(state.vote_index.contains_key((voter, candidate)));
    let slot = state.vote_index[(voter, candidate)];
    assert(state.votes.contains_key((voter, slot)));
}

/// Storing a live vote of a voter that holds none on the candidate keeps the
/// registry consistent.
pub proof fn lemma_with_vote_wf(state: State, sender: u64, candidate: u64, stake: u64, lock_time: u64, now: u64, opposing: bool)
    requires
        state.wf(),
        state.vote_index(sender, candidate) == 0,
        state.candidate_by_account(candidate).intended_rank > GUEST_RANK,
        state.vote_count(sender) + 1 <= u64::MAX,
        stake >= state.params.min_stake,
        lock_time >= state.params.min_lock,
    ensures
        state.with_vote(
            sender,
            candidate,
            if opposing {
                State::opposing_vote(candidate, stake, lock_time, now)
            } else {
                state.supporting_vote(candidate, stake, lock_time, now)
            },
        ).wf(),
{
    let vote = if opposing {
        State::opposing_vote(candidate, stake, lock_time, now)
    } else {
        state.supporting_vote(candidate, stake, lock_time, now)
    };
    let after = state.with_vote(sender, candidate, vote);
    let slot = (state.vote_count(sender) + 1) as u64;
    assert(vote_live(state.params, vote));
    assert(!state.votes.contains_key((sender, slot))) by {
        if state.votes.contains_key((sender, slot)) {
            let held = state.votes[(sender, slot)];
            assert(state.vote_index.contains_key((sender, held.account)));
        }
    }
    assert forall|voter: u64, target: u64| #[trigger]
        after.vote_index.contains_key((voter, target)) implies {
        let at = after.vote_index[(voter, target)];
        &&& 1 <= at <= after.vote_count(voter)
        &&& after.votes.contains_key((voter, at))
        &&& after.votes[(voter, at)].account == target
        &&& after.candidate_by_account(target).intended_rank > GUEST_RANK
    } by {
        if (voter, target) != (sender, candidate) {
            assert(state.vote_index.contains_key((voter, target)));
        }
    }
    assert forall|voter: u64, at: u64| #[trigger] after.votes.contains_key((voter, at)) implies {
        let held = after.votes[(voter, at)];
        &&& vote_live(after.params, held)
        &&& after.vote_index.contains_key((voter, held.account))
        &&& after.vote_index[(voter, held.account)] == at
    } by {
        if (voter, at) != (sender, slot) {
            assert(state.votes.contains_key((voter, at)));
            let held = state.votes[(voter, at)];
            assert(state.vote_index.contains_key((voter, held.account)));
        }
    }
}

/// A supporting vote that is not rejected keeps the registry consistent.
pub proof fn lemma_after_vote_wf(state: State, sender: u64, candidate: u64, stake: u64, lock_time: u64, now: u64)
    requires
        state.wf(),
        state.vote_rejection(sender, candidate, stake, lock_time) is None,
    ensures
        state.after_vote(sender, candidate, stake, lock_time, now).wf(),
{
    lemma_with_vote_wf(state, sender, candidate, stake, lock_time, now, false);
    let record = state.candidate_by_account(candidate);
    let stored = state.with_vote(
        sender,
        candidate,
        state.supporting_vote(candidate, stake, lock_time, now),
    );
    lemma_updated_rank_wf(
        stored,
        now,
        candidate,
        Candidate { votes_for: (record.votes_for + state.power(stake, lock_time)) as u64, ..record },
    );
}

/// An opposing vote that is not rejected keeps the registry consistent.
pub proof fn lemma_after_challenge_wf(state: State, sender: u64, candidate: u64, stake: u64, lock_time: u64, now: u64)
    requires
        state.wf(),
        state.challenge_rejection(sender, candidate, stake, lock_time) is None,
    ensures
        state.after_challenge(sender, candidate, stake, lock_time, now).wf(),
{
    lemma_with_vote_wf(state, sender, candidate, stake, lock_time, now, true);
    lemma_accepted_vote_has_weight(state, stake, lock_time);
}

/// An application that is not rejected keeps the registry consistent.
pub proof fn lemma_after_promotion_wf(state: State, sender: u64, now: u64)
    requires
        state.wf(),
        state.promotion_rejection(sender, now) is None,
    ensures
        state.after_promotion(sender, now).wf(),
{
    lemma_updated_rank_wf(state, now, sender, state.application(sender, now));
}

/// A withdrawal that is not rejected keeps the registry consistent.
pub proof fn lemma_after_cancel_wf(state: State, sender: u64, candidate: u64, now: u64)
    requires
        state.wf(),
        state.cancel_rejection(sender, candidate, now) is None,
    ensures
        state.after_cancel(sender, candidate, now).wf(),
{
    let index = state.vote_index(sender, candidate);
    let vote = state.votes_of_owner_by_index(sender, index);
    let record = state.settled_candidate(candidate, now);
    assert(state.vote_index.contains_key((sender, candidate)));
    assert(state.votes.contains_key((sender, index)));
    let cleared = State {
        votes: state.votes.remove((sender, index)),
        vote_index: state.vote_index.remove((sender, candidate)),
        results: if state.settles(candidate, now) {
            state.results.insert(
                (candidate, state.candidate_by_account(candidate).challenge_start),
                state.settlement(candidate),
            )
        } else {
            state.results
        },
        ..state
    };
    assert forall|voter: u64, target: u64| #[trigger]
        cleared.vote_index.contains_key((voter, target)) implies {
        let at = cleared.vote_index[(voter, target)];
        &&& 1 <= at <= cleared.vote_count(voter)
        &&& cleared.votes.contains_key((voter, at))
        &&& cleared.votes[(voter, at)].account == target
        &&& cleared.candidate_by_account(target).intended_rank > GUEST_RANK
    } by {
        assert(state.vote_index.contains_key((voter, target)));
    }
    assert forall|voter: u64, at: u64| #[trigger] cleared.votes.contains_key((voter, at)) implies {
        let held = cleared.votes[(voter, at)];
        &&& vote_live(cleared.params, held)
        &&& cleared.vote_index.contains_key((voter, held.account))
        &&& cleared.vote_index[(voter, held.account)] == at
    } by {
        assert(state.votes.contains_key((voter, at)));
        let held = state.votes[(voter, at)];
        assert(state.vote_index.contains_key((voter, held.account)));
    }
    assert(cleared.wf());
    assert(record.wf());
    lemma_updated_rank_wf(
        cleared,
        now,
        candidate,
        Candidate {
            votes_for: (record.votes_for - state.power(vote.stake_for, vote.lock_time)) as u64,
            ..record
        },
    );
}

/// A vote that is accepted weighs at least one unit.
pub proof fn lemma_accepted_vote_has_weight(state: State, stake: u64, lock_time: u64)
    requires
        state.params.wf(),
        stake >= state.params.min_stake,
        lock_time >= state.params.min_lock,
    ensures
        state.power(stake, lock_time) >= 1,
{
    lemma_power_positive(
        stake as nat,
        lock_time as nat,
        state.params.min_stake as nat,
        state.params.min_lock as nat,
    );
}

} // verus!
