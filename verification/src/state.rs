//! The registry as a mathematical object: its tables, and what each operation
//! makes of them.

use crate::checks::{cancel_refusal, stake_refusal, weight};
use crate::params::Params;
use crate::payout::payout;
use crate::rank::{update_demotes, updated_candidate, updated_result};
use crate::records::{Candidate, ChallengeResult, Error, Vote, ADMIRAL_RANK, GUEST_RANK};
use vstd::prelude::*;

verus! {

/// Everything the registry remembers.
pub struct State {
    /// The configuration.
    pub params: Params,
    /// The record of each account that applied.
    pub candidates: Map<u64, Candidate<u64>>,
    /// The votes, by voter and slot.
    pub votes: Map<(u64, u64), Vote<u64, u64, u64>>,
    /// The number of slots each voter has used.
    pub vote_count: Map<u64, u64>,
    /// The slot of the vote a voter holds on a candidate.
    pub vote_index: Map<(u64, u64), u64>,
    /// The outcome of each settled challenge, by candidate and challenge.
    pub results: Map<(u64, u64), ChallengeResult>,
}

/// Whether the vote is one the registry can hold: it backs exactly one side
/// with at least the minimum stake, for at least the minimum lock.
pub open spec fn vote_live(params: Params, vote: Vote<u64, u64, u64>) -> bool {
    &&& (vote.stake_for == 0) != (vote.stake_against == 0)
    &&& vote.stake() >= params.min_stake
    &&& vote.lock_time >= params.min_lock
}

impl State {
    /// The registry with nothing in it.
    pub open spec fn empty(params: Params) -> State {
        State {
            params,
            candidates: Map::empty(),
            votes: Map::empty(),
            vote_count: Map::empty(),
            vote_index: Map::empty(),
            results: Map::empty(),
        }
    }

    /// The record of `account`; all zero if it never applied.
    pub open spec fn candidate_by_account(self, account: u64) -> Candidate<u64> {
        if self.candidates.contains_key(account) {
            self.candidates[account]
        } else {
            Candidate::<u64>::zero()
        }
    }

    /// The vote in slot `index` of `voter`; all zero if the slot is empty.
    pub open spec fn votes_of_owner_by_index(self, voter: u64, index: u64) -> Vote<u64, u64, u64> {
        if self.votes.contains_key((voter, index)) {
            self.votes[(voter, index)]
        } else {
            Vote::<u64, u64, u64>::zero()
        }
    }

    /// The number of slots `voter` has used.
    pub open spec fn vote_count(self, voter: u64) -> u64 {
        if self.vote_count.contains_key(voter) {
            self.vote_count[voter]
        } else {
            0
        }
    }

    /// The slot of the vote that `voter` holds on `candidate`; 0 for none.
    pub open spec fn vote_index(self, voter: u64, candidate: u64) -> u64 {
        if self.vote_index.contains_key((voter, candidate)) {
            self.vote_index[(voter, candidate)]
        } else {
            0
        }
    }

    /// The outcome of the challenge `challenge_id` on `candidate`; all false
    /// if it was never settled.
    pub open spec fn result(self, candidate: u64, challenge_id: u64) -> ChallengeResult {
        if self.results.contains_key((candidate, challenge_id)) {
            self.results[(candidate, challenge_id)]
        } else {
            ChallengeResult::zero()
        }
    }

    /// The weight of `stake` locked for `lock_time` under this configuration.
    pub open spec fn power(self, stake: u64, lock_time: u64) -> nat {
        weight(self.params, stake, lock_time)
    }

    /// The configuration is well-formed, every candidate is, every vote is
    /// live and on a candidate that applied, and the index and the slots name
    /// each other: a voter holds at most one vote per candidate, in a slot it
    /// has counted.
    pub open spec fn wf(self) -> bool {
        &&& self.params.wf()
        &&& forall|account: u64| #[trigger]
            self.candidates.contains_key(account) ==> self.candidates[account].wf()
        &&& forall|voter: u64, candidate: u64| #[trigger]
            self.vote_index.contains_key((voter, candidate)) ==> {
                let slot = self.vote_index[(voter, candidate)];
                &&& 1 <= slot <= self.vote_count(voter)
                &&& self.votes.contains_key((voter, slot))
                &&& self.votes[(voter, slot)].account == candidate
                &&& self.candidate_by_account(candidate).intended_rank > GUEST_RANK
            }
        &&& forall|voter: u64, slot: u64| #[trigger]
            self.votes.contains_key((voter, slot)) ==> {
                let vote = self.votes[(voter, slot)];
                &&& vote_live(self.params, vote)
                &&& self.vote_index.contains_key((voter, vote.account))
                &&& self.vote_index[(voter, vote.account)] == slot
            }
    }

    /// The registry after a rank update of `account` at height `now`, where
    /// `candidate` is the record to update and store. A demotion marks the
    /// outcome of the candidate's challenge as executed.
    pub open spec fn with_updated_rank(self, now: u64, account: u64, candidate: Candidate<u64>) -> State {
        let result = self.result(account, candidate.challenge_start);
        State {
            candidates: self.candidates.insert(
                account,
                updated_candidate(self.params, now, candidate, result),
            ),
            results: if update_demotes(self.params, now, candidate, result) {
                self.results.insert(
                    (account, candidate.challenge_start),
                    updated_result(self.params, now, candidate, result),
                )
            } else {
                self.results
            },
            ..self
        }
    }

    /// Why `sender` may not apply for promotion at height `now`, if it may
    /// not: its last application is less than `rank_lock` blocks old, or it
    /// already holds the highest rank.
    pub open spec fn promotion_rejection(self, sender: u64, now: u64) -> Option<Error> {
        let candidate = self.candidate_by_account(sender);
        if !(now - candidate.last_change >= self.params.rank_lock || candidate.last_change == 0) {
            Some(Error::RankLock)
        } else if !(candidate.current_rank + 1 <= ADMIRAL_RANK) {
            Some(Error::RankLower)
        } else {
            None
        }
    }

    /// The record that `sender` submits when it applies at height `now`: it
    /// aims one rank above the one it holds.
    pub open spec fn application(self, sender: u64, now: u64) -> Candidate<u64> {
        let candidate = self.candidate_by_account(sender);
        Candidate {
            intended_rank: (candidate.current_rank + 1) as u16,
            last_change: now,
            ..candidate
        }
    }

    /// The registry after `sender` applied for promotion at height `now`.
    pub open spec fn after_promotion(self, sender: u64, now: u64) -> State {
        self.with_updated_rank(now, sender, self.application(sender, now))
    }

    /// Why `sender` may not lock `stake` for `lock_time` on either side of
    /// `candidate`, if it may not; `tally` is the weight already accumulated
    /// on that side.
    pub open spec fn stake_rejection(
        self,
        sender: u64,
        candidate: u64,
        stake: u64,
        lock_time: u64,
        tally: u64,
    ) -> Option<Error> {
        stake_refusal(
            self.params,
            self.candidate_by_account(candidate).intended_rank,
            self.vote_index(sender, candidate),
            self.vote_count(sender),
            tally,
            stake,
            lock_time,
        )
    }

    /// Why `sender` may not support `candidate`, if it may not.
    pub open spec fn vote_rejection(self, sender: u64, candidate: u64, stake: u64, lock_time: u64) -> Option<
        Error,
    > {
        self.stake_rejection(
            sender,
            candidate,
            stake,
            lock_time,
            self.candidate_by_account(candidate).votes_for,
        )
    }

    /// Why `sender` may not oppose `candidate`, if it may not.
    pub open spec fn challenge_rejection(
        self,
        sender: u64,
        candidate: u64,
        stake: u64,
        lock_time: u64,
    ) -> Option<Error> {
        self.stake_rejection(
            sender,
            candidate,
            stake,
            lock_time,
            self.candidate_by_account(candidate).votes_against,
        )
    }

    /// The registry after `vote` went into the next free slot of `sender`.
    pub open spec fn with_vote(self, sender: u64, candidate: u64, vote: Vote<u64, u64, u64>) -> State {
        let slot = (self.vote_count(sender) + 1) as u64;
        State {
            votes: self.votes.insert((sender, slot), vote),
            vote_index: self.vote_index.insert((sender, candidate), slot),
            vote_count: self.vote_count.insert(sender, slot),
            ..self
        }
    }

    /// The vote that supports `candidate` with `stake` from height `now` on.
    /// It belongs to the candidate's challenge if that began no more than
    /// `challenge_lock` blocks ago.
    pub open spec fn supporting_vote(self, candidate: u64, stake: u64, lock_time: u64, now: u64) -> Vote<
        u64,
        u64,
        u64,
    > {
        let challenge_start = self.candidate_by_account(candidate).challenge_start;
        Vote {
            account: candidate,
            stake_for: stake,
            stake_against: 0,
            vote_time: now,
            lock_time,
            challenge_id: if now - challenge_start <= self.params.challenge_lock {
                challenge_start
            } else {
                0
            },
        }
    }

    /// The registry after `sender` supported `candidate` at height `now`.
    pub open spec fn after_vote(self, sender: u64, candidate: u64, stake: u64, lock_time: u64, now: u64) -> State {
        let record = self.candidate_by_account(candidate);
        self.with_vote(
            sender,
            candidate,
            self.supporting_vote(candidate, stake, lock_time, now),
        ).with_updated_rank(
            now,
            candidate,
            Candidate { votes_for: (record.votes_for + self.power(stake, lock_time)) as u64, ..record },
        )
    }

    /// The vote that opposes `candidate` with `stake` from height `now` on.
    pub open spec fn opposing_vote(candidate: u64, stake: u64, lock_time: u64, now: u64) -> Vote<
        u64,
        u64,
        u64,
    > {
        Vote {
            account: candidate,
            stake_for: 0,
            stake_against: stake,
            vote_time: now,
            lock_time,
            challenge_id: now,
        }
    }

    /// The registry after `sender` opposed `candidate` at height `now`. The
    /// first opposing weight opens a challenge. The rank is left alone.
    pub open spec fn after_challenge(
        self,
        sender: u64,
        candidate: u64,
        stake: u64,
        lock_time: u64,
        now: u64,
    ) -> State {
        let record = self.candidate_by_account(candidate);
        let stored = self.with_vote(
            sender,
            candidate,
            Self::opposing_vote(candidate, stake, lock_time, now),
        );
        State {
            candidates: stored.candidates.insert(
                candidate,
                Candidate {
                    challenge_start: if record.votes_against == 0 {
                        now
                    } else {
                        record.challenge_start
                    },
                    votes_against: (record.votes_against + self.power(stake, lock_time)) as u64,
                    ..record
                },
            ),
            ..stored
        }
    }

    /// Whether a withdrawal at height `now` settles the challenge on
    /// `candidate`: there is opposing weight, and the challenge began more
    /// than `challenge_lock` blocks ago.
    pub open spec fn settles(self, candidate: u64, now: u64) -> bool {
        let record = self.candidate_by_account(candidate);
        now - record.challenge_start > self.params.challenge_lock && record.votes_against != 0
    }

    /// The outcome with which a challenge on `candidate` is settled now: it
    /// succeeds if the opposition outweighs the support.
    pub open spec fn settlement(self, candidate: u64) -> ChallengeResult {
        let record = self.candidate_by_account(candidate);
        ChallengeResult { success: record.votes_against > record.votes_for, executed: false }
    }

    /// The record of `candidate` as a withdrawal at height `now` sees it: a
    /// challenge that is settled is closed, so that a new one can begin.
    pub open spec fn settled_candidate(self, candidate: u64, now: u64) -> Candidate<u64> {
        let record = self.candidate_by_account(candidate);
        if self.settles(candidate, now) {
            Candidate { votes_against: 0, challenge_start: 0, ..record }
        } else {
            record
        }
    }

    /// The outcome that decides what the vote of `sender` on `candidate` pays
    /// back at height `now`: that of the challenge settled by this
    /// withdrawal, else that recorded for the challenge the vote belongs to,
    /// else none.
    pub open spec fn outcome(self, sender: u64, candidate: u64, now: u64) -> ChallengeResult {
        let vote = self.votes_of_owner_by_index(sender, self.vote_index(sender, candidate));
        if self.settles(candidate, now) {
            self.settlement(candidate)
        } else if vote.challenge_id != 0 {
            self.result(candidate, vote.challenge_id)
        } else {
            ChallengeResult::zero()
        }
    }

    /// Why `sender` may not withdraw its vote on `candidate` at height `now`,
    /// if it may not.
    ///
    /// It holds no vote there; or the candidate's challenge is still open and
    /// began at or after the vote; or the vote is still locked; or its weight
    /// exceeds the support the candidate has left.
    pub open spec fn cancel_rejection(self, sender: u64, candidate: u64, now: u64) -> Option<Error> {
        let index = self.vote_index(sender, candidate);
        cancel_refusal(
            self.params,
            index,
            self.votes_of_owner_by_index(sender, index),
            self.settled_candidate(candidate, now),
            self.outcome(sender, candidate, now).success,
            now,
        )
    }

    /// What `sender` is paid when it withdraws its vote on `candidate` at
    /// height `now`.
    pub open spec fn cancel_payout(self, sender: u64, candidate: u64, now: u64) -> nat {
        payout(
            self.votes_of_owner_by_index(sender, self.vote_index(sender, candidate)),
            now,
            self.outcome(sender, candidate, now).success,
        )
    }

    /// The registry after `sender` withdrew its vote on `candidate` at height
    /// `now`.
    ///
    /// The vote and its index entry are gone. A challenge that this
    /// withdrawal settles has its outcome recorded and is closed. A
    /// supporting vote takes its weight out of the support; an opposing vote
    /// leaves both tallies as they are. The rank is then updated.
    pub open spec fn after_cancel(self, sender: u64, candidate: u64, now: u64) -> State {
        let index = self.vote_index(sender, candidate);
        let vote = self.votes_of_owner_by_index(sender, index);
        let record = self.settled_candidate(candidate, now);
        let cleared = State {
            votes: self.votes.remove((sender, index)),
            vote_index: self.vote_index.remove((sender, candidate)),
            results: if self.settles(candidate, now) {
                self.results.insert(
                    (candidate, self.candidate_by_account(candidate).challenge_start),
                    self.settlement(candidate),
                )
            } else {
                self.results
            },
            ..self
        };
        cleared.with_updated_rank(
            now,
            candidate,
            Candidate {
                votes_for: (record.votes_for - self.power(vote.stake_for, vote.lock_time)) as u64,
                ..record
            },
        )
    }
}

} // verus!
