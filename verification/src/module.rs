//! The registry itself: its tables in memory and the operations on them.

use crate::consistency::{
    lemma_after_cancel_wf, lemma_after_challenge_wf, lemma_after_promotion_wf,
    lemma_after_vote_wf,
};
use crate::checks::{check_cancel, check_stake};
use crate::params::Params;
use crate::power::calculate_voting_power;
use crate::rank::return_updated_rank;
use crate::records::{Candidate, ChallengeResult, Error, Event, Vote, ADMIRAL_RANK};
use crate::state::State;
use crate::table::PairTable;
use std::collections::HashMap;
use vstd::prelude::*;

verus! {

/// The balance ledger the registry moves stake through.
///
/// The registry promises nothing about what a ledger answers and relies on
/// nothing: whatever comes back, an operation either completes or leaves the
/// registry as it was.
pub trait Trait {
    /// Takes `amount` out of the free balance of `who`, keeping the account
    /// alive.
    fn withdraw(&mut self, who: u64, amount: u64) -> Result<(), &'static str>;

    /// Adds `amount` to the balance of `who`, which must already exist.
    fn deposit_into_existing(&mut self, who: u64, amount: u64) -> Result<(), &'static str>;
}

/// A registry of candidates, votes and challenge outcomes.
pub struct Module {
    params: Params,
    candidates: HashMap<u64, Candidate<u64>>,
    votes: PairTable<Vote<u64, u64, u64>>,
    vote_count: HashMap<u64, u64>,
    vote_index: PairTable<u64>,
    results: PairTable<ChallengeResult>,
}

impl View for Module {
    type V = State;

    closed spec fn view(&self) -> State {
        State {
            params: self.params,
            candidates: self.candidates@,
            votes: self.votes@,
            vote_count: self.vote_count@,
            vote_index: self.vote_index@,
            results: self.results@,
        }
    }
}

impl Module {
    /// Whether the registry is consistent; see [`State::wf`].
    pub open spec fn wf(&self) -> bool {
        self@.wf()
    }

    /// An empty registry with the given configuration, or `None` if the
    /// configuration is not well-formed.
    pub fn new(params: Params) -> (created: Option<Module>)
        ensures
            created is Some <==> params.wf(),
            created is Some ==> created->0@ == State::empty(params) && created->0.wf(),
    {
        if !params.is_valid() {
            return None;
        }
        Some(
            Module {
                params,
                candidates: HashMap::new(),
                votes: PairTable::new(),
                vote_count: HashMap::new(),
                vote_index: PairTable::new(),
                results: PairTable::new(),
            },
        )
    }

    /// The configuration.
    pub fn params(&self) -> (params: Params)
        ensures
            params == self@.params,
    {
        self.params
    }

    /// The record of `account`; all zero if it never applied.
    pub fn candidate_by_account(&self, account: u64) -> (candidate: Candidate<u64>)
        ensures
            candidate == self@.candidate_by_account(account),
    {
        match self.candidates.get(&account) {
            Some(candidate) => *candidate,
            None => Candidate::default(),
        }
    }

    /// The vote in slot `index` of `voter`; all zero if the slot is empty.
    pub fn votes_of_owner_by_index(&self, voter: u64, index: u64) -> (vote: Vote<u64, u64, u64>)
        ensures
            vote == self@.votes_of_owner_by_index(voter, index),
    {
        match self.votes.get(voter, index) {
            Some(vote) => vote,
            None => Vote::default(),
        }
    }

    /// The number of slots `voter` has used.
    pub fn vote_count(&self, voter: u64) -> (count: u64)
        ensures
            count == self@.vote_count(voter),
    {
        match self.vote_count.get(&voter) {
            Some(count) => *count,
            None => 0,
        }
    }

    /// The slot of the vote that `voter` holds on `candidate`; 0 for none.
    pub fn vote_index(&self, voter: u64, candidate: u64) -> (index: u64)
        ensures
            index == self@.vote_index(voter, candidate),
    {
        match self.vote_index.get(voter, candidate) {
            Some(index) => index,
            None => 0,
        }
    }

    /// The outcome of the challenge `challenge_id` on `candidate`; all false
    /// if it was never settled.
    pub fn result(&self, candidate: u64, challenge_id: u64) -> (outcome: ChallengeResult)
        ensures
            outcome == self@.result(candidate, challenge_id),
    {
        match self.results.get(candidate, challenge_id) {
            Some(outcome) => outcome,
            None => ChallengeResult::default(),
        }
    }

    /// The weight of `stake` locked for `lock_time`, or `None` where it does
    /// not fit in 64 bits.
    pub fn voting_power(&self, stake: u64, lock_time: u64) -> (power: Option<u64>)
        requires
            self.wf(),
        ensures
            match power {
                Some(weight) => weight == self@.power(stake, lock_time),
                None => self@.power(stake, lock_time) > u64::MAX,
            },
    {
        calculate_voting_power(stake, lock_time, self.params.min_stake, self.params.min_lock)
    }

    /// Runs the rank update on `candidate` at height `now` and stores the
    /// record under `account`. A demotion marks the outcome of the
    /// candidate's challenge as executed.
    fn store_updated_rank(&mut self, now: u64, account: u64, candidate: Candidate<u64>)
        ensures
            final(self)@ == old(self)@.with_updated_rank(now, account, candidate),
    {
        let outcome = self.result(account, candidate.challenge_start);
        let (updated, demoted) = return_updated_rank(&self.params, now, candidate, outcome);
        if demoted {
            self.results.insert(
                account,
                candidate.challenge_start,
                ChallengeResult { success: outcome.success, executed: true },
            );
        }
        self.candidates.insert(account, updated);
    }

    /// Puts `vote` into the next free slot of `sender` and points the index
    /// of `(sender, candidate)` at it.
    fn store_vote(&mut self, sender: u64, candidate: u64, vote: Vote<u64, u64, u64>)
        requires
            old(self)@.vote_count(sender) < u64::MAX,
        ensures
            final(self)@ == old(self)@.with_vote(sender, candidate, vote),
    {
        let updated_count = self.vote_count(sender) + 1;
        self.votes.insert(sender, updated_count, vote);
        self.vote_index.insert(sender, candidate, updated_count);
        self.vote_count.insert(sender, updated_count);
    }
}

/// What a withdrawal finds when it looks at the candidate and the vote.
struct Settlement {
    index: u64,
    vote: Vote<u64, u64, u64>,
    settles: bool,
    record: Candidate<u64>,
    outcome: ChallengeResult,
}

impl Module {
    /// Lets `sender` apply for the rank above the one it holds.
    ///
    /// Rejected while the last application is less than `rank_lock` blocks
    /// old, and for an account that already holds the highest rank. Otherwise
    /// the application is recorded at height `now`, the rank is updated from
    /// the support already there, and the new intended rank is announced.
    pub fn apply_for_promotion(&mut self, sender: u64, now: u64) -> (applied: Result<Event, Error>)
        requires
            old(self).wf(),
        ensures
            final(self).wf(),
            match old(self)@.promotion_rejection(sender, now) {
                Some(reason) => applied == Err::<Event, Error>(reason) && final(self)@ == old(
                    self,
                )@,
                None => applied == Ok::<Event, Error>(
                    Event::CandidateStored(
                        sender,
                        old(self)@.application(sender, now).intended_rank,
                    ),
                ) && final(self)@ == old(self)@.after_promotion(sender, now),
            },
    {
        let mut candidate = self.candidate_by_account(sender);
        let rested = now >= candidate.last_change && now - candidate.last_change
            >= self.params.rank_lock;
        if !(rested || candidate.last_change == 0) {
            return Err(Error::RankLock);
        }
        if candidate.current_rank >= ADMIRAL_RANK {
            return Err(Error::RankLower);
        }
        candidate.intended_rank = candidate.current_rank + 1;
        candidate.last_change = now;
        proof {
            lemma_after_promotion_wf(self@, sender, now);
        }
        self.store_updated_rank(now, sender, candidate);
        Ok(Event::CandidateStored(sender, candidate.intended_rank))
    }

    /// Decides whether `sender` may lock `stake` for `lock_time` on one side
    /// of `candidate`, where `tally` is the weight already on that side, and
    /// computes the new tally.
    fn check_stake(&self, sender: u64, candidate: u64, stake: u64, lock_time: u64, tally: u64) -> (checked:
        Result<u64, Error>)
        requires
            self.wf(),
        ensures
            match self@.stake_rejection(sender, candidate, stake, lock_time, tally) {
                Some(reason) => checked == Err::<u64, Error>(reason),
                None => checked == Ok::<u64, Error>(
                    (tally + self@.power(stake, lock_time)) as u64,
                ),
            },
    {
        check_stake(
            &self.params,
            self.candidate_by_account(candidate).intended_rank,
            self.vote_index(sender, candidate),
            self.vote_count(sender),
            tally,
            stake,
            lock_time,
        )
    }

    /// Decides whether `sender` may support `candidate` with `stake` locked
    /// for `lock_time`, and says how much to withdraw from `sender` first.
    ///
    /// Rejected, in this order: if the candidate has no open application; if
    /// the lock is below the minimum; if `sender` already holds a vote on the
    /// candidate; if the stake is below the minimum; if the vote counter of
    /// `sender` or the support of the candidate would overflow.
    pub fn vote_request(&self, sender: u64, candidate: u64, stake: u64, lock_time: u64) -> (request:
        Result<u64, Error>)
        requires
            self.wf(),
        ensures
            match self@.vote_rejection(sender, candidate, stake, lock_time) {
                Some(reason) => request == Err::<u64, Error>(reason),
                None => request == Ok::<u64, Error>(stake),
            },
    {
        let tally = self.candidate_by_account(candidate).votes_for;
        match self.check_stake(sender, candidate, stake, lock_time, tally) {
            Ok(_) => Ok(stake),
            Err(reason) => Err(reason),
        }
    }

    /// Decides whether `sender` may oppose `candidate` with `stake` locked
    /// for `lock_time`, and says how much to withdraw from `sender` first.
    ///
    /// Rejected on the same grounds and in the same order as a supporting
    /// vote, the last being an overflow of the opposition to the candidate.
    pub fn challenge_request(&self, sender: u64, candidate: u64, stake: u64, lock_time: u64) -> (request:
        Result<u64, Error>)
        requires
            self.wf(),
        ensures
            match self@.challenge_rejection(sender, candidate, stake, lock_time) {
                Some(reason) => request == Err::<u64, Error>(reason),
                None => request == Ok::<u64, Error>(stake),
            },
    {
        let tally = self.candidate_by_account(candidate).votes_against;
        match self.check_stake(sender, candidate, stake, lock_time, tally) {
            Ok(_) => Ok(stake),
            Err(reason) => Err(reason),
        }
    }

    /// Records a supporting vote that was found acceptable and paid for.
    fn record_vote(&mut self, sender: u64, candidate: u64, stake: u64, lock_time: u64, now: u64)
        requires
            old(self).wf(),
            old(self)@.vote_rejection(sender, candidate, stake, lock_time) is None,
        ensures
            final(self).wf(),
            final(self)@ == old(self)@.after_vote(sender, candidate, stake, lock_time, now),
    {
        let mut record = self.candidate_by_account(candidate);
        let power = self.voting_power(stake, lock_time).unwrap();
        let in_window = now <= record.challenge_start || now - record.challenge_start
            <= self.params.challenge_lock;
        let vote = Vote {
            account: candidate,
            stake_for: stake,
            stake_against: 0,
            vote_time: now,
            lock_time,
            challenge_id: if in_window {
                record.challenge_start
            } else {
                0
            },
        };
        proof {
            lemma_after_vote_wf(self@, sender, candidate, stake, lock_time, now);
        }
        self.store_vote(sender, candidate, vote);
        record.votes_for = record.votes_for + power;
        self.store_updated_rank(now, candidate, record);
    }

    /// Records an opposing vote that was found acceptable and paid for.
    fn record_challenge(&mut self, sender: u64, candidate: u64, stake: u64, lock_time: u64, now: u64)
        requires
            old(self).wf(),
            old(self)@.challenge_rejection(sender, candidate, stake, lock_time) is None,
        ensures
            final(self).wf(),
            final(self)@ == old(self)@.after_challenge(sender, candidate, stake, lock_time, now),
    {
        let mut record = self.candidate_by_account(candidate);
        let power = self.voting_power(stake, lock_time).unwrap();
        if record.votes_against == 0 {
            // The first opposing weight opens the challenge.
            record.challenge_start = now;
        }
        let vote = Vote {
            account: candidate,
            stake_for: 0,
            stake_against: stake,
            vote_time: now,
            lock_time,
            challenge_id: now,
        };
        proof {
            lemma_after_challenge_wf(self@, sender, candidate, stake, lock_time, now);
        }
        self.store_vote(sender, candidate, vote);
        record.votes_against = record.votes_against + power;
        self.candidates.insert(candidate, record);
    }

    /// Completes a supporting vote once the ledger has answered the
    /// withdrawal of `stake` from `sender`.
    ///
    /// A vote that [`Module::vote_request`] rejects is rejected here for the
    /// same reason. Otherwise a refusal of the ledger is handed on and the
    /// registry stays as it was, and a withdrawal that went through has the
    /// vote recorded at height `now`.
    pub fn vote_after_withdrawal(
        &mut self,
        withdrawal: Result<(), &'static str>,
        sender: u64,
        candidate: u64,
        stake: u64,
        lock_time: u64,
        now: u64,
    ) -> (voted: Result<Event, Error>)
        requires
            old(self).wf(),
        ensures
            final(self).wf(),
            match old(self)@.vote_rejection(sender, candidate, stake, lock_time) {
                Some(reason) => voted == Err::<Event, Error>(reason) && final(self)@ == old(
                    self,
                )@,
                None => match withdrawal {
                    Err(refusal) => voted == Err::<Event, Error>(Error::Ledger(refusal))
                        && final(self)@ == old(self)@,
                    Ok(_) => voted == Ok::<Event, Error>(Event::Voted(candidate, stake))
                        && final(self)@ == old(self)@.after_vote(
                        sender,
                        candidate,
                        stake,
                        lock_time,
                        now,
                    ),
                },
            },
    {
        match self.vote_request(sender, candidate, stake, lock_time) {
            Err(reason) => {
                return Err(reason);
            },
            Ok(_) => {},
        }
        match withdrawal {
            Err(refusal) => Err(Error::Ledger(refusal)),
            Ok(()) => {
                self.record_vote(sender, candidate, stake, lock_time, now);
                Ok(Event::Voted(candidate, stake))
            },
        }
    }

    /// Completes an opposing vote once the ledger has answered the
    /// withdrawal of `stake` from `sender`.
    ///
    /// A vote that [`Module::challenge_request`] rejects is rejected here for
    /// the same reason. Otherwise a refusal of the ledger is handed on and
    /// the registry stays as it was, and a withdrawal that went through has
    /// the vote recorded at height `now`.
    pub fn challenge_after_withdrawal(
        &mut self,
        withdrawal: Result<(), &'static str>,
        sender: u64,
        candidate: u64,
        stake: u64,
        lock_time: u64,
        now: u64,
    ) -> (challenged: Result<Event, Error>)
        requires
            old(self).wf(),
        ensures
            final(self).wf(),
            match old(self)@.challenge_rejection(sender, candidate, stake, lock_time) {
                Some(reason) => challenged == Err::<Event, Error>(reason) && final(self)@ == old(
                    self,
                )@,
                None => match withdrawal {
                    Err(refusal) => challenged == Err::<Event, Error>(Error::Ledger(refusal))
                        && final(self)@ == old(self)@,
                    Ok(_) => challenged == Ok::<Event, Error>(Event::Challenged(candidate, stake))
                        && final(self)@ == old(self)@.after_challenge(
                        sender,
                        candidate,
                        stake,
                        lock_time,
                        now,
                    ),
                },
            },
    {
        match self.challenge_request(sender, candidate, stake, lock_time) {
            Err(reason) => {
                return Err(reason);
            },
            Ok(_) => {},
        }
        match withdrawal {
            Err(refusal) => Err(Error::Ledger(refusal)),
            Ok(()) => {
                self.record_challenge(sender, candidate, stake, lock_time, now);
                Ok(Event::Challenged(candidate, stake))
            },
        }
    }

    /// Locks `stake` of `sender` for `lock_time` blocks in support of
    /// `candidate`, at height `now`.
    ///
    /// A vote that [`Module::vote_request`] rejects is rejected before the
    /// ledger is asked for anything. Otherwise `stake` is withdrawn from
    /// `sender`; if the ledger refuses, its reason is handed on and the
    /// registry stays as it was; if not, the vote is recorded, its weight is
    /// added to the candidate's support and the rank is updated.
    pub fn candidate_vote<T: Trait>(
        &mut self,
        ledger: &mut T,
        sender: u64,
        candidate: u64,
        stake: u64,
        lock_time: u64,
        now: u64,
    ) -> (voted: Result<Event, Error>)
        requires
            old(self).wf(),
        ensures
            final(self).wf(),
            match old(self)@.vote_rejection(sender, candidate, stake, lock_time) {
                Some(reason) => voted == Err::<Event, Error>(reason) && final(self)@ == old(
                    self,
                )@ && *final(ledger) == *old(ledger),
                None => match voted {
                    Err(reason) => reason is Ledger && final(self)@ == old(self)@,
                    Ok(event) => event == Event::Voted(candidate, stake) && final(self)@ == old(
                        self,
                    )@.after_vote(sender, candidate, stake, lock_time, now),
                },
            },
    {
        let amount = match self.vote_request(sender, candidate, stake, lock_time) {
            Err(reason) => {
                return Err(reason);
            },
            Ok(amount) => amount,
        };
        match ledger.withdraw(sender, amount) {
            Err(refusal) => Err(Error::Ledger(refusal)),
            Ok(()) => {
                self.record_vote(sender, candidate, stake, lock_time, now);
                Ok(Event::Voted(candidate, stake))
            },
        }
    }

    /// Locks `stake` of `sender` for `lock_time` blocks in opposition to
    /// `candidate`, at height `now`.
    ///
    /// A vote that [`Module::challenge_request`] rejects is rejected before
    /// the ledger is asked for anything. Otherwise `stake` is withdrawn from
    /// `sender`; if the ledger refuses, its reason is handed on and the
    /// registry stays as it was; if not, the vote is recorded and its weight
    /// is added to the opposition, opening a challenge if there was none.
    /// The rank is not updated.
    pub fn candidate_challenge<T: Trait>(
        &mut self,
        ledger: &mut T,
        sender: u64,
        candidate: u64,
        stake: u64,
        lock_time: u64,
        now: u64,
    ) -> (challenged: Result<Event, Error>)
        requires
            old(self).wf(),
        ensures
            final(self).wf(),
            match old(self)@.challenge_rejection(sender, candidate, stake, lock_time) {
                Some(reason) => challenged == Err::<Event, Error>(reason) && final(self)@ == old(
                    self,
                )@ && *final(ledger) == *old(ledger),
                None => match challenged {
                    Err(reason) => reason is Ledger && final(self)@ == old(self)@,
                    Ok(event) => event == Event::Challenged(candidate, stake) && final(self)@
                        == old(self)@.after_challenge(sender, candidate, stake, lock_time, now),
                },
            },
    {
        let amount = match self.challenge_request(sender, candidate, stake, lock_time) {
            Err(reason) => {
                return Err(reason);
            },
            Ok(amount) => amount,
        };
        match ledger.withdraw(sender, amount) {
            Err(refusal) => Err(Error::Ledger(refusal)),
            Ok(()) => {
                self.record_challenge(sender, candidate, stake, lock_time, now);
                Ok(Event::Challenged(candidate, stake))
            },
        }
    }
}

impl Module {
    /// Looks up the vote of `sender` on `candidate` and what a withdrawal at
    /// height `now` makes of the candidate's challenge.
    fn settlement(&self, sender: u64, candidate: u64, now: u64) -> (found: Settlement)
        ensures
            found.index == self@.vote_index(sender, candidate),
            found.vote == self@.votes_of_owner_by_index(sender, found.index),
            found.settles == self@.settles(candidate, now),
            found.record == self@.settled_candidate(candidate, now),
            found.outcome.success == self@.outcome(sender, candidate, now).success,
            found.settles ==> found.outcome == self@.settlement(candidate),
    {
        let index = self.vote_index(sender, candidate);
        let vote = self.votes_of_owner_by_index(sender, index);
        let mut record = self.candidate_by_account(candidate);
        let mut outcome = ChallengeResult { success: false, executed: false };
        let expired = now > record.challenge_start && now - record.challenge_start
            > self.params.challenge_lock;
        let settles = expired && record.votes_against != 0;
        if settles {
            outcome.success = record.votes_against > record.votes_for;
            // The challenge is over; a new one may begin.
            record.votes_against = 0;
            record.challenge_start = 0;
        } else if vote.challenge_id != 0 {
            outcome = self.result(candidate, vote.challenge_id);
        }
        Settlement { index, vote, settles, record, outcome }
    }

    /// Decides whether `sender` may withdraw its vote on `candidate` at
    /// height `now`, and says how much to deposit to `sender` first.
    ///
    /// Rejected, in this order: if `sender` holds no vote on the candidate;
    /// if the candidate's challenge is still open and began at or after the
    /// vote; if the slot holds less than the minimum stake; if the lock has
    /// not run out; if the stake with its yield exceeds 64 bits; if the vote
    /// weighs more than the support the candidate has left.
    pub fn cancel_request(&self, sender: u64, candidate: u64, now: u64) -> (request: Result<
        u64,
        Error,
    >)
        requires
            self.wf(),
        ensures
            match self@.cancel_rejection(sender, candidate, now) {
                Some(reason) => request == Err::<u64, Error>(reason),
                None => request == Ok::<u64, Error>(
                    self@.cancel_payout(sender, candidate, now) as u64,
                ) && self@.cancel_payout(sender, candidate, now) <= u64::MAX,
            },
    {
        let found = self.settlement(sender, candidate, now);
        check_cancel(
            &self.params,
            found.index,
            &found.vote,
            &found.record,
            found.outcome.success,
            now,
        )
    }

    /// Removes a vote whose withdrawal was found acceptable and paid out, and
    /// returns the stake it held.
    fn record_cancel(&mut self, found: &Settlement, sender: u64, candidate: u64, now: u64) -> (stake:
        u64)
        requires
            old(self).wf(),
            old(self)@.cancel_rejection(sender, candidate, now) is None,
            found.index == old(self)@.vote_index(sender, candidate),
            found.vote == old(self)@.votes_of_owner_by_index(sender, found.index),
            found.settles == old(self)@.settles(candidate, now),
            found.record == old(self)@.settled_candidate(candidate, now),
            found.settles ==> found.outcome == old(self)@.settlement(candidate),
        ensures
            final(self).wf(),
            final(self)@ == old(self)@.after_cancel(sender, candidate, now),
            stake == found.vote.stake(),
    {
        proof {
            lemma_after_cancel_wf(self@, sender, candidate, now);
        }
        if found.settles {
            let challenge_start = self.candidate_by_account(candidate).challenge_start;
            self.results.insert(candidate, challenge_start, found.outcome);
        }
        self.votes.remove(sender, found.index);
        self.vote_index.remove(sender, candidate);
        let mut record = found.record;
        // An opposing vote has no stake in support, and so no weight to take out.
        let power = self.voting_power(found.vote.stake_for, found.vote.lock_time).unwrap();
        record.votes_for = record.votes_for - power;
        self.store_updated_rank(now, candidate, record);
        if found.vote.stake_against != 0 {
            found.vote.stake_against
        } else {
            found.vote.stake_for
        }
    }

    /// Completes a withdrawal once the ledger has answered the deposit of the
    /// payout to `sender`.
    ///
    /// A withdrawal that [`Module::cancel_request`] rejects is rejected here
    /// for the same reason. Otherwise a refusal of the ledger is handed on
    /// and the registry stays as it was, and a deposit that went through has
    /// the vote removed at height `now`.
    pub fn cancel_after_deposit(
        &mut self,
        deposit: Result<(), &'static str>,
        sender: u64,
        candidate: u64,
        now: u64,
    ) -> (cancelled: Result<Event, Error>)
        requires
            old(self).wf(),
        ensures
            final(self).wf(),
            match old(self)@.cancel_rejection(sender, candidate, now) {
                Some(reason) => cancelled == Err::<Event, Error>(reason) && final(self)@ == old(
                    self,
                )@,
                None => match deposit {
                    Err(refusal) => cancelled == Err::<Event, Error>(Error::Ledger(refusal))
                        && final(self)@ == old(self)@,
                    Ok(_) => cancelled == Ok::<Event, Error>(
                        Event::CancelVote(
                            candidate,
                            old(self)@.votes_of_owner_by_index(
                                sender,
                                old(self)@.vote_index(sender, candidate),
                            ).stake(),
                        ),
                    ) && final(self)@ == old(self)@.after_cancel(sender, candidate, now),
                },
            },
    {
        let found = self.settlement(sender, candidate, now);
        match check_cancel(
            &self.params,
            found.index,
            &found.vote,
            &found.record,
            found.outcome.success,
            now,
        ) {
            Err(reason) => {
                return Err(reason);
            },
            Ok(_) => {},
        }
        match deposit {
            Err(refusal) => Err(Error::Ledger(refusal)),
            Ok(()) => {
                let stake = self.record_cancel(&found, sender, candidate, now);
                Ok(Event::CancelVote(candidate, stake))
            },
        }
    }

    /// Withdraws the vote of `sender` on `candidate` at height `now` and pays
    /// it out.
    ///
    /// A withdrawal that [`Module::cancel_request`] rejects is rejected
    /// before the ledger is asked for anything. Otherwise the payout is
    /// deposited to `sender`; if the ledger refuses, its reason is handed on
    /// and the registry stays as it was; if not, the vote is removed, a
    /// challenge whose window has run out is settled, a supporting vote takes
    /// its weight out of the candidate's support, and the rank is updated.
    pub fn cancel_candidate_vote<T: Trait>(
        &mut self,
        ledger: &mut T,
        sender: u64,
        candidate: u64,
        now: u64,
    ) -> (cancelled: Result<Event, Error>)
        requires
            old(self).wf(),
        ensures
            final(self).wf(),
            match old(self)@.cancel_rejection(sender, candidate, now) {
                Some(reason) => cancelled == Err::<Event, Error>(reason) && final(self)@ == old(
                    self,
                )@ && *final(ledger) == *old(ledger),
                None => match cancelled {
                    Err(reason) => reason is Ledger && final(self)@ == old(self)@,
                    Ok(event) => event == Event::CancelVote(
                        candidate,
                        old(self)@.votes_of_owner_by_index(
                            sender,
                            old(self)@.vote_index(sender, candidate),
                        ).stake(),
                    ) && final(self)@ == old(self)@.after_cancel(sender, candidate, now),
                },
            },
    {
        let found = self.settlement(sender, candidate, now);
        let paid = match check_cancel(
            &self.params,
            found.index,
            &found.vote,
            &found.record,
            found.outcome.success,
            now,
        ) {
            Err(reason) => {
                return Err(reason);
            },
            Ok(paid) => paid,
        };
        match ledger.deposit_into_existing(sender, paid) {
            Err(refusal) => Err(Error::Ledger(refusal)),
            Ok(()) => {
                let stake = self.record_cancel(&found, sender, candidate, now);
                Ok(Event::CancelVote(candidate, stake))
            },
        }
    }
}

} // verus!
