use federation::{Candidate, Error, Event, Module, Params, Trait};
use std::collections::HashMap;

const ERR_BALANCE_LOW: &str = "too few free funds in account";
const ERR_NO_ACCOUNT: &str = "beneficiary account must pre-exist";

/// A ledger in memory that refuses what a ledger would.
struct Balances {
    free: HashMap<u64, u64>,
}

impl Balances {
    fn new() -> Self {
        Balances { free: HashMap::new() }
    }

    fn make_free_balance_be(&mut self, who: u64, amount: u64) {
        self.free.insert(who, amount);
    }

    fn free_balance(&self, who: u64) -> u64 {
        self.free.get(&who).copied().unwrap_or(0)
    }
}

impl Trait for Balances {
    fn withdraw(&mut self, who: u64, amount: u64) -> Result<(), &'static str> {
        let held = self.free_balance(who);
        if held < amount {
            return Err(ERR_BALANCE_LOW);
        }
        self.free.insert(who, held - amount);
        Ok(())
    }

    fn deposit_into_existing(&mut self, who: u64, amount: u64) -> Result<(), &'static str> {
        match self.free.get(&who).copied() {
            None => Err(ERR_NO_ACCOUNT),
            Some(held) => {
                self.free.insert(who, held + amount);
                Ok(())
            }
        }
    }
}

fn new_module() -> Module {
    Module::new(Params::default()).unwrap()
}

fn small_params() -> Params {
    Params {
        admiral_stake: 50,
        section31_stake: 40,
        captain_stake: 30,
        engineer_stake: 20,
        crew_stake: 10,
        min_stake: 1,
        min_lock: 10,
        rank_lock: 100,
        challenge_lock: 1000,
    }
}

#[test]
fn apply_for_promotion_works() {
    let mut module = new_module();
    let now = 1;
    assert_eq!(module.apply_for_promotion(0, now), Ok(Event::CandidateStored(0, 1)));
    let before = module.candidate_by_account(0);
    assert_eq!(module.apply_for_promotion(0, now), Err(Error::RankLock));
    assert_eq!(module.candidate_by_account(0), before);
    let candidate = module.candidate_by_account(0);
    assert_eq!(candidate.intended_rank, 1);
}

#[test]
fn candidate_vote_works() {
    let mut module = new_module();
    let mut balances = Balances::new();
    let mut now = 1;
    let candidate_to_vote: u64 = 2;
    let voter: u64 = 0;
    let stake: u64 = 7001;
    let lock: u64 = 1000000;

    assert_eq!(
        module.candidate_vote(&mut balances, 1, 1, stake, lock, now),
        Err(Error::VoteRank)
    );
    now = 500000;
    let _ = module.apply_for_promotion(candidate_to_vote, now);
    assert_eq!(
        module.candidate_vote(&mut balances, 1, candidate_to_vote, stake, lock, now),
        Err(Error::Ledger(ERR_BALANCE_LOW))
    );
    assert_eq!(module.vote_index(1, candidate_to_vote), 0);
    assert_eq!(module.vote_count(1), 0);
    balances.make_free_balance_be(voter, 200000);
    assert_eq!(
        module.candidate_vote(&mut balances, voter, candidate_to_vote, 5, lock, now),
        Err(Error::VoteMinStake)
    );
    assert_eq!(
        module.candidate_vote(&mut balances, voter, candidate_to_vote, stake, 5, now),
        Err(Error::VoteMinLock)
    );
    assert_eq!(balances.free_balance(voter), 200000);
    assert_eq!(
        module.candidate_vote(&mut balances, voter, candidate_to_vote, stake, lock, now),
        Ok(Event::Voted(candidate_to_vote, stake))
    );
    assert_eq!(
        module.candidate_vote(&mut balances, voter, candidate_to_vote, stake, lock, now),
        Err(Error::VoteDouble)
    );
    assert_eq!(balances.free_balance(voter), 200000 - stake);
    let candidate = module.candidate_by_account(candidate_to_vote);
    assert_eq!(candidate.votes_for, 5670);
    assert_eq!(candidate.current_rank, 1);
    let vote = module.votes_of_owner_by_index(voter, 1);
    assert_eq!(vote.stake_for, stake);
}

#[test]
fn candidate_challenge_works() {
    let mut module = new_module();
    let mut balances = Balances::new();
    let mut now = 1;
    let candidate_to_challenge: u64 = 2;
    let voter: u64 = 0;
    let stake: u64 = 7001;
    let lock: u64 = 1000000;

    assert_eq!(
        module.candidate_challenge(&mut balances, 1, 1, stake, lock, now),
        Err(Error::VoteRank)
    );
    now = 500000;
    let _ = module.apply_for_promotion(candidate_to_challenge, now);
    assert_eq!(
        module.candidate_challenge(&mut balances, 1, candidate_to_challenge, stake, lock, now),
        Err(Error::Ledger(ERR_BALANCE_LOW))
    );
    balances.make_free_balance_be(voter, 200000);
    assert_eq!(
        module.candidate_challenge(&mut balances, voter, candidate_to_challenge, stake, lock, now),
        Ok(Event::Challenged(candidate_to_challenge, stake))
    );
    let candidate = module.candidate_by_account(candidate_to_challenge);
    assert_eq!(candidate.votes_against, 5670);
}

#[test]
fn cancel_candidate_vote_works() {
    let mut module = new_module();
    let mut balances = Balances::new();
    let mut now = 1;
    let candidate_to_vote: u64 = 2;
    let voter: u64 = 0;
    let challenger: u64 = 1;

    assert_eq!(
        module.cancel_candidate_vote(&mut balances, voter, candidate_to_vote, now),
        Err(Error::VoteExist)
    );
    balances.make_free_balance_be(voter, 2000);
    now = 500000;
    let _ = module.apply_for_promotion(candidate_to_vote, now);
    assert!(module
        .candidate_vote(&mut balances, voter, candidate_to_vote, 1000, 200000, now)
        .is_ok());
    // 5126400 blocks per year
    assert_eq!(
        module.cancel_candidate_vote(&mut balances, voter, candidate_to_vote, now),
        Err(Error::VoteLock)
    );
    assert_eq!(balances.free_balance(voter), 1000);

    now = 5626401;
    assert!(module
        .cancel_candidate_vote(&mut balances, voter, candidate_to_vote, now)
        .is_ok());
    let free_balance = balances.free_balance(voter);
    let candidate = module.candidate_by_account(candidate_to_vote);
    assert_eq!(candidate.votes_for, 0);
    assert_eq!(free_balance, 2100);

    // a challenge with the same stake
    balances.make_free_balance_be(challenger, 2000);
    let _ = module.candidate_challenge(&mut balances, challenger, candidate_to_vote, 1000, 200000, now);
    assert!(module
        .candidate_vote(&mut balances, voter, candidate_to_vote, 100, 200000, now)
        .is_ok());
    assert_eq!(
        module.cancel_candidate_vote(&mut balances, challenger, candidate_to_vote, now),
        Err(Error::VoteLockChallenge)
    );
    now = 6926401;
    assert!(module
        .cancel_candidate_vote(&mut balances, challenger, candidate_to_vote, now)
        .is_ok());
    assert!(module
        .cancel_candidate_vote(&mut balances, voter, candidate_to_vote, now)
        .is_ok());
    let free_balance_challenger = balances.free_balance(challenger);
    let free_balance_voter = balances.free_balance(voter);
    let candidate = module.candidate_by_account(candidate_to_vote);
    assert_eq!(candidate.votes_for, 0);
    assert_eq!(free_balance_challenger, 2025);
    assert_eq!(free_balance_voter, 2100);
}

#[test]
fn new_rejects_malformed_params() {
    let mut params = Params::default();
    params.min_stake = 0;
    assert!(Module::new(params).is_none());
    let mut params = Params::default();
    params.min_lock = 0;
    assert!(Module::new(params).is_none());
    let mut params = Params::default();
    params.captain_stake = params.engineer_stake;
    assert!(Module::new(params).is_none());
    assert!(Module::new(Params::default()).is_some());
    assert_eq!(new_module().params(), Params::default());
}

#[test]
fn empty_registry_reads_as_zero() {
    let module = new_module();
    let candidate = module.candidate_by_account(9);
    assert_eq!(
        candidate,
        Candidate {
            current_rank: 0,
            intended_rank: 0,
            votes_for: 0,
            votes_against: 0,
            last_change: 0,
            challenge_start: 0,
        }
    );
    assert_eq!(module.vote_count(9), 0);
    assert_eq!(module.vote_index(9, 3), 0);
    assert_eq!(module.votes_of_owner_by_index(9, 1).stake_for, 0);
    assert!(!module.result(9, 5).success);
    assert!(!module.result(9, 5).executed);
}

#[test]
fn second_application_waits_for_the_cooldown() {
    let mut module = new_module();
    assert_eq!(module.apply_for_promotion(4, 10), Ok(Event::CandidateStored(4, 1)));
    assert_eq!(module.apply_for_promotion(4, 10 + 403199), Err(Error::RankLock));
    assert_eq!(module.candidate_by_account(4).last_change, 10);
    assert_eq!(module.apply_for_promotion(4, 10 + 403200), Ok(Event::CandidateStored(4, 1)));
    assert_eq!(module.candidate_by_account(4).last_change, 10 + 403200);
}

#[test]
fn application_at_height_zero_leaves_no_cooldown() {
    let mut module = new_module();
    assert_eq!(module.apply_for_promotion(4, 0), Ok(Event::CandidateStored(4, 1)));
    assert_eq!(module.apply_for_promotion(4, 0), Ok(Event::CandidateStored(4, 1)));
}

#[test]
fn promoted_candidate_climbs_one_rank_per_application() {
    let mut module = Module::new(small_params()).unwrap();
    let mut balances = Balances::new();
    balances.make_free_balance_be(1, 1_000_000);
    let candidate = 7;
    let mut now = 5000;
    assert_eq!(module.apply_for_promotion(candidate, now), Ok(Event::CandidateStored(candidate, 1)));
    // 60 units of stake locked for the minimum weigh 60: above every threshold.
    assert!(module.candidate_vote(&mut balances, 1, candidate, 60, 10, now).is_ok());
    assert_eq!(module.candidate_by_account(candidate).votes_for, 60);
    assert_eq!(module.candidate_by_account(candidate).current_rank, 1);
    for rank in 2..=5u16 {
        now += 100;
        assert_eq!(
            module.apply_for_promotion(candidate, now),
            Ok(Event::CandidateStored(candidate, rank))
        );
        let record = module.candidate_by_account(candidate);
        assert_eq!(record.intended_rank, rank);
        assert_eq!(record.current_rank, rank);
    }
    now += 100;
    let before = module.candidate_by_account(candidate);
    assert_eq!(module.apply_for_promotion(candidate, now), Err(Error::RankLower));
    assert_eq!(module.candidate_by_account(candidate), before);
}

#[test]
fn support_only_reaches_the_rank_applied_for() {
    let mut module = new_module();
    let mut balances = Balances::new();
    balances.make_free_balance_be(1, 1_000_000);
    let now = 500000;
    assert!(module.apply_for_promotion(3, now).is_ok());
    // 7001 for 1000000 blocks weighs 5670, above the admiral threshold
    assert!(module.candidate_vote(&mut balances, 1, 3, 7001, 1000000, now).is_ok());
    let record = module.candidate_by_account(3);
    assert_eq!(record.votes_for, 5670);
    assert_eq!(record.current_rank, 1);
    assert_eq!(record.intended_rank, 1);
}

#[test]
fn support_promotes_while_no_challenge_is_open() {
    // height 1 is long before one challenge window has passed since height 0
    let mut module = new_module();
    let mut balances = Balances::new();
    balances.make_free_balance_be(1, 100000);
    assert!(module.apply_for_promotion(3, 1).is_ok());
    assert!(module.candidate_vote(&mut balances, 1, 3, 7001, 1000000, 1).is_ok());
    let record = module.candidate_by_account(3);
    assert_eq!(record.votes_for, 5670);
    assert_eq!(record.challenge_start, 0);
    assert_eq!(record.current_rank, 1);
}

#[test]
fn support_at_the_threshold_does_not_promote() {
    let mut module = Module::new(small_params()).unwrap();
    let mut balances = Balances::new();
    balances.make_free_balance_be(1, 1000);
    balances.make_free_balance_be(2, 1000);
    let now = 5000;
    assert!(module.apply_for_promotion(3, now).is_ok());
    assert!(module.candidate_vote(&mut balances, 1, 3, 10, 10, now).is_ok());
    assert_eq!(module.candidate_by_account(3).votes_for, 10);
    assert_eq!(module.candidate_by_account(3).current_rank, 0);
    assert!(module.candidate_vote(&mut balances, 2, 3, 1, 10, now).is_ok());
    assert_eq!(module.candidate_by_account(3).votes_for, 11);
    assert_eq!(module.candidate_by_account(3).current_rank, 1);
}

#[test]
fn double_vote_is_rejected_on_either_side() {
    let mut module = new_module();
    let mut balances = Balances::new();
    balances.make_free_balance_be(1, 100000);
    let now = 500000;
    assert!(module.apply_for_promotion(3, now).is_ok());
    assert!(module.candidate_vote(&mut balances, 1, 3, 500, 200000, now).is_ok());
    assert_eq!(
        module.candidate_vote(&mut balances, 1, 3, 700, 300000, now + 5),
        Err(Error::VoteDouble)
    );
    assert_eq!(
        module.candidate_challenge(&mut balances, 1, 3, 700, 300000, now + 5),
        Err(Error::VoteDouble)
    );
    assert_eq!(balances.free_balance(1), 100000 - 500);
    assert_eq!(module.vote_count(1), 1);
    assert_eq!(module.vote_index(1, 3), 1);
}

#[test]
fn vote_is_stored_in_the_next_slot() {
    let mut module = new_module();
    let mut balances = Balances::new();
    balances.make_free_balance_be(1, 100000);
    let now = 500000;
    assert!(module.apply_for_promotion(3, now).is_ok());
    assert!(module.apply_for_promotion(4, now).is_ok());
    assert!(module.candidate_vote(&mut balances, 1, 3, 500, 200000, now).is_ok());
    assert!(module.candidate_challenge(&mut balances, 1, 4, 600, 300000, now + 1).is_ok());
    assert_eq!(module.vote_count(1), 2);
    assert_eq!(module.vote_index(1, 3), 1);
    assert_eq!(module.vote_index(1, 4), 2);
    let first = module.votes_of_owner_by_index(1, 1);
    assert_eq!(first.account, 3);
    assert_eq!(first.stake_for, 500);
    assert_eq!(first.stake_against, 0);
    assert_eq!(first.vote_time, now);
    assert_eq!(first.lock_time, 200000);
    assert_eq!(first.challenge_id, 0);
    let second = module.votes_of_owner_by_index(1, 2);
    assert_eq!(second.account, 4);
    assert_eq!(second.stake_for, 0);
    assert_eq!(second.stake_against, 600);
    assert_eq!(second.vote_time, now + 1);
    assert_eq!(second.challenge_id, now + 1);
    assert_eq!(module.candidate_by_account(4).challenge_start, now + 1);
}

#[test]
fn support_inside_a_challenge_window_belongs_to_the_challenge() {
    let mut module = new_module();
    let mut balances = Balances::new();
    balances.make_free_balance_be(1, 100000);
    balances.make_free_balance_be(2, 100000);
    balances.make_free_balance_be(5, 100000);
    let now = 500000;
    assert!(module.apply_for_promotion(3, now).is_ok());
    assert!(module.candidate_challenge(&mut balances, 1, 3, 600, 300000, now).is_ok());
    assert!(module.candidate_vote(&mut balances, 2, 3, 500, 200000, now + 100800).is_ok());
    assert_eq!(module.votes_of_owner_by_index(2, 1).challenge_id, now);
    assert!(module.candidate_vote(&mut balances, 5, 3, 500, 200000, now + 100801).is_ok());
    assert_eq!(module.votes_of_owner_by_index(5, 1).challenge_id, 0);
}

#[test]
fn rank_is_frozen_while_a_challenge_is_fresh() {
    let mut module = new_module();
    let mut balances = Balances::new();
    balances.make_free_balance_be(1, 100000);
    balances.make_free_balance_be(2, 100000);
    balances.make_free_balance_be(5, 100000);
    let now = 500000;
    assert!(module.apply_for_promotion(3, now).is_ok());
    assert!(module.candidate_challenge(&mut balances, 1, 3, 100, 100800, now).is_ok());
    assert!(module.candidate_vote(&mut balances, 2, 3, 7001, 1000000, now + 100799).is_ok());
    assert_eq!(module.candidate_by_account(3).votes_for, 5670);
    assert_eq!(module.candidate_by_account(3).current_rank, 0);
    assert!(module.candidate_vote(&mut balances, 5, 3, 100, 100800, now + 100800).is_ok());
    assert_eq!(module.candidate_by_account(3).current_rank, 1);
}

#[test]
fn settling_withdrawal_updates_the_rank() {
    let mut module = new_module();
    let mut balances = Balances::new();
    balances.make_free_balance_be(1, 100000);
    balances.make_free_balance_be(2, 100000);
    let opened = 500000;
    assert!(module.apply_for_promotion(3, opened).is_ok());
    assert!(module.candidate_challenge(&mut balances, 1, 3, 100, 100800, opened).is_ok());
    assert!(module.candidate_vote(&mut balances, 2, 3, 7001, 1000000, opened + 10).is_ok());
    let frozen = module.candidate_by_account(3);
    assert_eq!(frozen.votes_for, 5670);
    assert_eq!(frozen.votes_against, 1);
    assert_eq!(frozen.current_rank, 0);
    assert_eq!(
        module.cancel_candidate_vote(&mut balances, 1, 3, opened + 100801),
        Ok(Event::CancelVote(3, 100))
    );
    assert_eq!(balances.free_balance(1), 100000);
    let settled = module.candidate_by_account(3);
    assert_eq!(settled.votes_for, 5670);
    assert_eq!(settled.votes_against, 0);
    assert_eq!(settled.challenge_start, 0);
    assert_eq!(settled.current_rank, 1);
    assert!(!module.result(3, opened).success);
}

#[test]
fn vote_overflow_is_rejected_before_the_ledger_is_asked() {
    let mut params = small_params();
    params.min_lock = 1;
    let mut module = Module::new(params).unwrap();
    let mut balances = Balances::new();
    balances.make_free_balance_be(1, u64::MAX);
    balances.make_free_balance_be(2, u64::MAX);
    let now = 5000;
    assert!(module.apply_for_promotion(3, now).is_ok());
    // the weight itself is too large
    assert_eq!(
        module.candidate_vote(&mut balances, 1, 3, u64::MAX, 2, now),
        Err(Error::OverflowVotes)
    );
    assert_eq!(
        module.candidate_challenge(&mut balances, 1, 3, u64::MAX, 2, now),
        Err(Error::OverflowVotes)
    );
    // the sum is too large
    assert!(module.candidate_vote(&mut balances, 1, 3, u64::MAX - 5, 1, now).is_ok());
    assert_eq!(module.candidate_by_account(3).votes_for, u64::MAX - 5);
    assert_eq!(module.candidate_vote(&mut balances, 2, 3, 6, 1, now), Err(Error::OverflowVotes));
    assert_eq!(balances.free_balance(2), u64::MAX);
    assert_eq!(module.vote_count(2), 0);
    assert!(module.candidate_vote(&mut balances, 2, 3, 5, 1, now).is_ok());
    assert_eq!(module.candidate_by_account(3).votes_for, u64::MAX);
}

#[test]
fn locked_vote_cannot_be_withdrawn() {
    let mut module = new_module();
    let mut balances = Balances::new();
    balances.make_free_balance_be(1, 100000);
    let now = 500000;
    assert!(module.apply_for_promotion(3, now).is_ok());
    assert!(module.candidate_vote(&mut balances, 1, 3, 1000, 200000, now).is_ok());
    assert_eq!(
        module.cancel_candidate_vote(&mut balances, 1, 3, now + 200000),
        Err(Error::VoteLock)
    );
    assert_eq!(module.vote_index(1, 3), 1);
    assert_eq!(balances.free_balance(1), 99000);
    assert_eq!(
        module.cancel_candidate_vote(&mut balances, 1, 3, now + 200001),
        Ok(Event::CancelVote(3, 1000))
    );
    // 1000 * 200001 * 195069 / 10^13 = 3
    assert_eq!(balances.free_balance(1), 99000 + 1003);
    assert_eq!(module.vote_index(1, 3), 0);
    assert_eq!(module.votes_of_owner_by_index(1, 1).stake_for, 0);
    assert_eq!(module.vote_count(1), 1);
}

#[test]
fn open_challenge_holds_earlier_votes() {
    let mut module = Module::new(small_params()).unwrap();
    let mut balances = Balances::new();
    balances.make_free_balance_be(1, 1000);
    balances.make_free_balance_be(2, 1000);
    assert!(module.apply_for_promotion(3, 5000).is_ok());
    assert!(module.candidate_vote(&mut balances, 1, 3, 5, 10, 5000).is_ok());
    // the challenge opens at 5100
    assert!(module.candidate_challenge(&mut balances, 2, 3, 5, 10, 5100).is_ok());
    assert_eq!(module.candidate_by_account(3).challenge_start, 5100);
    // the lock of the supporter ran out long ago, the window has not
    assert_eq!(
        module.cancel_candidate_vote(&mut balances, 1, 3, 5100 + 1000),
        Err(Error::VoteLockChallenge)
    );
    assert_eq!(balances.free_balance(1), 995);
    assert_eq!(
        module.cancel_candidate_vote(&mut balances, 1, 3, 5100 + 1001),
        Ok(Event::CancelVote(3, 5))
    );
    // opposition 5 did not outweigh support 5
    assert!(!module.result(3, 5100).success);
    assert!(!module.result(3, 5100).executed);
    assert_eq!(module.candidate_by_account(3).challenge_start, 0);
    assert_eq!(module.candidate_by_account(3).votes_against, 0);
}

#[test]
fn supporter_is_paid_with_yield_when_nothing_is_challenged() {
    let mut module = new_module();
    let mut balances = Balances::new();
    let a = 10;
    let b = 11;
    balances.make_free_balance_be(b, 1000);
    let now = 500000;
    assert_eq!(module.apply_for_promotion(a, now), Ok(Event::CandidateStored(a, 1)));
    assert_eq!(module.candidate_by_account(a).current_rank, 0);
    assert_eq!(module.candidate_by_account(a).intended_rank, 1);
    assert_eq!(
        module.candidate_vote(&mut balances, b, a, 1000, 200000, now),
        Ok(Event::Voted(a, 1000))
    );
    assert_eq!(balances.free_balance(b), 0);
    assert_eq!(module.candidate_by_account(a).votes_for, 10);
    let later = now + 5126401;
    assert_eq!(module.cancel_request(b, a, later), Ok(1100));
    assert_eq!(
        module.cancel_candidate_vote(&mut balances, b, a, later),
        Ok(Event::CancelVote(a, 1000))
    );
    assert_eq!(balances.free_balance(b), 1100);
    assert_eq!(module.candidate_by_account(a).votes_for, 0);
    assert_eq!(module.candidate_by_account(a).current_rank, 0);
}

#[test]
fn failed_challenge_pays_the_challenger_principal_only() {
    let mut module = new_module();
    let mut balances = Balances::new();
    let candidate = 2;
    let supporter = 0;
    let challenger = 1;
    balances.make_free_balance_be(supporter, 2000);
    balances.make_free_balance_be(challenger, 2000);
    let start = 500000;
    assert!(module.apply_for_promotion(candidate, start).is_ok());
    assert!(module.candidate_vote(&mut balances, supporter, candidate, 1000, 200000, start).is_ok());
    let opened = start + 10;
    assert!(module
        .candidate_challenge(&mut balances, challenger, candidate, 1000, 200000, opened)
        .is_ok());
    let record = module.candidate_by_account(candidate);
    assert_eq!(record.votes_for, 10);
    assert_eq!(record.votes_against, 10);
    assert_eq!(record.challenge_start, opened);

    let later = opened + 1300000;
    assert_eq!(
        module.cancel_candidate_vote(&mut balances, challenger, candidate, later),
        Ok(Event::CancelVote(candidate, 1000))
    );
    assert!(!module.result(candidate, opened).success);
    assert_eq!(balances.free_balance(challenger), 2000);
    let record = module.candidate_by_account(candidate);
    assert_eq!(record.votes_against, 0);
    assert_eq!(record.challenge_start, 0);
    assert_eq!(record.votes_for, 10);

    assert_eq!(
        module.cancel_candidate_vote(&mut balances, supporter, candidate, later),
        Ok(Event::CancelVote(candidate, 1000))
    );
    // 1000 * 1300010 * 195069 / 10^13 = 25
    assert_eq!(balances.free_balance(supporter), 2025);
    assert_eq!(module.candidate_by_account(candidate).votes_for, 0);
}

#[test]
fn later_challenger_is_settled_under_its_own_height() {
    let mut module = new_module();
    let mut balances = Balances::new();
    let candidate = 2;
    balances.make_free_balance_be(1, 5000);
    balances.make_free_balance_be(4, 5000);
    let opened = 500000;
    assert!(module.apply_for_promotion(candidate, opened).is_ok());
    assert!(module.candidate_challenge(&mut balances, 1, candidate, 1000, 200000, opened).is_ok());
    let joined = opened + 50;
    assert!(module.candidate_challenge(&mut balances, 4, candidate, 1000, 200000, joined).is_ok());
    assert_eq!(module.candidate_by_account(candidate).challenge_start, opened);
    assert_eq!(module.candidate_by_account(candidate).votes_against, 20);
    assert_eq!(module.votes_of_owner_by_index(4, 1).challenge_id, joined);

    let later = opened + 1300000;
    // the opener settles the challenge and wins
    assert!(module.cancel_candidate_vote(&mut balances, 1, candidate, later).is_ok());
    assert!(module.result(candidate, opened).success);
    assert_eq!(balances.free_balance(1), 4000 + 1025);
    // nothing was ever recorded under the height at which the second joined
    assert!(!module.result(candidate, joined).success);
    assert!(module.cancel_candidate_vote(&mut balances, 4, candidate, later).is_ok());
    assert_eq!(balances.free_balance(4), 5000);
}

#[test]
fn withdrawn_opposition_leaves_the_tally() {
    let mut module = Module::new(small_params()).unwrap();
    let mut balances = Balances::new();
    balances.make_free_balance_be(1, 1000);
    balances.make_free_balance_be(2, 1000);
    assert!(module.apply_for_promotion(3, 5000).is_ok());
    assert!(module.candidate_challenge(&mut balances, 1, 3, 5, 10, 5100).is_ok());
    assert!(module.candidate_challenge(&mut balances, 2, 3, 7, 10, 5150).is_ok());
    assert_eq!(module.candidate_by_account(3).votes_against, 12);
    // the second vote came after the challenge began, so the challenge does not hold it
    assert_eq!(
        module.cancel_candidate_vote(&mut balances, 2, 3, 5170),
        Ok(Event::CancelVote(3, 7))
    );
    assert_eq!(balances.free_balance(2), 1000);
    let record = module.candidate_by_account(3);
    assert_eq!(record.votes_against, 12);
    assert_eq!(record.challenge_start, 5100);
}

#[test]
fn refused_deposit_leaves_the_vote() {
    let mut module = new_module();
    let mut balances = Balances::new();
    balances.make_free_balance_be(1, 1000);
    let now = 500000;
    assert!(module.apply_for_promotion(3, now).is_ok());
    assert!(module.candidate_vote(&mut balances, 1, 3, 1000, 200000, now).is_ok());
    balances.free.remove(&1);
    let before = module.candidate_by_account(3);
    assert_eq!(
        module.cancel_candidate_vote(&mut balances, 1, 3, now + 300000),
        Err(Error::Ledger(ERR_NO_ACCOUNT))
    );
    assert_eq!(module.candidate_by_account(3), before);
    assert_eq!(module.vote_index(1, 3), 1);
    assert_eq!(module.votes_of_owner_by_index(1, 1).stake_for, 1000);
}

#[test]
fn payout_overflow_is_rejected() {
    let mut module = new_module();
    let mut balances = Balances::new();
    let stake = 1u64 << 63;
    balances.make_free_balance_be(1, u64::MAX);
    let now = 500000;
    assert!(module.apply_for_promotion(3, now).is_ok());
    assert!(module.candidate_vote(&mut balances, 1, 3, stake, 100800, now).is_ok());
    assert_eq!(module.candidate_by_account(3).votes_for, stake / 100);
    assert_eq!(
        module.cancel_candidate_vote(&mut balances, 1, 3, now + 60_000_000),
        Err(Error::OverflowPayout)
    );
    assert_eq!(module.vote_index(1, 3), 1);
    assert_eq!(balances.free_balance(1), u64::MAX - stake);
}

#[test]
fn requests_say_what_to_move() {
    let mut module = new_module();
    assert_eq!(module.vote_request(1, 3, 1000, 200000), Err(Error::VoteRank));
    assert_eq!(module.challenge_request(1, 3, 1000, 200000), Err(Error::VoteRank));
    assert_eq!(module.cancel_request(1, 3, 10), Err(Error::VoteExist));
    assert!(module.apply_for_promotion(3, 500000).is_ok());
    assert_eq!(module.vote_request(1, 3, 1000, 200000), Ok(1000));
    assert_eq!(module.challenge_request(1, 3, 1000, 200000), Ok(1000));
    assert_eq!(module.vote_request(1, 3, 99, 200000), Err(Error::VoteMinStake));
    assert_eq!(module.vote_request(1, 3, 99, 100799), Err(Error::VoteMinLock));
    assert_eq!(module.voting_power(7001, 1000000), Some(5670));
}

#[test]
fn operations_complete_on_the_answer_of_the_ledger() {
    let mut module = new_module();
    let now = 500000;
    assert!(module.apply_for_promotion(3, now).is_ok());
    assert_eq!(
        module.vote_after_withdrawal(Err("no"), 1, 3, 1000, 200000, now),
        Err(Error::Ledger("no"))
    );
    assert_eq!(module.vote_index(1, 3), 0);
    assert_eq!(
        module.vote_after_withdrawal(Ok(()), 1, 3, 5, 200000, now),
        Err(Error::VoteMinStake)
    );
    assert_eq!(
        module.vote_after_withdrawal(Ok(()), 1, 3, 1000, 200000, now),
        Ok(Event::Voted(3, 1000))
    );
    assert_eq!(module.candidate_by_account(3).votes_for, 10);
    assert_eq!(
        module.challenge_after_withdrawal(Err("no"), 2, 3, 1000, 200000, now),
        Err(Error::Ledger("no"))
    );
    assert_eq!(module.candidate_by_account(3).votes_against, 0);
    assert_eq!(
        module.challenge_after_withdrawal(Ok(()), 2, 3, 1000, 200000, now),
        Ok(Event::Challenged(3, 1000))
    );
    assert_eq!(module.candidate_by_account(3).votes_against, 10);
    assert_eq!(
        module.cancel_after_deposit(Ok(()), 1, 3, now + 100800),
        Err(Error::VoteLockChallenge)
    );
    assert_eq!(
        module.cancel_after_deposit(Ok(()), 1, 3, now + 100801),
        Err(Error::VoteLock)
    );
    let later = now + 200001;
    assert_eq!(
        module.cancel_after_deposit(Err("no"), 1, 3, later),
        Err(Error::Ledger("no"))
    );
    assert_eq!(module.candidate_by_account(3).challenge_start, now);
    assert_eq!(
        module.cancel_after_deposit(Ok(()), 1, 3, later),
        Ok(Event::CancelVote(3, 1000))
    );
    assert_eq!(module.candidate_by_account(3).challenge_start, 0);
    assert_eq!(module.candidate_by_account(3).votes_for, 0);
}

#[test]
fn support_gone_after_a_demotion_cannot_be_taken_out_again() {
    // Heights that go back in time are the only way to name a settled
    // challenge again; the registry still answers.
    let mut module = Module::new(small_params()).unwrap();
    let mut balances = Balances::new();
    balances.make_free_balance_be(1, 1000);
    balances.make_free_balance_be(2, 1000);
    balances.make_free_balance_be(4, 1000);
    assert!(module.apply_for_promotion(3, 5000).is_ok());
    assert!(module.candidate_vote(&mut balances, 1, 3, 11, 10, 5000).is_ok());
    assert_eq!(module.candidate_by_account(3).current_rank, 1);
    assert!(module.candidate_challenge(&mut balances, 2, 3, 20, 10, 5100).is_ok());
    // settled as successful: 20 against 11
    assert!(module.cancel_candidate_vote(&mut balances, 2, 3, 6101).is_ok());
    assert!(module.result(3, 5100).success);
    assert!(!module.result(3, 5100).executed);
    // a challenge named like the settled one
    assert!(module.candidate_challenge(&mut balances, 4, 3, 1, 10, 5100).is_ok());
    assert_eq!(module.candidate_by_account(3).challenge_start, 5100);
    // the next rank update demotes
    assert!(module.apply_for_promotion(3, 6200).is_ok());
    let record = module.candidate_by_account(3);
    assert_eq!(record.current_rank, 0);
    assert_eq!(record.votes_for, 0);
    assert!(module.result(3, 5100).executed);
    // the challenge of account 4 is settled as failed: 1 against 0 would win,
    // so take the supporter out after the window instead
    assert_eq!(
        module.cancel_candidate_vote(&mut balances, 1, 3, 6200),
        Err(Error::Underflow)
    );
    assert_eq!(module.vote_index(1, 3), 1);
}

#[test]
fn every_error_has_its_message() {
    assert_eq!(Error::RankLower.message(), "Candidate already has the maximum rank");
    assert_eq!(
        Error::RankLock.message(),
        "Ranks can only be changed 4 weeks after the last change"
    );
    assert_eq!(
        Error::VoteMinStake.message(),
        "To vote you need to stake at least the minimum amount of tokens"
    );
    assert_eq!(Error::VoteMinLock.message(), "To vote you need to lock at least for one week");
    assert_eq!(Error::VoteLock.message(), "The funds are still locked");
    assert_eq!(Error::VoteLockChallenge.message(), "Can't unstake during active challenge");
    assert_eq!(
        Error::VoteRank.message(),
        "The intended rank of the candidate needs to be higher than the guest rank."
    );
    assert_eq!(
        Error::VoteExist.message(),
        "To cancel a vote, you need to have voted for the specific account"
    );
    assert_eq!(
        Error::VoteDouble.message(),
        "The previous vote needs to be canceled for this, before a new vote can be submitted"
    );
    assert_eq!(Error::OverflowVotes.message(), "Overflow adding new votes");
    assert_eq!(Error::OverflowCount.message(), "Overflow increasing vote count");
    assert_eq!(Error::Underflow.message(), "Underflow removing votes");
    assert_eq!(Error::Ledger(ERR_BALANCE_LOW).message(), ERR_BALANCE_LOW);
}
