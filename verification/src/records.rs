//! The records the registry keeps, the notifications it emits and the
//! reasons for which it rejects an operation.

use vstd::prelude::*;

verus! {

/// The highest rank of the ladder.
pub const ADMIRAL_RANK: u16 = 5;

pub const SECTION31_RANK: u16 = 4;

pub const CAPTAIN_RANK: u16 = 3;

pub const ENGINEER_RANK: u16 = 2;

pub const CREW_RANK: u16 = 1;

/// The rank of an account that never applied, and of a demoted one.
pub const GUEST_RANK: u16 = 0;

/// One account's standing in the registry.
#[derive(Clone, Copy, PartialEq, Eq, Structural, Debug)]
pub struct Candidate<BlockNumber> {
    /// The rank currently held.
    pub current_rank: u16,
    /// The rank applied for; equal to `current_rank` when nothing is open.
    pub intended_rank: u16,
    /// Accumulated weight of the supporting votes.
    pub votes_for: u64,
    /// Accumulated weight of the opposing votes of the open challenge.
    pub votes_against: u64,
    /// Height of the last successful application; 0 before the first.
    pub last_change: BlockNumber,
    /// Height at which the open challenge began; 0 when none is open.
    pub challenge_start: BlockNumber,
}

/// One voter's locked stake on one candidate.
#[derive(Clone, Copy, PartialEq, Eq, Structural, Debug)]
pub struct Vote<Account, Balance, BlockNumber> {
    /// The candidate voted on.
    pub account: Account,
    /// Stake locked in support; 0 for an opposing vote.
    pub stake_for: Balance,
    /// Stake locked in opposition; 0 for a supporting vote.
    pub stake_against: Balance,
    /// Height at which the stake was locked.
    pub vote_time: BlockNumber,
    /// Number of blocks the stake stays locked.
    pub lock_time: BlockNumber,
    /// The challenge the vote belongs to; 0 for none.
    pub challenge_id: BlockNumber,
}

/// The outcome of one challenge.
#[derive(Clone, Copy, PartialEq, Eq, Structural, Debug)]
pub struct ChallengeResult {
    /// Whether the opposition outweighed the support when it was settled.
    pub success: bool,
    /// Whether the demotion that follows a successful challenge was applied.
    pub executed: bool,
}

/// What an operation asks the caller to announce.
#[derive(Clone, Copy, PartialEq, Eq, Structural, Debug)]
pub enum Event {
    /// An account applied; carries its new intended rank.
    CandidateStored(u64, u16),
    /// Stake was locked in support of the candidate.
    Voted(u64, u64),
    /// Stake was locked in opposition to the candidate.
    Challenged(u64, u64),
    /// A vote on the candidate was withdrawn; carries the stake it held.
    CancelVote(u64, u64),
}

/// Why an operation was rejected. A rejected operation changes nothing.
#[derive(Clone, Copy, PartialEq, Eq, Debug)]
pub enum Error {
    /// The candidate already holds the highest rank.
    RankLower,
    /// The last application is too recent.
    RankLock,
    /// The stake is below the minimum.
    VoteMinStake,
    /// The lock is shorter than the minimum.
    VoteMinLock,
    /// The lock of the vote has not yet run out.
    VoteLock,
    /// The vote is covered by a challenge that is still open.
    VoteLockChallenge,
    /// The target has no open application.
    VoteRank,
    /// The caller holds no vote on the candidate.
    VoteExist,
    /// The caller already holds a vote on the candidate.
    VoteDouble,
    /// The candidate's accumulated weight would exceed 64 bits.
    OverflowVotes,
    /// The voter's vote counter would exceed 64 bits.
    OverflowCount,
    /// The vote weighs more than the candidate's accumulated support.
    Underflow,
    /// The stake with its yield would exceed 64 bits.
    OverflowPayout,
    /// The ledger refused; carries its reason unchanged.
    Ledger(&'static str),
}

impl Default for Candidate<u64> {
    fn default() -> (candidate: Self)
        ensures
            candidate == Self::zero(),
    {
        Candidate {
            current_rank: 0,
            intended_rank: 0,
            votes_for: 0,
            votes_against: 0,
            last_change: 0,
            challenge_start: 0,
        }
    }
}

impl Candidate<u64> {
    /// The record of an account that never applied.
    pub open spec fn zero() -> Self {
        Candidate {
            current_rank: 0,
            intended_rank: 0,
            votes_for: 0,
            votes_against: 0,
            last_change: 0,
            challenge_start: 0,
        }
    }

    /// The ranks are on the ladder, the held rank is not above the intended
    /// one, and an open challenge carries opposing weight.
    pub open spec fn wf(self) -> bool {
        &&& self.current_rank <= self.intended_rank <= ADMIRAL_RANK
        &&& self.challenge_start != 0 ==> self.votes_against != 0
    }
}

impl Default for Vote<u64, u64, u64> {
    fn default() -> (vote: Self)
        ensures
            vote == Self::zero(),
    {
        Vote {
            account: 0,
            stake_for: 0,
            stake_against: 0,
            vote_time: 0,
            lock_time: 0,
            challenge_id: 0,
        }
    }
}

impl Vote<u64, u64, u64> {
    /// What an empty slot reads as.
    pub open spec fn zero() -> Self {
        Vote {
            account: 0,
            stake_for: 0,
            stake_against: 0,
            vote_time: 0,
            lock_time: 0,
            challenge_id: 0,
        }
    }

    /// Whether the vote opposes its candidate.
    pub open spec fn opposes(self) -> bool {
        self.stake_against != 0
    }

    /// The stake on the side the vote backs.
    pub open spec fn stake(self) -> u64 {
        if self.opposes() {
            self.stake_against
        } else {
            self.stake_for
        }
    }
}

impl Default for ChallengeResult {
    fn default() -> (result: Self)
        ensures
            result == Self::zero(),
    {
        ChallengeResult { success: false, executed: false }
    }
}

impl ChallengeResult {
    /// What an unsettled challenge reads as.
    pub open spec fn zero() -> Self {
        ChallengeResult { success: false, executed: false }
    }
}

impl Error {
    /// The reason in words.
    pub fn message(&self) -> (text: &'static str)
        ensures
            text@ == self.message_spec(),
    {
        match self {
            Error::RankLower => "Candidate already has the maximum rank",
            Error::RankLock => "Ranks can only be changed 4 weeks after the last change",
            Error::VoteMinStake => "To vote you need to stake at least the minimum amount of tokens",
            Error::VoteMinLock => "To vote you need to lock at least for one week",
            Error::VoteLock => "The funds are still locked",
            Error::VoteLockChallenge => "Can't unstake during active challenge",
            Error::VoteRank => "The intended rank of the candidate needs to be higher than the guest rank.",
            Error::VoteExist => "To cancel a vote, you need to have voted for the specific account",
            Error::VoteDouble => "The previous vote needs to be canceled for this, before a new vote can be submitted",
            Error::OverflowVotes => "Overflow adding new votes",
            Error::OverflowCount => "Overflow increasing vote count",
            Error::Underflow => "Underflow removing votes",
            Error::OverflowPayout => "Overflow adding the yield to the stake",
            Error::Ledger(reason) => reason,
        }
    }

    /// The text that [`Error::message`] returns.
    pub open spec fn message_spec(self) -> Seq<char> {
        match self {
            Error::RankLower => "Candidate already has the maximum rank"@,
            Error::RankLock => "Ranks can only be changed 4 weeks after the last change"@,
            Error::VoteMinStake => "To vote you need to stake at least the minimum amount of tokens"@,
            Error::VoteMinLock => "To vote you need to lock at least for one week"@,
            Error::VoteLock => "The funds are still locked"@,
            Error::VoteLockChallenge => "Can't unstake during active challenge"@,
            Error::VoteRank => "The intended rank of the candidate needs to be higher than the guest rank."@,
            Error::VoteExist => "To cancel a vote, you need to have voted for the specific account"@,
            Error::VoteDouble => "The previous vote needs to be canceled for this, before a new vote can be submitted"@,
            Error::OverflowVotes => "Overflow adding new votes"@,
            Error::OverflowCount => "Overflow increasing vote count"@,
            Error::Underflow => "Underflow removing votes"@,
            Error::OverflowPayout => "Overflow adding the yield to the stake"@,
            Error::Ledger(reason) => reason@,
        }
    }
}

} // verus!
