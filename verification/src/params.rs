//! The thresholds and windows the registry is configured with.

use vstd::prelude::*;

verus! {

/// Configuration of a registry, fixed when it is created.
#[derive(Clone, Copy, PartialEq, Eq, Structural, Debug)]
pub struct Params {
    /// Support a candidate must exceed to become admiral.
    pub admiral_stake: u64,
    /// Support a candidate must exceed to join section 31.
    pub section31_stake: u64,
    /// Support a candidate must exceed to become captain.
    pub captain_stake: u64,
    /// Support a candidate must exceed to become engineer.
    pub engineer_stake: u64,
    /// Support a candidate must exceed to join the crew.
    pub crew_stake: u64,
    /// The least stake a vote may lock.
    pub min_stake: u64,
    /// The least number of blocks a vote may lock its stake for.
    pub min_lock: u64,
    /// Blocks that must pass between two applications of one account.
    pub rank_lock: u64,
    /// Length of the window in which a challenge stays open.
    pub challenge_lock: u64,
}

impl Params {
    /// The minimum stake and the minimum lock are positive, and the
    /// thresholds rise strictly with the rank.
    pub open spec fn wf(self) -> bool {
        &&& self.min_stake > 0
        &&& self.min_lock > 0
        &&& self.crew_stake < self.engineer_stake
        &&& self.engineer_stake < self.captain_stake
        &&& self.captain_stake < self.section31_stake
        &&& self.section31_stake < self.admiral_stake
    }

    /// The values a registry has unless told otherwise: a week of six-second
    /// blocks as the minimum lock and as the challenge window, four weeks
    /// between applications.
    pub open spec fn standard() -> Self {
        Params {
            admiral_stake: 5000,
            section31_stake: 4000,
            captain_stake: 3000,
            engineer_stake: 2000,
            crew_stake: 1000,
            min_stake: 100,
            min_lock: 100800,
            rank_lock: 403200,
            challenge_lock: 100800,
        }
    }

    /// The support a candidate must exceed to reach `rank`. A rank off the
    /// ladder, and the guest rank, have no threshold.
    pub open spec fn threshold(self, rank: u16) -> Option<u64> {
        if rank == 5 {
            Some(self.admiral_stake)
        } else if rank == 4 {
            Some(self.section31_stake)
        } else if rank == 3 {
            Some(self.captain_stake)
        } else if rank == 2 {
            Some(self.engineer_stake)
        } else if rank == 1 {
            Some(self.crew_stake)
        } else {
            None
        }
    }

    /// Whether the values are well-formed.
    pub fn is_valid(&self) -> (valid: bool)
        ensures
            valid == self.wf(),
    {
        self.min_stake > 0 && self.min_lock > 0 && self.crew_stake < self.engineer_stake
            && self.engineer_stake < self.captain_stake && self.captain_stake
            < self.section31_stake && self.section31_stake < self.admiral_stake
    }
}

impl Default for Params {
    fn default() -> (params: Self)
        ensures
            params == Self::standard(),
            params.wf(),
    {
        Params {
            admiral_stake: 5000,
            section31_stake: 4000,
            captain_stake: 3000,
            engineer_stake: 2000,
            crew_stake: 1000,
            min_stake: 100,
            min_lock: 100800,
            rank_lock: 403200,
            challenge_lock: 100800,
        }
    }
}

} // verus!
