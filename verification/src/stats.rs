use vstd::prelude::*;

verus! {

/// Counts of the solutions that were no good.
#[derive(Debug, Clone, Copy, PartialEq, Eq)]
pub struct MiningErrors {
    /// Solutions that do not meet the target the chips are set to.
    pub hardware_errors: u64,
    /// Solutions for work that the registry does not know.
    pub stale_solutions: u64,
    /// Solutions that had come in before.
    pub duplicate_solutions: u64,
    /// Solutions for a midstate that their work does not have.
    pub mismatched_solution_nonces: u64,
}

/// Counts of what the hashboard has been given and what it has found. They
/// only ever grow.
#[derive(Debug, Clone, Copy, PartialEq, Eq)]
pub struct Mining {
    /// Midstates that have been sent to the chips.
    pub work_generated: usize,
    /// Solutions that were passed on.
    pub unique_solutions: u64,
    /// The same, each weighed with the difficulty it was found at.
    pub unique_solutions_shares: u64,
    pub error_stats: MiningErrors,
}

impl Mining {
    /// Nothing counted.
    pub open spec fn zero() -> Mining {
        Mining {
            work_generated: 0,
            unique_solutions: 0,
            unique_solutions_shares: 0,
            error_stats: MiningErrors {
                hardware_errors: 0,
                stale_solutions: 0,
                duplicate_solutions: 0,
                mismatched_solution_nonces: 0,
            },
        }
    }

    /// Whether one more solution found at `difficulty` can be counted,
    /// whatever it turns out to be.
    pub open spec fn has_room(self, difficulty: usize) -> bool {
        &&& self.unique_solutions < u64::MAX
        &&& self.unique_solutions_shares + difficulty <= u64::MAX
        &&& self.error_stats.hardware_errors < u64::MAX
        &&& self.error_stats.stale_solutions < u64::MAX
        &&& self.error_stats.duplicate_solutions < u64::MAX
        &&& self.error_stats.mismatched_solution_nonces < u64::MAX
    }

    /// With `midstates` more midstates sent.
    pub open spec fn plus_work(self, midstates: usize) -> Mining {
        Mining { work_generated: (self.work_generated + midstates) as usize, ..self }
    }

    /// With one more solution passed on, found at `difficulty`.
    pub open spec fn plus_unique(self, difficulty: usize) -> Mining {
        Mining {
            unique_solutions: (self.unique_solutions + 1) as u64,
            unique_solutions_shares: (self.unique_solutions_shares + difficulty) as u64,
            ..self
        }
    }

    /// With one more solution that misses the target.
    pub open spec fn plus_hardware_error(self) -> Mining {
        Mining {
            error_stats: MiningErrors {
                hardware_errors: (self.error_stats.hardware_errors + 1) as u64,
                ..self.error_stats
            },
            ..self
        }
    }

    /// With one more solution for unknown work.
    pub open spec fn plus_stale(self) -> Mining {
        Mining {
            error_stats: MiningErrors {
                stale_solutions: (self.error_stats.stale_solutions + 1) as u64,
                ..self.error_stats
            },
            ..self
        }
    }

    /// With one more repeated solution.
    pub open spec fn plus_duplicate(self) -> Mining {
        Mining {
            error_stats: MiningErrors {
                duplicate_solutions: (self.error_stats.duplicate_solutions + 1) as u64,
                ..self.error_stats
            },
            ..self
        }
    }

    /// With one more solution for a midstate that is not there.
    pub open spec fn plus_mismatched(self) -> Mining {
        Mining {
            error_stats: MiningErrors {
                mismatched_solution_nonces: (self.error_stats.mismatched_solution_nonces
                    + 1) as u64,
                ..self.error_stats
            },
            ..self
        }
    }

    /// Statistics of a run that is about to begin.
    pub fn new() -> (stats: Self)
        ensures
            stats == Self::zero(),
    {
        Mining {
            work_generated: 0,
            unique_solutions: 0,
            unique_solutions_shares: 0,
            error_stats: MiningErrors {
                hardware_errors: 0,
                stale_solutions: 0,
                duplicate_solutions: 0,
                mismatched_solution_nonces: 0,
            },
        }
    }

    /// Whether one more solution found at `difficulty` can be counted,
    /// whatever it turns out to be.
    pub fn can_count_solution(&self, difficulty: usize) -> (r: bool)
        ensures
            r == self.has_room(difficulty),
    {
        self.unique_solutions < u64::MAX && self.unique_solutions_shares <= u64::MAX
            - difficulty as u64 && self.error_stats.hardware_errors < u64::MAX
            && self.error_stats.stale_solutions < u64::MAX
            && self.error_stats.duplicate_solutions < u64::MAX
            && self.error_stats.mismatched_solution_nonces < u64::MAX
    }

    /// Whether `midstates` more midstates can be counted.
    pub fn can_count_work(&self, midstates: usize) -> (r: bool)
        ensures
            r == (self.work_generated + midstates <= usize::MAX),
    {
        self.work_generated <= usize::MAX - midstates
    }
}

} // verus!
