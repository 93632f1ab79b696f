use crate::midstate::{midstate_idx_of, work_id_of};
use crate::registry::{MiningWorkRegistry, RegistryView, Solution, UniqueSolution, Work};
use crate::stats::Mining;
use crate::trace::{lemma_run_push, run};
use vstd::prelude::*;

verus! {

/// What the solution receive task is waiting for.
#[derive(Debug, Clone, Copy, PartialEq, Eq, Structural)]
pub enum RxPhase {
    /// Not started.
    Idle,
    /// The next solution of the hardware.
    Receiving,
    /// Word on whether the solution passed on last meets the target.
    Validating,
    /// Nothing: the task has ended on a failure.
    Failed,
}

/// What has happened on the receive side of the hardware channel.
#[derive(Debug, Clone, Copy, PartialEq, Eq)]
pub enum RxEvent {
    /// The hardware has reported a solution.
    Solution(Solution),
    /// The solution handed out last has been checked against the target
    /// and passed on.
    Validated { hits_target: bool },
    /// The channel has failed.
    Failed,
}

/// One thing for the owner of the receive channel to do.
#[derive(Debug, Clone, Copy, PartialEq, Eq)]
pub enum RxAction {
    /// Wait for a solution; answered with `RxEvent::Solution`.
    RecvSolution,
    /// Check the solution against the target that the chips are set to and
    /// send it to the solution consumer whether it meets the target or not;
    /// answered with `RxEvent::Validated`.
    Forward(UniqueSolution),
    /// Stop: the task has ended on a failure.
    Abort,
}

/// All that the receive task works on: its own state, the registry and the
/// statistics that it shares with the transmit task.
pub struct RxState {
    pub phase: RxPhase,
    pub asic_difficulty: usize,
    pub registry: RegistryView,
    pub stats: Mining,
}

/// The task ends on a failure.
pub open spec fn rx_fail(s: RxState) -> (RxState, RxAction) {
    (RxState { phase: RxPhase::Failed, ..s }, RxAction::Abort)
}

/// A solution has come in: it is looked up by the work id in its hardware
/// id, handed to the work found, and counted as what it turns out to be.
/// Only a unique solution is passed on; it counts as one solution and as
/// the difficulty in shares.
pub open spec fn rx_solution(s: RxState, solution: Solution) -> (RxState, RxAction) {
    let work_id = work_id_of(solution.hardware_id, s.registry.midstate_count);
    match s.registry.find(work_id) {
        None => (RxState { stats: s.stats.plus_stale(), ..s }, RxAction::RecvSolution),
        Some(item) => {
            let status = item.classify(solution);
            let registry = s.registry.with_item(work_id, item.insert(solution));
            match status.unique_solution {
                Some(unique_solution) => (
                    RxState {
                        phase: RxPhase::Validating,
                        registry,
                        stats: s.stats.plus_unique(s.asic_difficulty),
                        ..s
                    },
                    RxAction::Forward(unique_solution),
                ),
                None => if status.duplicate {
                    (
                        RxState { registry, stats: s.stats.plus_duplicate(), ..s },
                        RxAction::RecvSolution,
                    )
                } else {
                    (
                        RxState { registry, stats: s.stats.plus_mismatched(), ..s },
                        RxAction::RecvSolution,
                    )
                },
            }
        },
    }
}

/// Where the receive task begins.
pub open spec fn rx_start(s: RxState) -> (RxState, RxAction) {
    (RxState { phase: RxPhase::Receiving, ..s }, RxAction::RecvSolution)
}

/// The decisions of the receive task: what becomes of the registry and the
/// statistics, and what the task asks for next, on each event.
///
/// A solution that misses the target is a hardware error; it has been
/// passed on all the same. A failure of the channel ends the task, and so
/// does an event that the task has not asked for.
pub open spec fn rx_next(s: RxState, event: RxEvent) -> (RxState, RxAction) {
    match (s.phase, event) {
        (RxPhase::Failed, _) => (s, RxAction::Abort),
        (RxPhase::Receiving, RxEvent::Solution(solution)) => rx_solution(s, solution),
        (RxPhase::Validating, RxEvent::Validated { hits_target }) => (
            RxState {
                phase: RxPhase::Receiving,
                stats: if hits_target {
                    s.stats
                } else {
                    s.stats.plus_hardware_error()
                },
                ..s
            },
            RxAction::RecvSolution,
        ),
        _ => rx_fail(s),
    }
}

/// The receive task as contracts see it.
pub struct RxTaskView {
    pub phase: RxPhase,
    pub asic_difficulty: usize,
}

impl RxTaskView {
    /// The task together with what it works on.
    pub open spec fn with(self, registry: RegistryView, stats: Mining) -> RxState {
        RxState { phase: self.phase, asic_difficulty: self.asic_difficulty, registry, stats }
    }
}

/// The solution receive task: it takes the solutions of the hardware,
/// finds the work of each in the registry, tells unique solutions from
/// duplicates, mismatches and stale ones, keeps count, and passes the
/// unique ones on.
#[derive(Debug)]
pub struct SolutionRxTask {
    phase: RxPhase,
    /// Difficulty that the chips are set to
    asic_difficulty: usize,
}

impl View for SolutionRxTask {
    type V = RxTaskView;

    closed spec fn view(&self) -> RxTaskView {
        RxTaskView { phase: self.phase, asic_difficulty: self.asic_difficulty }
    }
}

impl SolutionRxTask {
    /// A task for chips that are set to `asic_difficulty`.
    pub fn new(asic_difficulty: usize) -> (task: Self)
        ensures
            task@ == (RxTaskView { phase: RxPhase::Idle, asic_difficulty }),
    {
        Self { phase: RxPhase::Idle, asic_difficulty }
    }

    /// What the task is waiting for.
    pub fn phase(&self) -> (r: RxPhase)
        ensures
            r == self@.phase,
    {
        self.phase
    }

    /// Difficulty that the chips are set to.
    pub fn asic_difficulty(&self) -> (r: usize)
        ensures
            r == self@.asic_difficulty,
    {
        self.asic_difficulty
    }

    /// Starts the task, or starts it anew, and returns its first action.
    pub fn start(&mut self) -> (action: RxAction)
        ensures
            final(self)@ == (RxTaskView { phase: RxPhase::Receiving, ..old(self)@ }),
            action == RxAction::RecvSolution,
    {
        self.phase = RxPhase::Receiving;
        RxAction::RecvSolution
    }

    /// The task ends on a failure.
    fn fail(&mut self) -> (action: RxAction)
        ensures
            final(self)@ == (RxTaskView { phase: RxPhase::Failed, ..old(self)@ }),
            action == RxAction::Abort,
    {
        self.phase = RxPhase::Failed;
        RxAction::Abort
    }

    /// Takes what has happened on the channel and returns what to do next.
    /// The registry and the statistics are only touched for the time of the
    /// call.
    pub fn step(
        &mut self,
        event: RxEvent,
        registry: &mut MiningWorkRegistry,
        stats: &mut Mining,
    ) -> (action: RxAction)
        requires
            old(stats).has_room(old(self)@.asic_difficulty),
        ensures
            (final(self)@.with(final(registry)@, *final(stats)), action) == rx_next(
                old(self)@.with(old(registry)@, *old(stats)),
                event,
            ),
    {
        match self.phase {
            RxPhase::Failed => RxAction::Abort,
            RxPhase::Idle => self.fail(),
            RxPhase::Receiving => match event {
                RxEvent::Solution(solution) => self.solution_rx(solution, registry, stats),
                _ => self.fail(),
            },
            RxPhase::Validating => match event {
                RxEvent::Validated { hits_target } => {
                    if !hits_target {
                        stats.error_stats.hardware_errors += 1;
                    }
                    self.phase = RxPhase::Receiving;
                    RxAction::RecvSolution
                },
                _ => self.fail(),
            },
        }
    }

    /// Resolves a solution against the registry and counts it.
    fn solution_rx(
        &mut self,
        solution: Solution,
        registry: &mut MiningWorkRegistry,
        stats: &mut Mining,
    ) -> (action: RxAction)
        requires
            old(stats).has_room(old(self)@.asic_difficulty),
        ensures
            (final(self)@.with(final(registry)@, *final(stats)), action) == rx_solution(
                old(self)@.with(old(registry)@, *old(stats)),
                solution,
            ),
    {
        let work_id = registry.midstate_count().work_id(solution.hardware_id);
        match registry.find_work(work_id) {
            Some(work_item) => {
                let status = work_item.insert_solution(solution);
                // work item detected a new unique solution, we will push it
                // for further processing
                match status.unique_solution {
                    Some(unique_solution) => {
                        stats.unique_solutions += 1;
                        stats.unique_solutions_shares += self.asic_difficulty as u64;
                        self.phase = RxPhase::Validating;
                        RxAction::Forward(unique_solution)
                    },
                    None => {
                        if status.duplicate {
                            stats.error_stats.duplicate_solutions += 1;
                        } else {
                            stats.error_stats.mismatched_solution_nonces += 1;
                        }
                        RxAction::RecvSolution
                    },
                }
            },
            None => {
                stats.error_stats.stale_solutions += 1;
                RxAction::RecvSolution
            },
        }
    }
}

/// The receive task as a machine.
pub open spec fn rx_machine() -> spec_fn(RxState, RxEvent) -> (RxState, RxAction) {
    |s: RxState, event: RxEvent| rx_next(s, event)
}

/// Whatever comes in, no count is ever reset or lowered, and each event
/// adds at most one to the count of solutions of one kind.
pub proof fn lemma_counts_only_grow(s: RxState, event: RxEvent)
    requires
        s.stats.has_room(s.asic_difficulty),
    ensures
        ({
            let before = s.stats;
            let after = rx_next(s, event).0.stats;
            &&& after.work_generated == before.work_generated
            &&& before.unique_solutions <= after.unique_solutions <= before.unique_solutions + 1
            &&& after.unique_solutions_shares == before.unique_solutions_shares + (
            if after.unique_solutions == before.unique_solutions {
                0
            } else {
                s.asic_difficulty as int
            })
            &&& before.error_stats.hardware_errors <= after.error_stats.hardware_errors
                <= before.error_stats.hardware_errors + 1
            &&& before.error_stats.stale_solutions <= after.error_stats.stale_solutions
                <= before.error_stats.stale_solutions + 1
            &&& before.error_stats.duplicate_solutions <= after.error_stats.duplicate_solutions
                <= before.error_stats.duplicate_solutions + 1
            &&& before.error_stats.mismatched_solution_nonces
                <= after.error_stats.mismatched_solution_nonces
                <= before.error_stats.mismatched_solution_nonces + 1
        }),
{
}

/// The receive task never gives out a work id and never puts work into a
/// slot or takes it out: whatever comes in, the same works are found under
/// the same ids afterwards, and only the work that a solution names can
/// have one more midstate solved.
pub proof fn lemma_registry_keeps_its_work(s: RxState, event: RxEvent, id: int)
    requires
        s.registry.wf(),
    ensures
        ({
            let after = rx_next(s, event).0.registry;
            &&& after.wf()
            &&& after.next_work_id == s.registry.next_work_id
            &&& after.work_id_range() == s.registry.work_id_range()
            &&& after.midstate_count == s.registry.midstate_count
            &&& after.find(id) is Some <==> s.registry.find(id) is Some
            &&& s.registry.find(id) matches Some(item) ==> {
                &&& after.find(id)->Some_0.work == item.work
                &&& after.find(id)->Some_0.midstate_count == item.midstate_count
                &&& item.solved.subset_of(after.find(id)->Some_0.solved)
                &&& after.find(id)->Some_0 != item ==> event is Solution && id == work_id_of(
                    event->Solution_0.hardware_id,
                    s.registry.midstate_count,
                )
            }
        }),
{
}

/// A solution for a work id that no work has, or that the registry does
/// not have, is stale: it is counted as such and nothing else happens.
pub proof fn lemma_unknown_work_is_stale(s: RxState, solution: Solution)
    requires
        s.phase is Receiving,
        s.registry.find(work_id_of(solution.hardware_id, s.registry.midstate_count)) is None,
    ensures
        rx_next(s, RxEvent::Solution(solution)) == (
            RxState { stats: s.stats.plus_stale(), ..s },
            RxAction::RecvSolution,
        ),
{
}

/// Work that has just been registered is found by the solutions that name
/// it: a solution that carries the id that the work was given, and the
/// index of one of its midstates, is unique and is passed on with the
/// work.
pub proof fn lemma_solution_of_registered_work(s: RxState, work: Work, solution: Solution)
    requires
        s.phase is Receiving,
        s.registry.wf(),
        work_id_of(solution.hardware_id, s.registry.midstate_count) == s.registry.next_work_id,
        midstate_idx_of(solution.hardware_id, s.registry.midstate_count) < work.midstates,
    ensures
        ({
            let registered = RxState { registry: s.registry.store(work), ..s };
            let midstate_idx = midstate_idx_of(solution.hardware_id, s.registry.midstate_count);
            let (end, action) = rx_next(registered, RxEvent::Solution(solution));
            &&& action == RxAction::Forward(
                UniqueSolution { work, midstate_idx: midstate_idx as usize, solution },
            )
            &&& end.phase is Validating
            &&& end.stats == s.stats.plus_unique(s.asic_difficulty)
            &&& end.registry.find(s.registry.next_work_id) == Some(
                s.registry.fresh(work).insert(solution),
            )
        }),
{
}

/// The same midstate of the same work reported twice: the first report is
/// passed on with the work and counts as a unique solution, the second
/// counts as a duplicate and goes nowhere.
pub proof fn lemma_repeated_solution(
    s: RxState,
    first: Solution,
    hits_target: bool,
    second: Solution,
)
    requires
        s.phase is Receiving,
        second.hardware_id == first.hardware_id,
        s.registry.find(work_id_of(first.hardware_id, s.registry.midstate_count)) matches Some(
            item,
        ) && {
            let midstate_idx = midstate_idx_of(first.hardware_id, item.midstate_count);
            midstate_idx < item.work.midstates && !item.solved.contains(midstate_idx)
        },
    ensures
        ({
            let work_id = work_id_of(first.hardware_id, s.registry.midstate_count);
            let item = s.registry.find(work_id)->Some_0;
            let midstate_idx = midstate_idx_of(first.hardware_id, item.midstate_count);
            let counted = s.stats.plus_unique(s.asic_difficulty);
            let events = seq![
                RxEvent::Solution(first),
                RxEvent::Validated { hits_target },
                RxEvent::Solution(second),
            ];
            let (end, actions) = run(rx_machine(), s, events);
            &&& actions == seq![
                RxAction::Forward(
                    UniqueSolution {
                        work: item.work,
                        midstate_idx: midstate_idx as usize,
                        solution: first,
                    },
                ),
                RxAction::RecvSolution,
                RxAction::RecvSolution,
            ]
            &&& end.phase is Receiving
            &&& end.registry == s.registry.with_item(work_id, item.insert(first))
            &&& end.stats == if hits_target {
                counted.plus_duplicate()
            } else {
                counted.plus_hardware_error().plus_duplicate()
            }
        }),
{
    let work_id = work_id_of(first.hardware_id, s.registry.midstate_count);
    let item = s.registry.find(work_id)->Some_0;
    let e0 = RxEvent::Solution(first);
    let e1 = RxEvent::Validated { hits_target };
    let e2 = RxEvent::Solution(second);
    let none = Seq::<RxEvent>::empty();
    lemma_run_push(rx_machine(), s, none, e0);
    lemma_run_push(rx_machine(), s, none.push(e0), e1);
    lemma_run_push(rx_machine(), s, none.push(e0).push(e1), e2);
    assert(none.push(e0).push(e1).push(e2) =~= seq![e0, e1, e2]);
    item.lemma_unique_then_duplicate(first, second);
    let (s1, a0) = rx_next(s, e0);
    let (s2, a1) = rx_next(s1, e1);
    let (s3, a2) = rx_next(s2, e2);
    let marked = item.insert(first);
    assert(s1.registry.find(work_id) == Some(marked));
    assert(marked.insert(second) == marked);
    assert(s3.registry =~= s.registry.with_item(work_id, marked));
    assert(Seq::<RxAction>::empty().push(a0).push(a1).push(a2) =~= seq![a0, a1, a2]);
}

} // verus!
