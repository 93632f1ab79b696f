use crate::config::NUM_CORES_ON_CHIP;
use crate::midstate::MidstateCount;
use crate::registry::{MiningWorkRegistry, RegistryView, Work};
use crate::stats::Mining;
use crate::trace::{lemma_run_push, lemma_run_steps, run};
use vstd::prelude::*;

verus! {

/// What the work transmit task is waiting for.
#[derive(Debug, Clone, Copy, PartialEq, Eq)]
pub enum TxPhase {
    /// Not started.
    Idle,
    /// Room in the FIFO for the placeholder work that was stored under
    /// `work_id`, after `sent` others.
    PrimingRoom { sent: usize, work_id: usize },
    /// The placeholder work after `sent` others to be on its way.
    PrimingSend { sent: usize },
    /// Room in the FIFO for the next work.
    WaitingForRoom,
    /// The next work of the generator.
    Generating,
    /// Work with so many midstates to be on its way.
    Sending { midstates: usize },
    /// Nothing: the generator has run dry.
    Finished,
    /// Nothing: the task has ended on a failure.
    Failed,
}

/// How the action handed out last has ended.
#[derive(Debug, Clone, Copy, PartialEq, Eq)]
pub enum TxEvent {
    /// There is room in the FIFO, or the work is on its way.
    Done,
    /// The channel has failed.
    Failed,
    /// What the generator has to give; `None` when it has run dry.
    Work(Option<Work>),
}

/// One thing for the owner of the transmit channel to do.
#[derive(Debug, Clone, Copy, PartialEq, Eq)]
pub enum TxAction {
    /// Wait until the FIFO has room for a work; answered with
    /// `TxEvent::Done`.
    WaitForRoom,
    /// Write the work to the FIFO under the work id; answered with
    /// `TxEvent::Done`.
    SendWork { work: Work, work_id: usize },
    /// Wait for the next work of the generator; answered with
    /// `TxEvent::Work`.
    GenerateWork,
    /// Tell the system to shut down: there is no more work.
    Shutdown,
    /// Stop: the task has ended on a failure.
    Abort,
}

/// All that the transmit task works on: its own state, the registry and
/// the statistics that it shares with the receive task.
pub struct TxState {
    pub phase: TxPhase,
    pub midstate_count: MidstateCount,
    pub registry: RegistryView,
    pub stats: Mining,
}

/// Placeholder work that opens the cores of a chip: it comes from no job
/// and has as many midstates as the hardware takes.
pub open spec fn open_core_work(midstate_count: MidstateCount) -> Work {
    Work { job: None, midstates: midstate_count@ as usize }
}

/// The task ends on a failure.
pub open spec fn tx_fail(s: TxState) -> (TxState, TxAction) {
    (TxState { phase: TxPhase::Failed, ..s }, TxAction::Abort)
}

/// Registers a placeholder work, after `sent` others, and waits for room
/// to send it.
pub open spec fn tx_prime(s: TxState, sent: usize) -> (TxState, TxAction) {
    (
        TxState {
            phase: TxPhase::PrimingRoom { sent, work_id: s.registry.next_work_id as usize },
            registry: s.registry.store(open_core_work(s.midstate_count)),
            ..s
        },
        TxAction::WaitForRoom,
    )
}

/// Where the transmit task begins: with the first placeholder work.
pub open spec fn tx_start(s: TxState) -> (TxState, TxAction) {
    tx_prime(s, 0)
}

/// The decisions of the transmit task: what becomes of the registry and
/// the statistics, and what the task asks for next, on each event.
///
/// The task first sends one placeholder work for each core of a chip, each
/// registered before there is room for it. From then on it waits for room,
/// then for work; it registers the work, sends it under the id that the
/// registry has given it, and counts its midstates once it is on its way.
/// When the generator has run dry the task asks for the shutdown of the
/// system. A failure of the channel ends the task without that, and so
/// does an event that the task has not asked for.
pub open spec fn tx_next(s: TxState, event: TxEvent) -> (TxState, TxAction) {
    match (s.phase, event) {
        (TxPhase::Finished, _) => (s, TxAction::Shutdown),
        (TxPhase::Failed, _) => (s, TxAction::Abort),
        (TxPhase::PrimingRoom { sent, work_id }, TxEvent::Done) => (
            TxState { phase: TxPhase::PrimingSend { sent }, ..s },
            TxAction::SendWork { work: open_core_work(s.midstate_count), work_id },
        ),
        (TxPhase::PrimingSend { sent }, TxEvent::Done) => if sent + 1 < NUM_CORES_ON_CHIP {
            tx_prime(s, (sent + 1) as usize)
        } else {
            (TxState { phase: TxPhase::WaitingForRoom, ..s }, TxAction::WaitForRoom)
        },
        (TxPhase::WaitingForRoom, TxEvent::Done) => (
            TxState { phase: TxPhase::Generating, ..s },
            TxAction::GenerateWork,
        ),
        (TxPhase::Generating, TxEvent::Work(None)) => (
            TxState { phase: TxPhase::Finished, ..s },
            TxAction::Shutdown,
        ),
        (TxPhase::Generating, TxEvent::Work(Some(work))) => (
            TxState {
                phase: TxPhase::Sending { midstates: work.midstates },
                registry: s.registry.store(work),
                ..s
            },
            TxAction::SendWork { work, work_id: s.registry.next_work_id as usize },
        ),
        (TxPhase::Sending { midstates }, TxEvent::Done) => (
            TxState { phase: TxPhase::WaitingForRoom, stats: s.stats.plus_work(midstates), ..s },
            TxAction::WaitForRoom,
        ),
        _ => tx_fail(s),
    }
}

/// The transmit task as contracts see it.
pub struct TxTaskView {
    pub phase: TxPhase,
    pub midstate_count: MidstateCount,
}

impl TxTaskView {
    /// The task together with what it works on.
    pub open spec fn with(self, registry: RegistryView, stats: Mining) -> TxState {
        TxState { phase: self.phase, midstate_count: self.midstate_count, registry, stats }
    }

    /// Whether the midstates of the work that is being sent, if any, can
    /// be counted.
    pub open spec fn can_count(self, stats: Mining) -> bool {
        self.phase matches TxPhase::Sending { midstates } ==> stats.work_generated + midstates
            <= usize::MAX
    }
}

/// The work transmit task: it opens the cores with placeholder work, and
/// then keeps the chips fed with the work of the generator, as fast as the
/// FIFO takes it, until the generator has run dry.
#[derive(Debug)]
pub struct WorkTxTask {
    phase: TxPhase,
    /// Number of midstates that go with each work
    midstate_count: MidstateCount,
}

impl View for WorkTxTask {
    type V = TxTaskView;

    closed spec fn view(&self) -> TxTaskView {
        TxTaskView { phase: self.phase, midstate_count: self.midstate_count }
    }
}

impl WorkTxTask {
    /// A task for hardware that takes `midstate_count` midstates.
    pub fn new(midstate_count: MidstateCount) -> (task: Self)
        ensures
            task@ == (TxTaskView { phase: TxPhase::Idle, midstate_count }),
    {
        Self { phase: TxPhase::Idle, midstate_count }
    }

    /// What the task is waiting for.
    pub fn phase(&self) -> (r: TxPhase)
        ensures
            r == self@.phase,
    {
        self.phase
    }

    /// Whether `step` can count the midstates of the work that is being
    /// sent, if any.
    pub fn can_step(&self, stats: &Mining) -> (r: bool)
        ensures
            r == self@.can_count(*stats),
    {
        match self.phase {
            TxPhase::Sending { midstates } => stats.can_count_work(midstates),
            _ => true,
        }
    }

    /// Placeholder work that opens a core.
    fn prepare_opencore(&self) -> (work: Work)
        ensures
            work == open_core_work(self@.midstate_count),
    {
        Work { job: None, midstates: self.midstate_count.to_count() }
    }

    /// The task ends on a failure.
    fn fail(&mut self) -> (action: TxAction)
        ensures
            final(self)@ == (TxTaskView { phase: TxPhase::Failed, ..old(self)@ }),
            action == TxAction::Abort,
    {
        self.phase = TxPhase::Failed;
        TxAction::Abort
    }

    /// One step of opening the cores by sending placeholder work to each:
    /// registers the work that goes out after `sent` others.
    fn send_init_work(&mut self, sent: usize, registry: &mut MiningWorkRegistry) -> (action:
        TxAction)
        ensures
            action == TxAction::WaitForRoom,
            final(registry)@ == old(registry)@.store(open_core_work(old(self)@.midstate_count)),
            final(self)@ == (TxTaskView {
                phase: TxPhase::PrimingRoom {
                    sent,
                    work_id: old(registry)@.next_work_id as usize,
                },
                ..old(self)@
            }),
            forall|stats: Mining|
                (#[trigger] final(self)@.with(final(registry)@, stats), action) == tx_prime(
                    old(self)@.with(old(registry)@, stats),
                    sent,
                ),
    {
        let work = self.prepare_opencore();
        let work_id = registry.store_work(work);
        self.phase = TxPhase::PrimingRoom { sent, work_id };
        TxAction::WaitForRoom
    }

    /// Starts the task, or starts it anew, and returns its first action.
    pub fn start(&mut self, registry: &mut MiningWorkRegistry) -> (action: TxAction)
        ensures
            action == TxAction::WaitForRoom,
            final(registry)@ == old(registry)@.store(open_core_work(old(self)@.midstate_count)),
            final(self)@ == (TxTaskView {
                phase: TxPhase::PrimingRoom {
                    sent: 0,
                    work_id: old(registry)@.next_work_id as usize,
                },
                ..old(self)@
            }),
            forall|stats: Mining|
                (#[trigger] final(self)@.with(final(registry)@, stats), action) == tx_start(
                    old(self)@.with(old(registry)@, stats),
                ),
    {
        self.send_init_work(0, registry)
    }

    /// Takes how the action handed out last has ended and returns what to
    /// do next. The registry and the statistics are only touched for the
    /// time of the call.
    pub fn step(
        &mut self,
        event: TxEvent,
        registry: &mut MiningWorkRegistry,
        stats: &mut Mining,
    ) -> (action: TxAction)
        requires
            old(self)@.can_count(*old(stats)),
        ensures
            (final(self)@.with(final(registry)@, *final(stats)), action) == tx_next(
                old(self)@.with(old(registry)@, *old(stats)),
                event,
            ),
    {
        match self.phase {
            TxPhase::Finished => TxAction::Shutdown,
            TxPhase::Failed => TxAction::Abort,
            TxPhase::Idle => self.fail(),
            TxPhase::PrimingRoom { sent, work_id } => match event {
                TxEvent::Done => {
                    self.phase = TxPhase::PrimingSend { sent };
                    TxAction::SendWork { work: self.prepare_opencore(), work_id }
                },
                _ => self.fail(),
            },
            TxPhase::PrimingSend { sent } => match event {
                TxEvent::Done => {
                    // Each core gets one work
                    if sent < NUM_CORES_ON_CHIP - 1 {
                        self.send_init_work(sent + 1, registry)
                    } else {
                        self.phase = TxPhase::WaitingForRoom;
                        TxAction::WaitForRoom
                    }
                },
                _ => self.fail(),
            },
            TxPhase::WaitingForRoom => match event {
                TxEvent::Done => {
                    self.phase = TxPhase::Generating;
                    TxAction::GenerateWork
                },
                _ => self.fail(),
            },
            TxPhase::Generating => match event {
                TxEvent::Work(None) => {
                    self.phase = TxPhase::Finished;
                    TxAction::Shutdown
                },
                TxEvent::Work(Some(work)) => {
                    // assign `work_id` to `work`
                    let work_id = registry.store_work(work);
                    self.phase = TxPhase::Sending { midstates: work.midstates };
                    TxAction::SendWork { work, work_id }
                },
                _ => self.fail(),
            },
            TxPhase::Sending { midstates } => match event {
                TxEvent::Done => {
                    stats.work_generated += midstates;
                    self.phase = TxPhase::WaitingForRoom;
                    TxAction::WaitForRoom
                },
                _ => self.fail(),
            },
        }
    }
}

/// The transmit task as a machine.
pub open spec fn tx_machine() -> spec_fn(TxState, TxEvent) -> (TxState, TxAction) {
    |s: TxState, event: TxEvent| tx_next(s, event)
}

/// `n` times the placeholder work.
pub open spec fn open_core_works(midstate_count: MidstateCount, n: nat) -> Seq<Work> {
    Seq::new(n, |i: int| open_core_work(midstate_count))
}

/// What the task asks for while it opens the cores: for each core in turn,
/// room in the FIFO and then the placeholder work to be sent under its id;
/// and after the last, room for the first real work.
pub open spec fn priming_script(s: TxState) -> Seq<TxAction> {
    Seq::new(
        2 * NUM_CORES_ON_CHIP as nat + 1,
        |i: int|
            if i % 2 == 0 {
                TxAction::WaitForRoom
            } else {
                TxAction::SendWork {
                    work: open_core_work(s.midstate_count),
                    work_id: s.registry.id_after(i / 2) as usize,
                }
            },
    )
}

/// Where the task stands after `i` events while it opens the cores.
spec fn priming_state(s: TxState, i: int) -> TxState {
    let stored = s.registry.store_all(open_core_works(s.midstate_count, (i / 2 + 1) as nat));
    if i >= 2 * NUM_CORES_ON_CHIP {
        TxState {
            phase: TxPhase::WaitingForRoom,
            registry: s.registry.store_all(
                open_core_works(s.midstate_count, NUM_CORES_ON_CHIP as nat),
            ),
            ..s
        }
    } else if i % 2 == 0 {
        TxState {
            phase: TxPhase::PrimingRoom {
                sent: (i / 2) as usize,
                work_id: s.registry.id_after(i / 2) as usize,
            },
            registry: stored,
            ..s
        }
    } else {
        TxState { phase: TxPhase::PrimingSend { sent: (i / 2) as usize }, registry: stored, ..s }
    }
}

proof fn lemma_priming_step(s: TxState, i: int)
    requires
        s.registry.wf(),
        0 <= i < 2 * NUM_CORES_ON_CHIP,
    ensures
        tx_next(priming_state(s, i), TxEvent::Done) == (
            priming_state(s, i + 1),
            priming_script(s)[i + 1],
        ),
{
    let works = open_core_works(s.midstate_count, (i / 2 + 1) as nat);
    s.registry.lemma_store_all(works);
    s.registry.lemma_ids_go_round(i / 2);
    s.registry.lemma_ids_go_round(i / 2 + 1);
    if i % 2 == 1 && i + 1 < 2 * NUM_CORES_ON_CHIP {
        let more = open_core_works(s.midstate_count, (i / 2 + 2) as nat);
        assert(more.drop_last() =~= works);
        assert((i + 1) / 2 == i / 2 + 1);
    }
}

/// Opening the cores: started on any registry, with room in the FIFO
/// whenever it is waited for, the task registers one placeholder work for
/// each core of a chip and sends it under the id that it was registered
/// with; then it waits for room for the first real work. Nothing is
/// counted.
pub proof fn lemma_priming(s: TxState)
    requires
        s.registry.wf(),
    ensures
        ({
            let (started, first) = tx_start(s);
            let events = Seq::new(2 * NUM_CORES_ON_CHIP as nat, |i: int| TxEvent::Done);
            let (end, rest) = run(tx_machine(), started, events);
            &&& seq![first] + rest == priming_script(s)
            &&& end == TxState {
                phase: TxPhase::WaitingForRoom,
                registry: s.registry.store_all(
                    open_core_works(s.midstate_count, NUM_CORES_ON_CHIP as nat),
                ),
                ..s
            }
        }),
{
    let n = 2 * NUM_CORES_ON_CHIP as nat;
    let state_at = |i: int| priming_state(s, i);
    let event_at = |i: int| TxEvent::Done;
    let action_at = |i: int| priming_script(s)[i + 1];
    assert forall|i: int| 0 <= i < n implies (tx_machine())(#[trigger] state_at(i), event_at(i))
        == (state_at(i + 1), action_at(i)) by {
        lemma_priming_step(s, i);
    }
    lemma_run_steps(tx_machine(), n, state_at, event_at, action_at);
    let (started, first) = tx_start(s);
    assert(started == priming_state(s, 0)) by {
        let one = open_core_works(s.midstate_count, 1);
        assert(one.drop_last() =~= Seq::<Work>::empty());
        assert(s.registry.store_all(one.drop_last()) == s.registry);
        s.registry.lemma_ids_go_round(0);
    }
    assert(seq![first] + Seq::new(n, action_at) =~= priming_script(s));
}

/// One round of the task once the cores are open: with room in the FIFO
/// and work from the generator, the work is registered, sent under the id
/// that the registry has given it, and its midstates are counted.
pub proof fn lemma_work_round(s: TxState, work: Work)
    requires
        s.phase is WaitingForRoom,
    ensures
        run(
            tx_machine(),
            s,
            seq![TxEvent::Done, TxEvent::Work(Some(work)), TxEvent::Done],
        ) == (
            TxState {
                registry: s.registry.store(work),
                stats: s.stats.plus_work(work.midstates),
                ..s
            },
            seq![
                TxAction::GenerateWork,
                TxAction::SendWork { work, work_id: s.registry.next_work_id as usize },
                TxAction::WaitForRoom,
            ],
        ),
{
    let e0 = TxEvent::Done;
    let e1 = TxEvent::Work(Some(work));
    let none = Seq::<TxEvent>::empty();
    lemma_run_push(tx_machine(), s, none, e0);
    lemma_run_push(tx_machine(), s, none.push(e0), e1);
    lemma_run_push(tx_machine(), s, none.push(e0).push(e1), e0);
    assert(none.push(e0).push(e1).push(e0) =~= seq![e0, e1, e0]);
    let (s1, a0) = tx_next(s, e0);
    let (s2, a1) = tx_next(s1, e1);
    let (s3, a2) = tx_next(s2, e0);
    assert(Seq::<TxAction>::empty().push(a0).push(a1).push(a2) =~= seq![a0, a1, a2]);
}

/// The end of the work: when the generator has run dry, the task asks for
/// the shutdown of the system and does nothing more, whatever comes in.
pub proof fn lemma_no_more_work(s: TxState, event: TxEvent)
    requires
        s.phase is WaitingForRoom,
    ensures
        run(tx_machine(), s, seq![TxEvent::Done, TxEvent::Work(None), event]) == (
            TxState { phase: TxPhase::Finished, ..s },
            seq![TxAction::GenerateWork, TxAction::Shutdown, TxAction::Shutdown],
        ),
{
    let e0 = TxEvent::Done;
    let e1 = TxEvent::Work(None);
    let none = Seq::<TxEvent>::empty();
    lemma_run_push(tx_machine(), s, none, e0);
    lemma_run_push(tx_machine(), s, none.push(e0), e1);
    lemma_run_push(tx_machine(), s, none.push(e0).push(e1), event);
    assert(none.push(e0).push(e1).push(event) =~= seq![e0, e1, event]);
    let (s1, a0) = tx_next(s, e0);
    let (s2, a1) = tx_next(s1, e1);
    let (s3, a2) = tx_next(s2, event);
    assert(Seq::<TxAction>::empty().push(a0).push(a1).push(a2) =~= seq![a0, a1, a2]);
}

} // verus!
