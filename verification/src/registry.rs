use crate::midstate::{midstate_idx_of, MidstateCount};
use vstd::arithmetic::div_mod::{
    lemma_add_mod_noop, lemma_mod_bound, lemma_mod_equivalence, lemma_mod_self_0, lemma_small_mod,
};
use vstd::prelude::*;

verus! {

/// Highest number of midstates that a work item keeps track of.
pub const MAX_MIDSTATES: usize = 4;

/// What the driver needs to know of a piece of work: where it comes from
/// and how many midstates go to the chips with it.
#[derive(Debug, Clone, Copy, PartialEq, Eq)]
pub struct Work {
    /// The generator's handle of the job that the work was cut from;
    /// `None` for placeholder work that only opens the cores.
    pub job: Option<u64>,
    /// Number of midstates, each of which the chips hash on its own.
    pub midstates: usize,
}

/// A solution as the hardware reports it.
#[derive(Debug, Clone, Copy, PartialEq, Eq)]
pub struct Solution {
    /// The nonce that the chip has found.
    pub nonce: u32,
    /// The time that the chip has rolled to, where it rolls time.
    pub ntime: Option<u32>,
    /// The how-manieth solution of its work this is, by the chip's count.
    pub solution_idx: usize,
    /// The id of the work that was solved, with the index of the midstate
    /// in its low bits.
    pub hardware_id: u32,
}

/// A solution together with the work that it solves.
#[derive(Debug, Clone, Copy, PartialEq, Eq)]
pub struct UniqueSolution {
    pub work: Work,
    /// Which of the work's midstates was solved.
    pub midstate_idx: usize,
    pub solution: Solution,
}

/// What has become of a solution that was handed to its work item. Of
/// `duplicate`, `mismatched_nonce` and `unique_solution` exactly one is
/// set.
#[derive(Debug, Clone, Copy, PartialEq, Eq)]
pub struct InsertSolutionStatus {
    /// The midstate was solved before; chips do repeat themselves.
    pub duplicate: bool,
    /// The solution names a midstate that the work does not have.
    pub mismatched_nonce: bool,
    /// The first solution of its midstate, to be passed on.
    pub unique_solution: Option<UniqueSolution>,
}

/// A work item as contracts see it.
#[verifier::ext_equal]
pub struct WorkItemView {
    pub work: Work,
    pub midstate_count: MidstateCount,
    /// The midstates that have been solved.
    pub solved: Set<int>,
}

impl WorkItemView {
    /// Work that has just been registered: nothing is solved.
    pub open spec fn fresh(work: Work, midstate_count: MidstateCount) -> WorkItemView {
        WorkItemView { work, midstate_count, solved: Set::empty() }
    }

    /// What a solution for this work is: a mismatch where it names a
    /// midstate that the work does not have, a duplicate where its midstate
    /// is solved, and unique otherwise.
    pub open spec fn classify(self, solution: Solution) -> InsertSolutionStatus {
        let idx = midstate_idx_of(solution.hardware_id, self.midstate_count);
        if idx >= self.work.midstates {
            InsertSolutionStatus { duplicate: false, mismatched_nonce: true, unique_solution: None }
        } else if self.solved.contains(idx) {
            InsertSolutionStatus { duplicate: true, mismatched_nonce: false, unique_solution: None }
        } else {
            InsertSolutionStatus {
                duplicate: false,
                mismatched_nonce: false,
                unique_solution: Some(
                    UniqueSolution { work: self.work, midstate_idx: idx as usize, solution },
                ),
            }
        }
    }

    /// The work item once it has been handed the solution: a unique
    /// solution marks its midstate solved, any other leaves no trace.
    pub open spec fn insert(self, solution: Solution) -> WorkItemView {
        if self.classify(solution).unique_solution is Some {
            WorkItemView {
                solved: self.solved.insert(
                    midstate_idx_of(solution.hardware_id, self.midstate_count),
                ),
                ..self
            }
        } else {
            self
        }
    }
}

/// An entry of the registry: work that has been sent to the chips, and
/// which of its midstates have been solved since.
#[derive(Debug, Clone, Copy)]
pub struct WorkItem {
    work: Work,
    /// Tells the midstate index in a hardware id from the work id
    midstate_count: MidstateCount,
    /// Each slot stands for the midstate with its index
    solved: [bool; 4],
}

impl View for WorkItem {
    type V = WorkItemView;

    closed spec fn view(&self) -> WorkItemView {
        WorkItemView {
            work: self.work,
            midstate_count: self.midstate_count,
            solved: Set::new(|i: int| 0 <= i < MAX_MIDSTATES && self.solved[i]),
        }
    }
}

impl WorkItem {
    /// An item for work that has no solutions yet.
    pub fn new(work: Work, midstate_count: MidstateCount) -> (item: Self)
        ensures
            item@ == WorkItemView::fresh(work, midstate_count),
    {
        let item = Self { work, midstate_count, solved: [false, false, false, false] };
        assert(item@.solved =~= Set::empty());
        item
    }

    /// The work of this item.
    pub fn work(&self) -> (r: Work)
        ensures
            r == self@.work,
    {
        self.work
    }

    /// Whether the midstate with the index has been solved.
    pub fn is_solved(&self, midstate_idx: usize) -> (r: bool)
        ensures
            r == self@.solved.contains(midstate_idx as int),
    {
        midstate_idx < MAX_MIDSTATES && self.solved[midstate_idx]
    }

    /// Takes a solution that the hardware has reported for this work.
    ///
    /// The midstate that the solution is for stands in the low bits of its
    /// hardware id. The first solution of a midstate is unique: it is
    /// returned in the status, with the work, and the midstate counts as
    /// solved from then on. A further one is a duplicate. One for a
    /// midstate that the work does not have is a mismatch. None of these is
    /// an error.
    pub fn insert_solution(&mut self, solution: Solution) -> (status: InsertSolutionStatus)
        ensures
            status == old(self)@.classify(solution),
            final(self)@ == old(self)@.insert(solution),
    {
        let midstate_idx = self.midstate_count.midstate_idx(solution.hardware_id);
        proof {
            self.midstate_count.lemma_supported();
        }
        if midstate_idx >= self.work.midstates {
            InsertSolutionStatus { duplicate: false, mismatched_nonce: true, unique_solution: None }
        } else if self.solved[midstate_idx] {
            InsertSolutionStatus { duplicate: true, mismatched_nonce: false, unique_solution: None }
        } else {
            self.solved[midstate_idx] = true;
            assert(self@.solved =~= old(self)@.solved.insert(midstate_idx as int));
            InsertSolutionStatus {
                duplicate: false,
                mismatched_nonce: false,
                unique_solution: Some(UniqueSolution { work: self.work, midstate_idx, solution }),
            }
        }
    }
}

/// The registry as contracts see it.
#[verifier::ext_equal]
pub struct RegistryView {
    /// One slot for every work id; `None` where no work has had the id.
    pub slots: Seq<Option<WorkItemView>>,
    /// The id that the work stored next gets.
    pub next_work_id: int,
    pub midstate_count: MidstateCount,
}

impl RegistryView {
    /// There is at least one work id, and the next one is one of them.
    pub open spec fn wf(self) -> bool {
        0 <= self.next_work_id < self.slots.len()
    }

    /// Number of work ids.
    pub open spec fn work_id_range(self) -> int {
        self.slots.len() as int
    }

    /// A registry that no work has been stored in.
    pub open spec fn empty(work_id_range: int, midstate_count: MidstateCount) -> RegistryView {
        RegistryView {
            slots: Seq::new(work_id_range as nat, |i: int| None),
            next_work_id: 0,
            midstate_count,
        }
    }

    /// The work that has the id now, if any.
    pub open spec fn find(self, id: int) -> Option<WorkItemView> {
        if 0 <= id < self.slots.len() {
            self.slots[id]
        } else {
            None
        }
    }

    /// The registry once it holds the work: the work has taken the next id,
    /// and the slot of the id from whatever was there; the id after it,
    /// which is the first again after the last, is next.
    pub open spec fn store(self, work: Work) -> RegistryView {
        RegistryView {
            slots: self.slots.update(
                self.next_work_id,
                Some(WorkItemView::fresh(work, self.midstate_count)),
            ),
            next_work_id: if self.next_work_id + 1 < self.work_id_range() {
                self.next_work_id + 1
            } else {
                0
            },
            ..self
        }
    }

    /// The registry with a changed item at an id.
    pub open spec fn with_item(self, id: int, item: WorkItemView) -> RegistryView {
        RegistryView { slots: self.slots.update(id, Some(item)), ..self }
    }

    /// The registry once it holds all of `works`, stored in their order.
    pub open spec fn store_all(self, works: Seq<Work>) -> RegistryView
        decreases works.len(),
    {
        if works.len() == 0 {
            self
        } else {
            self.store_all(works.drop_last()).store(works.last())
        }
    }

    /// The id of the work that is stored after `i` others from now.
    pub open spec fn id_after(self, i: int) -> int {
        (self.next_work_id + i) % self.work_id_range()
    }

    /// The item that stands for `work` when it has just been stored here.
    pub open spec fn fresh(self, work: Work) -> WorkItemView {
        WorkItemView::fresh(work, self.midstate_count)
    }

    /// Ids go round: after as many works as there are ids, the same id is
    /// given out again. Every id is one of the registry's, and the next one
    /// is given out first.
    pub proof fn lemma_ids_go_round(self, i: int)
        requires
            self.wf(),
            0 <= i,
        ensures
            self.id_after(i + self.work_id_range()) == self.id_after(i),
            0 <= self.id_after(i) < self.work_id_range(),
            self.id_after(0) == self.next_work_id,
    {
        let range = self.work_id_range();
        lemma_mod_equivalence(self.next_work_id + i + range, self.next_work_id + i, range);
        lemma_mod_self_0(range);
        lemma_mod_bound(self.next_work_id + i, range);
        lemma_small_mod(self.next_work_id as nat, range as nat);
    }

    /// Works that are stored with fewer than a round of others between
    /// them get ids that differ.
    pub proof fn lemma_ids_differ(self, i: int, j: int)
        requires
            self.wf(),
            0 <= i < j < i + self.work_id_range(),
        ensures
            self.id_after(i) != self.id_after(j),
    {
        let range = self.work_id_range();
        lemma_mod_equivalence(self.next_work_id + j, self.next_work_id + i, range);
        lemma_small_mod((j - i) as nat, range as nat);
    }

    /// What a registry holds after a row of works has been stored: each of
    /// the works that no later one has taken the id from, under the id that
    /// it was given.
    pub proof fn lemma_store_all(self, works: Seq<Work>)
        requires
            self.wf(),
        ensures
            self.store_all(works).wf(),
            self.store_all(works).work_id_range() == self.work_id_range(),
            self.store_all(works).midstate_count == self.midstate_count,
            self.store_all(works).next_work_id == self.id_after(works.len() as int),
            forall|i: int|
                0 <= i < works.len() && works.len() - i <= self.work_id_range() ==> self.store_all(
                    works,
                ).find(#[trigger] self.id_after(i)) == Some(self.fresh(works[i])),
        decreases works.len(),
    {
        let range = self.work_id_range();
        let n = works.len() as int;
        lemma_small_mod(self.next_work_id as nat, range as nat);
        if n > 0 {
            let before = self.store_all(works.drop_last());
            self.lemma_store_all(works.drop_last());
            assert(before.next_work_id == self.id_after(n - 1));
            assert((self.id_after(n - 1) + 1) % range == self.id_after(n)) by {
                lemma_add_mod_noop(self.next_work_id + n - 1, 1, range);
                if range > 1 {
                    lemma_small_mod(1, range as nat);
                }
            }
            self.lemma_ids_go_round(n - 1);
            if self.id_after(n - 1) + 1 < range {
                lemma_small_mod((self.id_after(n - 1) + 1) as nat, range as nat);
            } else {
                lemma_mod_self_0(range);
            }
            self.lemma_ids_go_round(n);
            assert forall|i: int| 0 <= i < n && n - i <= range implies self.store_all(works).find(
                #[trigger] self.id_after(i),
            ) == Some(self.fresh(works[i])) by {
                self.lemma_ids_go_round(i);
                if i < n - 1 {
                    self.lemma_ids_differ(i, n - 1);
                    assert(works.drop_last()[i] == works[i]);
                    assert(before.find(self.id_after(i)) == Some(self.fresh(works[i])));
                }
            }
        }
    }

    /// Storing a work changes nothing under any id but the one that the
    /// work is given.
    pub proof fn lemma_store_leaves_others(self, work: Work, id: int)
        requires
            self.wf(),
            id != self.next_work_id,
        ensures
            self.store(work).find(id) == self.find(id),
            self.store(work).find(self.next_work_id) == Some(self.fresh(work)),
    {
    }

    /// As many works as the registry has ids, or fewer, are all found
    /// again after they have been stored, each under an id of its own.
    pub proof fn lemma_stored_work_is_found(self, works: Seq<Work>)
        requires
            self.wf(),
            works.len() <= self.work_id_range(),
        ensures
            forall|i: int, j: int|
                #![trigger self.id_after(i), self.id_after(j)]
                0 <= i < j < works.len() ==> self.id_after(i) != self.id_after(j),
            forall|i: int|
                0 <= i < works.len() ==> self.store_all(works).find(#[trigger] self.id_after(i))
                    == Some(self.fresh(works[i])),
    {
        self.lemma_store_all(works);
        assert forall|i: int, j: int| 0 <= i < j < works.len() implies #[trigger] self.id_after(i)
            != #[trigger] self.id_after(j) by {
            self.lemma_ids_differ(i, j);
        }
    }

    /// One work more than the registry has ids: the last takes the id of
    /// the first, which is found no more; what is found under its id is the
    /// last. All the others are still found.
    pub proof fn lemma_oldest_work_is_overwritten(self, works: Seq<Work>)
        requires
            self.wf(),
            works.len() == self.work_id_range() + 1,
        ensures
            self.id_after(works.len() - 1) == self.id_after(0),
            self.store_all(works).find(self.id_after(0)) == Some(self.fresh(works.last())),
            forall|i: int|
                1 <= i < works.len() ==> self.store_all(works).find(#[trigger] self.id_after(i))
                    == Some(self.fresh(works[i])),
    {
        self.lemma_store_all(works);
        self.lemma_ids_go_round(0);
        assert(self.store_all(works).find(self.id_after(works.len() - 1)) == Some(
            self.fresh(works[works.len() - 1]),
        ));
    }
}

impl WorkItemView {
    /// A solution is one of three things and no two of them. It is a
    /// mismatch if and only if it names a midstate that the work does not
    /// have, whatever has been solved.
    pub proof fn lemma_classification(self, solution: Solution)
        ensures
            ({
                let status = self.classify(solution);
                let idx = midstate_idx_of(solution.hardware_id, self.midstate_count);
                &&& status.mismatched_nonce || status.duplicate || status.unique_solution is Some
                &&& !(status.mismatched_nonce && status.duplicate)
                &&& !(status.mismatched_nonce && status.unique_solution is Some)
                &&& !(status.duplicate && status.unique_solution is Some)
                &&& status.mismatched_nonce <==> idx >= self.work.midstates
                &&& status.duplicate <==> idx < self.work.midstates && self.solved.contains(idx)
                &&& 0 <= idx < self.midstate_count@
            }),
    {
        self.midstate_count.lemma_supported();
    }

    /// Two solutions for one midstate that the work has and that is not
    /// solved: the first is unique and the second a duplicate.
    pub proof fn lemma_unique_then_duplicate(self, first: Solution, second: Solution)
        requires
            midstate_idx_of(first.hardware_id, self.midstate_count) == midstate_idx_of(
                second.hardware_id,
                self.midstate_count,
            ),
            midstate_idx_of(first.hardware_id, self.midstate_count) < self.work.midstates,
            !self.solved.contains(midstate_idx_of(first.hardware_id, self.midstate_count)),
        ensures
            self.classify(first).unique_solution == Some(
                UniqueSolution {
                    work: self.work,
                    midstate_idx: midstate_idx_of(first.hardware_id, self.midstate_count) as usize,
                    solution: first,
                },
            ),
            self.insert(first).classify(second) == (InsertSolutionStatus {
                duplicate: true,
                mismatched_nonce: false,
                unique_solution: None,
            }),
    {
    }
}

/// Registry of the work that is with the chips: it finds the work that a
/// solution is for.
///
/// It has one slot for each work id that the hardware knows and hands the
/// ids out in turn. An id that comes round again takes its slot from the
/// work that had it before, which cannot be found from then on.
#[derive(Debug)]
pub struct MiningWorkRegistry {
    /// Current pending work list, indexed by work id
    pending_work_list: Vec<Option<WorkItem>>,
    /// The id for the work that is stored next
    next_work_id: usize,
    /// Handed to each work item
    midstate_count: MidstateCount,
}

impl View for MiningWorkRegistry {
    type V = RegistryView;

    closed spec fn view(&self) -> RegistryView {
        RegistryView {
            slots: Seq::new(
                self.pending_work_list.len() as nat,
                |i: int|
                    match self.pending_work_list[i] {
                        Some(item) => Some(item@),
                        None => None,
                    },
            ),
            next_work_id: self.next_work_id as int,
            midstate_count: self.midstate_count,
        }
    }
}

impl MiningWorkRegistry {
    #[verifier::type_invariant]
    closed spec fn inv(self) -> bool {
        self.next_work_id < self.pending_work_list.len()
    }

    /// A registry with `work_id_range` work ids, none of them in use.
    pub fn new(work_id_range: usize, midstate_count: MidstateCount) -> (registry: Self)
        requires
            work_id_range > 0,
        ensures
            registry@ == RegistryView::empty(work_id_range as int, midstate_count),
            registry@.wf(),
    {
        let mut pending_work_list: Vec<Option<WorkItem>> = Vec::new();
        let mut i: usize = 0;
        while i < work_id_range
            invariant
                i <= work_id_range,
                pending_work_list.len() == i,
                forall|j: int| 0 <= j < i ==> pending_work_list[j] is None,
            decreases work_id_range - i,
        {
            pending_work_list.push(None);
            i += 1;
        }
        let registry = Self { pending_work_list, next_work_id: 0, midstate_count };
        assert(registry@.slots =~= RegistryView::empty(
            work_id_range as int,
            midstate_count,
        ).slots);
        registry
    }

    /// Number of midstates that go with each work.
    pub fn midstate_count(&self) -> (r: MidstateCount)
        ensures
            r == self@.midstate_count,
    {
        self.midstate_count
    }

    /// Number of work ids.
    pub fn work_id_range(&self) -> (r: usize)
        ensures
            r == self@.work_id_range(),
            r > 0,
    {
        proof {
            use_type_invariant(self);
        }
        self.pending_work_list.len()
    }

    /// Stores the work under the next work id, which it returns. The work
    /// that had the id, if any, is dropped without a word: its id was given
    /// out a whole round ago, and the hardware has forgotten it since.
    pub fn store_work(&mut self, work: Work) -> (work_id: usize)
        ensures
            work_id == old(self)@.next_work_id,
            final(self)@ == old(self)@.store(work),
            old(self)@.wf(),
            final(self)@.wf(),
    {
        proof {
            use_type_invariant(&*self);
        }
        let work_id = self.next_work_id;
        self.pending_work_list[work_id] = Some(WorkItem::new(work, self.midstate_count));
        proof {
            let range = self.pending_work_list.len() as int;
            if work_id + 1 < range {
                lemma_small_mod((work_id + 1) as nat, range as nat);
            } else {
                lemma_mod_self_0(range);
            }
        }
        self.next_work_id = (work_id + 1) % self.pending_work_list.len();
        assert(self@.slots =~= old(self)@.store(work).slots);
        work_id
    }

    /// Looks for the work with the id. There is none where the id is not
    /// one of the registry's or has not been given out yet. What is done to
    /// the item that is found is done to the registry's entry.
    pub fn find_work(&mut self, id: usize) -> (r: Option<&mut WorkItem>)
        ensures
            old(self)@.wf(),
            match r {
                Some(item) => old(self)@.find(id as int) == Some(item@) && final(self)@ == old(
                    self,
                )@.with_item(id as int, final(item)@),
                None => old(self)@.find(id as int) is None && final(self)@ == old(self)@,
            },
    {
        proof {
            use_type_invariant(&*self);
        }
        if id < self.pending_work_list.len() {
            self.pending_work_list[id].as_mut()
        } else {
            None
        }
    }
}

} // verus!
