use vstd::prelude::*;

use crate::gate::{lemma_gate_bounded, Gate};
use crate::manifest::{names_view, Manifest};
use crate::plan::{lemma_distinct_names_distinct_paths, plan, plan_path, plan_url, FetchPlan};
use crate::worker::FetchOutcome;

verus! {

/// Where one file of a run stands.
#[derive(Clone, Debug)]
pub enum Slot {
    /// Not dispatched yet.
    Pending,
    /// Dispatched and holding a gate slot.
    Running,
    /// Finished with this outcome; its gate slot was given back.
    Settled(FetchOutcome),
}

/// What the caller does next in a run.
#[derive(Clone, Debug, PartialEq, Eq)]
pub enum BatchStep {
    /// Start the fetch of the file at this index as its own unit of work.
    Dispatch(usize),
    /// Wait until a running fetch finishes, then report it with `complete`.
    Wait,
    /// Every file was dispatched and has finished.
    Done,
}

/// The number of running slots.
pub open spec fn running_count(slots: Seq<Slot>) -> nat
    decreases slots.len(),
{
    if slots.len() == 0 {
        0
    } else {
        running_count(slots.drop_last()) + if slots.last() is Running {
            1nat
        } else {
            0nat
        }
    }
}

proof fn lemma_running_count_update(slots: Seq<Slot>, i: int, s: Slot)
    requires
        0 <= i < slots.len(),
    ensures
        running_count(slots.update(i, s)) + (if slots[i] is Running {
            1nat
        } else {
            0nat
        }) == running_count(slots) + (if s is Running {
            1nat
        } else {
            0nat
        }),
    decreases slots.len(),
{
    let u = slots.update(i, s);
    if i < slots.len() - 1 {
        lemma_running_count_update(slots.drop_last(), i, s);
        assert(u.drop_last() =~= slots.drop_last().update(i, s));
    } else {
        assert(u.drop_last() =~= slots.drop_last());
    }
}

proof fn lemma_none_running(slots: Seq<Slot>)
    requires
        running_count(slots) == 0,
    ensures
        forall|i: int| 0 <= i < slots.len() ==> !(#[trigger] slots[i] is Running),
    decreases slots.len(),
{
    if slots.len() > 0 {
        lemma_none_running(slots.drop_last());
        assert forall|i: int| 0 <= i < slots.len() implies !(#[trigger] slots[i] is Running) by {
            if i < slots.len() - 1 {
                assert(slots[i] == slots.drop_last()[i]);
            }
        }
    }
}

/// One run over the files of a manifest: each file is planned, dispatched
/// once in manifest order while a gate slot is free, and settled when its
/// fetch reports back. One file's outcome never changes another's.
pub struct Batch {
    plans: Vec<FetchPlan>,
    slots: Vec<Slot>,
    gate: Gate,
    next: usize,
}

impl Batch {
    /// The number of files.
    pub closed spec fn len_of(&self) -> nat {
        self.plans@.len()
    }

    /// The plan of the file at an index.
    pub closed spec fn plan_of(&self, i: int) -> FetchPlan {
        self.plans@[i]
    }

    /// Where each file stands.
    pub closed spec fn slots_of(&self) -> Seq<Slot> {
        self.slots@
    }

    /// The number of files dispatched so far.
    pub closed spec fn dispatched_of(&self) -> nat {
        self.next as nat
    }

    /// The number of fetches running now.
    pub closed spec fn live_of(&self) -> nat {
        self.gate.in_use_of()
    }

    /// The most fetches that may run at once.
    pub closed spec fn capacity_of(&self) -> nat {
        self.gate.capacity_of()
    }

    /// A bound on the steps left before the run is done: each dispatch and
    /// each completion lowers it.
    pub open spec fn work_left(&self) -> nat {
        2 * (self.len_of() - self.dispatched_of()) as nat + self.live_of()
    }

    /// The run's invariant: the files before the dispatch index are running
    /// or settled, those after it pending, and its gate holds one slot per
    /// running file.
    pub closed spec fn wf(&self) -> bool {
        &&& self.gate.wf()
        &&& self.slots@.len() == self.plans@.len()
        &&& self.next <= self.plans@.len()
        &&& forall|i: int| 0 <= i < self.next ==> !(#[trigger] self.slots@[i] is Pending)
        &&& forall|i: int| self.next <= i < self.slots@.len() ==> #[trigger] self.slots@[i] is Pending
        &&& self.gate.in_use_of() == running_count(self.slots@)
    }

    /// Plans every file of the manifest against the base URL; nothing is
    /// dispatched yet, and at most `concurrency` fetches will run at once.
    pub fn new(base_url: &str, manifest: &Manifest, concurrency: usize) -> (r: Batch)
        requires
            concurrency > 0,
        ensures
            r.wf(),
            r.len_of() == manifest.files@.len(),
            r.slots_of().len() == r.len_of(),
            r.capacity_of() == concurrency,
            r.dispatched_of() == 0,
            r.live_of() == 0,
            forall|i: int| 0 <= i < r.len_of() ==> (#[trigger] r.plan_of(i)).url@ == plan_url(
                base_url@,
                manifest.content_id@,
                manifest.files@[i]@,
            ) && r.plan_of(i).path@ == plan_path(manifest.content_id@, manifest.files@[i]@),
            forall|i: int| 0 <= i < r.len_of() ==> #[trigger] r.slots_of()[i] is Pending,
            manifest.wf() ==> forall|i: int, j: int|
                0 <= i < j < r.len_of() ==> #[trigger] r.plan_of(i).path@ != #[trigger] r.plan_of(
                    j,
                ).path@,
    {
        let mut plans: Vec<FetchPlan> = Vec::new();
        let mut slots: Vec<Slot> = Vec::new();
        let mut i: usize = 0;
        while i < manifest.files.len()
            invariant
                i <= manifest.files@.len(),
                plans@.len() == i,
                slots@.len() == i,
                forall|k: int| 0 <= k < i ==> #[trigger] slots@[k] is Pending,
                forall|k: int| 0 <= k < i ==> (#[trigger] plans@[k]).url@ == plan_url(
                    base_url@,
                    manifest.content_id@,
                    manifest.files@[k]@,
                ) && plans@[k].path@ == plan_path(manifest.content_id@, manifest.files@[k]@),
            decreases manifest.files@.len() - i,
        {
            plans.push(plan(base_url, manifest.content_id.as_str(), manifest.files[i].as_str()));
            slots.push(Slot::Pending);
            i = i + 1;
        }
        proof {
            if manifest.wf() {
                assert forall|a: int, b: int| 0 <= a < b < plans@.len() implies #[trigger] plans@[a].path@
                    != #[trigger] plans@[b].path@ by {
                    assert(names_view(manifest.files@)[a] == manifest.files@[a]@);
                    assert(names_view(manifest.files@)[b] == manifest.files@[b]@);
                    lemma_distinct_names_distinct_paths(
                        manifest.content_id@,
                        manifest.files@[a]@,
                        manifest.files@[b]@,
                    );
                }
            }
            assert forall|k: int| 0 <= k < slots@.len() implies !(#[trigger] slots@[k] is Running) by {
                assert(slots@[k] is Pending);
            }
            lemma_count_zero_when_none_running(slots@);
        }
        Batch { plans, slots, gate: Gate::new(concurrency), next: 0 }
    }

    /// Decides the next step of the run. A file is dispatched, in manifest
    /// order, only while a gate slot is free; with none free, or none left
    /// to dispatch, the caller waits for a running fetch; the run is done
    /// once every file is dispatched and none is running.
    pub fn next_step(&mut self) -> (r: BatchStep)
        requires
            old(self).wf(),
        ensures
            final(self).wf(),
            final(self).len_of() == old(self).len_of(),
            final(self).slots_of().len() == final(self).len_of(),
            final(self).capacity_of() == old(self).capacity_of(),
            forall|i: int| 0 <= i < old(self).len_of() ==> #[trigger] final(self).plan_of(i)
                == old(self).plan_of(i),
            r is Dispatch <==> (old(self).dispatched_of() < old(self).len_of()
                && old(self).live_of() < old(self).capacity_of()),
            r is Done <==> (old(self).dispatched_of() == old(self).len_of() && old(self).live_of()
                == 0),
            r matches BatchStep::Dispatch(i) ==> {
                &&& i == old(self).dispatched_of()
                &&& old(self).slots_of()[i as int] is Pending
                &&& final(self).slots_of() == old(self).slots_of().update(i as int, Slot::Running)
                &&& final(self).dispatched_of() == old(self).dispatched_of() + 1
                &&& final(self).live_of() == old(self).live_of() + 1
                &&& final(self).work_left() < old(self).work_left()
            },
            !(r is Dispatch) ==> final(self).slots_of() == old(self).slots_of()
                && final(self).dispatched_of() == old(self).dispatched_of()
                && final(self).live_of() == old(self).live_of(),
            r is Wait ==> old(self).live_of() > 0,
            r is Done ==> forall|i: int|
                0 <= i < final(self).len_of() ==> #[trigger] final(self).slots_of()[i] is Settled,
    {
        proof {
            lemma_gate_bounded(&self.gate);
        }
        if self.next < self.plans.len() && self.gate.try_acquire() {
            let i = self.next;
            proof {
                lemma_running_count_update(self.slots@, i as int, Slot::Running);
            }
            self.slots.set(i, Slot::Running);
            self.next = i + 1;
            BatchStep::Dispatch(i)
        } else if self.gate.in_use() > 0 {
            BatchStep::Wait
        } else {
            proof {
                lemma_none_running(self.slots@);
            }
            BatchStep::Done
        }
    }

    /// Records the outcome of a running fetch and gives its gate slot back.
    /// No other file's state changes.
    pub fn complete(&mut self, index: usize, outcome: FetchOutcome)
        requires
            old(self).wf(),
            index < old(self).len_of(),
            old(self).slots_of()[index as int] is Running,
        ensures
            final(self).wf(),
            final(self).len_of() == old(self).len_of(),
            final(self).slots_of().len() == final(self).len_of(),
            final(self).capacity_of() == old(self).capacity_of(),
            forall|i: int| 0 <= i < old(self).len_of() ==> #[trigger] final(self).plan_of(i)
                == old(self).plan_of(i),
            final(self).slots_of() == old(self).slots_of().update(
                index as int,
                Slot::Settled(outcome),
            ),
            forall|j: int|
                0 <= j < old(self).len_of() && j != index ==> #[trigger] final(self).slots_of()[j]
                    == old(self).slots_of()[j],
            final(self).dispatched_of() == old(self).dispatched_of(),
            final(self).live_of() + 1 == old(self).live_of(),
            final(self).work_left() < old(self).work_left(),
    {
        proof {
            lemma_running_count_update(self.slots@, index as int, Slot::Settled(outcome));
        }
        self.slots.set(index, Slot::Settled(outcome));
        self.gate.release();
    }

    /// Whether the file at an index is running.
    pub fn is_running(&self, index: usize) -> (r: bool)
        requires
            self.wf(),
        ensures
            r == (index < self.len_of() && self.slots_of()[index as int] is Running),
    {
        index < self.slots.len() && match &self.slots[index] {
            Slot::Running => true,
            _ => false,
        }
    }

    /// The number of files.
    pub fn len(&self) -> (r: usize)
        ensures
            r == self.len_of(),
    {
        self.plans.len()
    }

    /// The plan of the file at an index.
    pub fn plan(&self, index: usize) -> (r: &FetchPlan)
        requires
            index < self.len_of(),
        ensures
            *r == self.plan_of(index as int),
    {
        &self.plans[index]
    }

    /// The outcome of the file at an index, once it has settled.
    pub fn outcome(&self, index: usize) -> (r: Option<&FetchOutcome>)
        requires
            self.wf(),
            index < self.len_of(),
        ensures
            r is Some <==> self.slots_of()[index as int] is Settled,
            r matches Some(o) ==> self.slots_of()[index as int] == Slot::Settled(*o),
    {
        match &self.slots[index] {
            Slot::Settled(o) => Some(o),
            _ => None,
        }
    }

    /// The number of files dispatched so far.
    pub fn dispatched(&self) -> (r: usize)
        ensures
            r == self.dispatched_of(),
    {
        self.next
    }

    /// The number of fetches running now.
    pub fn live(&self) -> (r: usize)
        requires
            self.wf(),
        ensures
            r == self.live_of(),
    {
        self.gate.in_use()
    }
}

proof fn lemma_count_zero_when_none_running(slots: Seq<Slot>)
    requires
        forall|k: int| 0 <= k < slots.len() ==> !(#[trigger] slots[k] is Running),
    ensures
        running_count(slots) == 0,
    decreases slots.len(),
{
    if slots.len() > 0 {
        let d = slots.drop_last();
        assert forall|k: int| 0 <= k < d.len() implies !(#[trigger] d[k] is Running) by {
            assert(d[k] == slots[k]);
        }
        lemma_count_zero_when_none_running(d);
    }
}

/// In every state of a run, no more fetches run at once than the
/// concurrency allows, and no more files are dispatched than the manifest
/// lists.
pub proof fn lemma_live_within_capacity(b: &Batch)
    requires
        b.wf(),
    ensures
        b.live_of() <= b.capacity_of(),
        b.dispatched_of() <= b.len_of(),
        b.slots_of().len() == b.len_of(),
{
    lemma_gate_bounded(&b.gate);
}

/// A run that asks its caller to wait always has a running fetch whose
/// completion it waits for, so it cannot hang on an empty wait.
pub proof fn lemma_wait_has_running_fetch(b: &Batch)
    requires
        b.wf(),
        b.live_of() > 0,
    ensures
        exists|i: int| 0 <= i < b.len_of() && #[trigger] b.slots_of()[i] is Running,
{
    if forall|i: int| 0 <= i < b.len_of() ==> !(#[trigger] b.slots_of()[i] is Running) {
        lemma_count_zero_when_none_running(b.slots@);
    }
}

} // verus!
