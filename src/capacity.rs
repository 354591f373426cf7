use vstd::prelude::*;

verus! {

/// Free task slots of one executor, as read from the registry.
#[derive(Clone, Debug, PartialEq, Eq)]
pub struct ExecutorCapacity {
    pub executor_id: String,
    pub available_task_slots: u32,
}

/// Slots of one executor taken up during a cycle (the registry's counter goes
/// down by `slot_delta` when the delta is applied).
#[derive(Clone, Debug, PartialEq, Eq)]
pub struct ExecutorDelta {
    pub executor_id: String,
    pub slot_delta: i64,
}

impl ExecutorDelta {
    /// A copy of this record.
    pub fn clone_delta(&self) -> (r: Self)
        ensures
            r == *self,
    {
        ExecutorDelta { executor_id: self.executor_id.clone(), slot_delta: self.slot_delta }
    }
}

impl ExecutorCapacity {
    /// A copy of this record.
    pub fn clone_capacity(&self) -> (r: Self)
        ensures
            r == *self,
    {
        ExecutorCapacity {
            executor_id: self.executor_id.clone(),
            available_task_slots: self.available_task_slots,
        }
    }
}

/// The delta records seeded with each executor's free slots before the policy runs.
pub open spec fn baseline_of(snapshot: Seq<ExecutorCapacity>) -> Seq<ExecutorDelta> {
    Seq::new(
        snapshot.len(),
        |i: int|
            ExecutorDelta {
                executor_id: snapshot[i].executor_id,
                slot_delta: snapshot[i].available_task_slots as i64,
            },
    )
}

/// Slots consumed on each executor: free slots before the policy ran minus
/// free slots after, keeping the snapshot's order and identifiers.
pub open spec fn consumed_deltas(
    before: Seq<ExecutorCapacity>,
    after: Seq<ExecutorCapacity>,
) -> Seq<ExecutorDelta> {
    Seq::new(
        before.len(),
        |i: int|
            ExecutorDelta {
                executor_id: before[i].executor_id,
                slot_delta: (before[i].available_task_slots - after[i].available_task_slots) as i64,
            },
    )
}

/// The free-slot counts of a snapshot, in its order.
pub open spec fn slots_of(snapshot: Seq<ExecutorCapacity>) -> Seq<int> {
    Seq::new(snapshot.len(), |i: int| snapshot[i].available_task_slots as int)
}

/// Registry counters, in snapshot order, after the deltas at the first
/// `applied` positions have been applied and the others have not.
pub open spec fn apply_deltas(registry: Seq<int>, deltas: Seq<ExecutorDelta>, applied: int) -> Seq<
    int,
> {
    Seq::new(
        registry.len(),
        |i: int|
            if i < applied {
                registry[i] - deltas[i].slot_delta
            } else {
                registry[i]
            },
    )
}

/// Each executor's identifier sits at the same position in both sequences.
pub open spec fn same_order(a: Seq<ExecutorCapacity>, d: Seq<ExecutorDelta>) -> bool {
    &&& a.len() == d.len()
    &&& forall|i: int| 0 <= i < a.len() ==> #[trigger] d[i].executor_id@ == a[i].executor_id@
}

/// Builds one delta record per executor, seeded with its free slots.
pub fn build_baseline(snapshot: &Vec<ExecutorCapacity>) -> (r: Vec<ExecutorDelta>)
    ensures
        r@ == baseline_of(snapshot@),
{
    let mut r: Vec<ExecutorDelta> = Vec::new();
    let mut i: usize = 0;
    while i < snapshot.len()
        invariant
            i <= snapshot@.len(),
            r@ == baseline_of(snapshot@).subrange(0, i as int),
        decreases snapshot@.len() - i,
    {
        let c = &snapshot[i];
        r.push(
            ExecutorDelta {
                executor_id: c.executor_id.clone(),
                slot_delta: c.available_task_slots as i64,
            },
        );
        i = i + 1;
        assert(r@ =~= baseline_of(snapshot@).subrange(0, i as int));
    }
    assert(r@ =~= baseline_of(snapshot@));
    r
}

/// Turns the baseline into consumed slots: each record becomes its baseline
/// minus the executor's free slots after the policy ran.
pub fn reconcile(deltas: &mut Vec<ExecutorDelta>, after: &Vec<ExecutorCapacity>)
    requires
        after@.len() == old(deltas)@.len(),
        forall|i: int|
            0 <= i < old(deltas)@.len() ==> 0 <= #[trigger] old(deltas)@[i].slot_delta <= u32::MAX,
    ensures
        final(deltas)@.len() == old(deltas)@.len(),
        forall|i: int|
            0 <= i < old(deltas)@.len() ==> (#[trigger] final(deltas)@[i]) == (ExecutorDelta {
                executor_id: old(deltas)@[i].executor_id,
                slot_delta: (old(deltas)@[i].slot_delta - after@[i].available_task_slots) as i64,
            }),
{
    let n = deltas.len();
    let mut i: usize = 0;
    while i < n
        invariant
            n == deltas@.len(),
            n == after@.len(),
            n == old(deltas)@.len(),
            i <= n,
            forall|j: int|
                0 <= j < i ==> (#[trigger] deltas@[j]) == (ExecutorDelta {
                    executor_id: old(deltas)@[j].executor_id,
                    slot_delta: (old(deltas)@[j].slot_delta - after@[j].available_task_slots) as i64,
                }),
            forall|j: int| i <= j < n ==> #[trigger] deltas@[j] == old(deltas)@[j],
            forall|j: int| 0 <= j < n ==> 0 <= #[trigger] old(deltas)@[j].slot_delta <= u32::MAX,
        decreases n - i,
    {
        let remaining = after[i].available_task_slots as i64;
        deltas[i].slot_delta = deltas[i].slot_delta - remaining;
        i = i + 1;
    }
}

/// The baseline of a snapshot, reconciled against the snapshot the policy
/// left behind, is the consumed deltas of the two.
pub proof fn lemma_reconciled_baseline(
    before: Seq<ExecutorCapacity>,
    after: Seq<ExecutorCapacity>,
    reconciled: Seq<ExecutorDelta>,
)
    requires
        before.len() == after.len(),
        reconciled.len() == before.len(),
        forall|i: int|
            0 <= i < before.len() ==> (#[trigger] reconciled[i]) == (ExecutorDelta {
                executor_id: baseline_of(before)[i].executor_id,
                slot_delta: (baseline_of(before)[i].slot_delta
                    - after[i].available_task_slots) as i64,
            }),
    ensures
        reconciled == consumed_deltas(before, after),
{
    assert(reconciled =~= consumed_deltas(before, after));
}

/// Positions are kept throughout a cycle: the baseline and the consumed
/// deltas carry, at every position, the identifier of the executor at that
/// position of the capacity snapshot.
pub proof fn lemma_ordering_kept(before: Seq<ExecutorCapacity>, after: Seq<ExecutorCapacity>)
    requires
        before.len() == after.len(),
    ensures
        same_order(before, baseline_of(before)),
        same_order(before, consumed_deltas(before, after)),
{
}

/// A cycle that applies no delta (the policy failed, or dispatch never
/// started) leaves the registry counters exactly as they were read.
pub proof fn lemma_nothing_applied(registry: Seq<int>, deltas: Seq<ExecutorDelta>)
    ensures
        apply_deltas(registry, deltas, 0) == registry,
{
    assert(apply_deltas(registry, deltas, 0) =~= registry);
}

/// Slots are conserved: where the policy took one free slot for each task it
/// assigned to an executor, applying the consumed deltas of the dispatched
/// executors lowers each of their registry counters by exactly the number of
/// tasks sent to it, and leaves the counters of the others as they were read.
pub proof fn lemma_conservation(
    before: Seq<ExecutorCapacity>,
    after: Seq<ExecutorCapacity>,
    task_counts: Seq<usize>,
    dispatched: int,
)
    requires
        before.len() == after.len(),
        before.len() == task_counts.len(),
        0 <= dispatched <= before.len(),
        forall|i: int|
            0 <= i < before.len() ==> after[i].available_task_slots + task_counts[i]
                == #[trigger] before[i].available_task_slots,
    ensures
        ({
            let registry = apply_deltas(
                slots_of(before),
                consumed_deltas(before, after),
                dispatched,
            );
            &&& registry.len() == before.len()
            &&& forall|i: int|
                0 <= i < dispatched ==> slots_of(before)[i] - #[trigger] registry[i]
                    == task_counts[i]
            &&& forall|i: int|
                dispatched <= i < before.len() ==> #[trigger] registry[i] == slots_of(before)[i]
        }),
{
    let registry = apply_deltas(slots_of(before), consumed_deltas(before, after), dispatched);
    assert forall|i: int| 0 <= i < dispatched implies slots_of(before)[i] - #[trigger] registry[i]
        == task_counts[i] by {
        assert(after[i].available_task_slots + task_counts[i] == before[i].available_task_slots);
    }
}

} // verus!
