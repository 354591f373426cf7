use vstd::prelude::*;

use crate::capacity::{
    baseline_of, build_baseline, consumed_deltas, lemma_reconciled_baseline, reconcile,
    ExecutorCapacity, ExecutorDelta,
};
use crate::dispatch::TaskDispatch;
use crate::event::{SchedulerError, SchedulerServerEvent};

verus! {

/// Pause before probing again when no executor has a free slot.
pub const REVIVE_BACKOFF_MILLIS: u64 = 100;

/// What the scheduling policy answered for one cycle.
#[derive(Debug)]
pub struct Assignment {
    /// The capacity snapshot as the policy left it, slots it took subtracted.
    pub remaining: Vec<ExecutorCapacity>,
    /// Number of tasks assigned to each executor, in snapshot order.
    pub task_counts: Vec<usize>,
    /// Total number of tasks assigned.
    pub num_tasks: usize,
}

/// The policy's answer lines up with the snapshot it was given: one entry
/// per executor, each at the executor's own position.
pub open spec fn assignment_consistent(snapshot: Seq<ExecutorCapacity>, a: Assignment) -> bool {
    &&& a.remaining@.len() == snapshot.len()
    &&& a.task_counts@.len() == snapshot.len()
    &&& forall|i: int|
        0 <= i < snapshot.len() ==> (#[trigger] a.remaining@[i]).executor_id@
            == snapshot[i].executor_id@
}

/// Dispatch of a consistent assignment starts before its first send, with
/// the slots the policy consumed on each executor.
pub open spec fn dispatch_started(
    snapshot: Seq<ExecutorCapacity>,
    a: Assignment,
    d: TaskDispatch,
) -> bool {
    &&& d.wf()
    &&& d.deltas() == consumed_deltas(snapshot, a.remaining@)
    &&& d.task_counts() == a.task_counts@
    &&& d.sent() == 0
    &&& d.failure() is None
}

/// A cycle that found free slots and waits for the policy's assignment.
#[derive(Debug)]
pub struct OfferCycle {
    batch_size: u32,
    snapshot: Vec<ExecutorCapacity>,
    baseline: Vec<ExecutorDelta>,
}

/// What to do with a `ReviveOffers` trigger, given the capacity snapshot.
#[derive(Debug)]
pub enum OfferPlan {
    /// No executor has free slots: wait `backoff_millis`, then emit
    /// `follow_up`. Nothing is dispatched.
    Retry { backoff_millis: u64, follow_up: SchedulerServerEvent },
    /// Ask the policy for an assignment and hand it to the cycle.
    Assign(OfferCycle),
}

impl OfferCycle {
    /// Number of tasks the trigger asked for.
    pub closed spec fn batch_size(&self) -> u32 {
        self.batch_size
    }

    /// Free slots of each executor when the cycle began.
    pub closed spec fn snapshot(&self) -> Seq<ExecutorCapacity> {
        self.snapshot@
    }

    pub closed spec fn wf(&self) -> bool {
        self.baseline@ == baseline_of(self.snapshot@)
    }

    /// Number of tasks to ask the policy for.
    pub fn requested(&self) -> (r: u32)
        ensures
            r == self.batch_size(),
    {
        self.batch_size
    }

    /// A copy of the snapshot, for the policy to take slots from.
    pub fn snapshot_for_policy(&self) -> (r: Vec<ExecutorCapacity>)
        ensures
            r@ == self.snapshot(),
    {
        let mut r: Vec<ExecutorCapacity> = Vec::new();
        let mut i: usize = 0;
        while i < self.snapshot.len()
            invariant
                i <= self.snapshot@.len(),
                r@ == self.snapshot@.subrange(0, i as int),
            decreases self.snapshot@.len() - i,
        {
            r.push(self.snapshot[i].clone_capacity());
            i = i + 1;
            assert(r@ =~= self.snapshot@.subrange(0, i as int));
        }
        assert(r@ =~= self.snapshot@);
        r
    }

    /// Takes the policy's outcome. A policy failure is passed on untouched
    /// and nothing is dispatched; an answer that does not line up with the
    /// snapshot is refused; an empty assignment needs no dispatch; otherwise
    /// dispatch starts with the slots consumed on each executor.
    pub fn on_assignment(self, outcome: Result<Assignment, SchedulerError>) -> (r: Result<
        Option<TaskDispatch>,
        SchedulerError,
    >)
        requires
            self.wf(),
        ensures
            outcome matches Err(e) ==> r == Err::<Option<TaskDispatch>, SchedulerError>(e),
            outcome matches Ok(a) ==> (!assignment_consistent(self.snapshot(), a) <==> r == Err::<
                Option<TaskDispatch>,
                SchedulerError,
            >(SchedulerError::InconsistentAssignment)),
            outcome matches Ok(a) ==> (assignment_consistent(self.snapshot(), a) && a.num_tasks
                == 0 ==> r matches Ok(None)),
            outcome matches Ok(a) ==> (assignment_consistent(self.snapshot(), a) && a.num_tasks > 0
                ==> (r matches Ok(Some(d)) && dispatch_started(self.snapshot(), a, d))),
    {
        let a = match outcome {
            Err(e) => {
                return Err(e);
            },
            Ok(a) => a,
        };
        let n = self.snapshot.len();
        if a.remaining.len() != n || a.task_counts.len() != n {
            return Err(SchedulerError::InconsistentAssignment);
        }
        let mut i: usize = 0;
        while i < n
            invariant
                n == self.snapshot@.len(),
                n == a.remaining@.len(),
                n == a.task_counts@.len(),
                outcome == Ok::<Assignment, SchedulerError>(a),
                i <= n,
                forall|j: int|
                    0 <= j < i ==> (#[trigger] a.remaining@[j]).executor_id@
                        == self.snapshot@[j].executor_id@,
            decreases n - i,
        {
            if a.remaining[i].executor_id != self.snapshot[i].executor_id {
                return Err(SchedulerError::InconsistentAssignment);
            }
            i = i + 1;
        }
        if a.num_tasks == 0 {
            return Ok(None);
        }
        let ghost before = self.snapshot@;
        let mut deltas = self.baseline;
        reconcile(&mut deltas, &a.remaining);
        proof {
            lemma_reconciled_baseline(before, a.remaining@, deltas@);
        }
        Ok(Some(TaskDispatch::new(deltas, a.task_counts)))
    }
}

/// Handles scheduler events for the event loop. It holds the scheduler's
/// state and its executor clients for the caller, which performs the reads,
/// policy calls and sends that the action decides on.
pub struct SchedulerServerEventAction<S, C> {
    pub state: S,
    pub executors_client: C,
}

impl<S, C> SchedulerServerEventAction<S, C> {
    pub fn new(state: S, executors_client: C) -> (r: Self)
        ensures
            r.state == state,
            r.executors_client == executors_client,
    {
        SchedulerServerEventAction { state, executors_client }
    }

    /// Handles one event, given the capacity snapshot read for it.
    pub fn on_receive(&self, event: SchedulerServerEvent, available: Vec<ExecutorCapacity>) -> (r:
        OfferPlan)
        ensures
            event matches SchedulerServerEvent::ReviveOffers(n) ==> offer_planned(n, available@, r),
    {
        match event {
            SchedulerServerEvent::ReviveOffers(n) => self.offer_resources(n, available),
        }
    }

    /// Starts a resource-offer cycle for up to `n` tasks. With no free
    /// executor it backs off and asks again for a single task; otherwise it
    /// seeds one delta record per executor and waits for the policy.
    pub fn offer_resources(&self, n: u32, available: Vec<ExecutorCapacity>) -> (r: OfferPlan)
        ensures
            offer_planned(n, available@, r),
    {
        if available.len() == 0 {
            return OfferPlan::Retry {
                backoff_millis: REVIVE_BACKOFF_MILLIS,
                follow_up: SchedulerServerEvent::ReviveOffers(1),
            };
        }
        let baseline = build_baseline(&available);
        OfferPlan::Assign(OfferCycle { batch_size: n, snapshot: available, baseline })
    }
}

/// The plan for a trigger asking for `n` tasks, given the snapshot: a retry
/// of one task after the backoff when the snapshot is empty, else a cycle over
/// exactly that snapshot and batch size.
pub open spec fn offer_planned(n: u32, available: Seq<ExecutorCapacity>, r: OfferPlan) -> bool {
    if available.len() == 0 {
        r == OfferPlan::Retry {
            backoff_millis: REVIVE_BACKOFF_MILLIS,
            follow_up: SchedulerServerEvent::ReviveOffers(1),
        }
    } else {
        r matches OfferPlan::Assign(c) && c.wf() && c.batch_size() == n && c.snapshot()
            == available
    }
}

} // verus!
