use vstd::prelude::*;

use crate::capacity::ExecutorDelta;
use crate::event::SchedulerError;

verus! {

/// What the caller does next while dispatching a cycle's task lists.
#[derive(Debug, PartialEq, Eq)]
pub enum DispatchStep {
    /// Send the task list at this position to its executor, then report the
    /// outcome with `TaskDispatch::launched`.
    Launch(usize),
    /// Dispatch is over, with the cycle's result.
    Finished(Result<(), SchedulerError>),
}

/// Dispatch of one cycle's assignment, one executor at a time in snapshot
/// order. It stops at the first executor with no tasks (the policy assigns
/// round-robin, so later executors have none either) and at the first failed
/// send.
#[derive(Debug)]
pub struct TaskDispatch {
    deltas: Vec<ExecutorDelta>,
    task_counts: Vec<usize>,
    next: usize,
    failure: Option<SchedulerError>,
}

impl TaskDispatch {
    /// Consumed slots of each executor, in snapshot order.
    pub closed spec fn deltas(&self) -> Seq<ExecutorDelta> {
        self.deltas@
    }

    /// Number of tasks assigned to each executor, in snapshot order.
    pub closed spec fn task_counts(&self) -> Seq<usize> {
        self.task_counts@
    }

    /// Number of executors whose tasks were sent and whose deltas were handed
    /// out for the registry.
    pub closed spec fn sent(&self) -> int {
        self.next as int
    }

    /// The failed send that ended dispatch, if any.
    pub closed spec fn failure(&self) -> Option<SchedulerError> {
        self.failure
    }

    pub open spec fn wf(&self) -> bool {
        &&& self.deltas().len() == self.task_counts().len()
        &&& 0 <= self.sent() <= self.task_counts().len()
        &&& forall|j: int| 0 <= j < self.sent() ==> #[trigger] self.task_counts()[j] > 0
    }

    /// The executor at position `sent()` is owed a send.
    pub open spec fn launch_due(&self) -> bool {
        &&& self.failure() is None
        &&& self.sent() < self.task_counts().len()
        &&& self.task_counts()[self.sent()] > 0
    }

    pub(crate) fn new(deltas: Vec<ExecutorDelta>, task_counts: Vec<usize>) -> (r: Self)
        requires
            deltas@.len() == task_counts@.len(),
        ensures
            r.wf(),
            r.deltas() == deltas@,
            r.task_counts() == task_counts@,
            r.sent() == 0,
            r.failure() is None,
    {
        TaskDispatch { deltas, task_counts, next: 0, failure: None }
    }

    /// The consumed slots of each executor, in snapshot order.
    pub fn executor_deltas(&self) -> (r: &Vec<ExecutorDelta>)
        ensures
            r@ == self.deltas(),
    {
        &self.deltas
    }

    /// How many executors have had their tasks sent.
    pub fn sent_count(&self) -> (r: usize)
        ensures
            r == self.sent(),
    {
        self.next
    }

    /// Decides the next step: after a failed send, the failure; otherwise a
    /// send to the next executor if it has tasks; otherwise success.
    pub fn next_step(&self) -> (r: DispatchStep)
        requires
            self.wf(),
        ensures
            self.failure() matches Some(e) ==> r == DispatchStep::Finished(Err(e)),
            self.launch_due() ==> r == DispatchStep::Launch(self.sent() as usize),
            self.failure() is None && !self.launch_due() ==> r == DispatchStep::Finished(Ok(())),
            r matches DispatchStep::Launch(k) ==> forall|j: int|
                0 <= j <= k ==> #[trigger] self.task_counts()[j] > 0,
    {
        match &self.failure {
            Some(e) => DispatchStep::Finished(Err(e.clone_error())),
            None => {
                if self.next < self.task_counts.len() && self.task_counts[self.next] > 0 {
                    DispatchStep::Launch(self.next)
                } else {
                    DispatchStep::Finished(Ok(()))
                }
            },
        }
    }

    /// Records the outcome of the send that `next_step` asked for. After a
    /// successful send it hands back that executor's delta, for the caller to
    /// apply to the registry; after a failed one it hands back nothing and
    /// dispatch is over.
    pub fn launched(&mut self, sent: Result<(), String>) -> (r: Option<ExecutorDelta>)
        requires
            old(self).wf(),
            old(self).launch_due(),
        ensures
            final(self).wf(),
            final(self).deltas() == old(self).deltas(),
            final(self).task_counts() == old(self).task_counts(),
            sent is Ok ==> {
                &&& r == Some(old(self).deltas()[old(self).sent()])
                &&& final(self).sent() == old(self).sent() + 1
                &&& final(self).failure() is None
            },
            sent matches Err(m) ==> {
                &&& r is None
                &&& final(self).sent() == old(self).sent()
                &&& final(self).failure() == Some(
                    SchedulerError::Launch {
                        executor_id: old(self).deltas()[old(self).sent()].executor_id,
                        message: m,
                    },
                )
            },
    {
        let n = self.task_counts.len();
        assert(self.next < n);
        let d = self.deltas[self.next].clone_delta();
        match sent {
            Ok(()) => {
                self.next = self.next + 1;
                Some(d)
            },
            Err(message) => {
                self.failure = Some(SchedulerError::Launch { executor_id: d.executor_id, message });
                None
            },
        }
    }
}

/// Round-robin early exit: once an executor's task list is empty, dispatch
/// never gets past it, so no executor after it is sent anything, whatever
/// its task list holds.
pub proof fn lemma_early_exit(d: TaskDispatch, k: int)
    requires
        d.wf(),
        0 <= k < d.task_counts().len(),
        d.task_counts()[k] == 0,
    ensures
        d.sent() <= k,
        !d.launch_due() || d.sent() < k,
{
}

} // verus!
