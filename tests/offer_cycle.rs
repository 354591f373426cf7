use ballista_scheduler::{
    Assignment, DispatchStep, ExecutorCapacity, ExecutorDelta, OfferCycle, OfferPlan,
    SchedulerError, SchedulerServerEvent, SchedulerServerEventAction, TaskDispatch,
    REVIVE_BACKOFF_MILLIS,
};

fn cap(id: &str, slots: u32) -> ExecutorCapacity {
    ExecutorCapacity { executor_id: id.to_string(), available_task_slots: slots }
}

fn action() -> SchedulerServerEventAction<(), ()> {
    SchedulerServerEventAction::new((), ())
}

fn start_cycle(n: u32, snapshot: Vec<ExecutorCapacity>) -> OfferCycle {
    match action().on_receive(SchedulerServerEvent::ReviveOffers(n), snapshot) {
        OfferPlan::Assign(c) => c,
        OfferPlan::Retry { .. } => panic!("expected an assignment cycle"),
    }
}

fn start_dispatch(
    snapshot: Vec<ExecutorCapacity>,
    remaining: Vec<ExecutorCapacity>,
    task_counts: Vec<usize>,
) -> TaskDispatch {
    let num_tasks: usize = task_counts.iter().sum();
    let cycle = start_cycle(10, snapshot);
    match cycle.on_assignment(Ok(Assignment { remaining, task_counts, num_tasks })) {
        Ok(Some(d)) => d,
        other => panic!("expected dispatch, got {:?}", other),
    }
}

#[test]
fn new_keeps_state_and_clients() {
    let a = SchedulerServerEventAction::new(7u32, "clients");
    assert_eq!(a.state, 7);
    assert_eq!(a.executors_client, "clients");
}

#[test]
fn empty_capacity_retries_with_one_task() {
    let plan = action().on_receive(SchedulerServerEvent::ReviveOffers(5), vec![]);
    match plan {
        OfferPlan::Retry { backoff_millis, follow_up } => {
            assert_eq!(backoff_millis, 100);
            assert_eq!(backoff_millis, REVIVE_BACKOFF_MILLIS);
            assert_eq!(follow_up, SchedulerServerEvent::ReviveOffers(1));
        }
        OfferPlan::Assign(_) => panic!("no cycle may start without capacity"),
    }
}

#[test]
fn empty_capacity_retry_ignores_requested_size() {
    for n in [0u32, 1, 2, 1000, u32::MAX] {
        match action().offer_resources(n, vec![]) {
            OfferPlan::Retry { follow_up, .. } => {
                assert_eq!(follow_up, SchedulerServerEvent::ReviveOffers(1))
            }
            OfferPlan::Assign(_) => panic!("no cycle may start without capacity"),
        }
    }
}

#[test]
fn capacity_starts_cycle_with_snapshot_and_batch() {
    let cycle = start_cycle(4, vec![cap("a", 2), cap("b", 0)]);
    assert_eq!(cycle.requested(), 4);
    assert_eq!(cycle.snapshot_for_policy(), vec![cap("a", 2), cap("b", 0)]);
}

#[test]
fn policy_failure_is_passed_on() {
    let cycle = start_cycle(3, vec![cap("a", 2)]);
    let r = cycle.on_assignment(Err(SchedulerError::Policy("no plan".to_string())));
    assert_eq!(r.unwrap_err(), SchedulerError::Policy("no plan".to_string()));
}

#[test]
fn misaligned_assignment_is_refused() {
    let cycle = start_cycle(3, vec![cap("a", 2), cap("b", 1)]);
    let r = cycle.on_assignment(Ok(Assignment {
        remaining: vec![cap("a", 1)],
        task_counts: vec![1, 0],
        num_tasks: 1,
    }));
    assert_eq!(r.unwrap_err(), SchedulerError::InconsistentAssignment);

    let cycle = start_cycle(3, vec![cap("a", 2), cap("b", 1)]);
    let r = cycle.on_assignment(Ok(Assignment {
        remaining: vec![cap("a", 1), cap("b", 1)],
        task_counts: vec![1],
        num_tasks: 1,
    }));
    assert_eq!(r.unwrap_err(), SchedulerError::InconsistentAssignment);
}

#[test]
fn reordered_assignment_is_refused() {
    let cycle = start_cycle(3, vec![cap("a", 2), cap("b", 1)]);
    let r = cycle.on_assignment(Ok(Assignment {
        remaining: vec![cap("b", 1), cap("a", 1)],
        task_counts: vec![1, 0],
        num_tasks: 1,
    }));
    assert_eq!(r.unwrap_err(), SchedulerError::InconsistentAssignment);
}

#[test]
fn no_tasks_means_no_dispatch() {
    let cycle = start_cycle(3, vec![cap("a", 2), cap("b", 1)]);
    let r = cycle.on_assignment(Ok(Assignment {
        remaining: vec![cap("a", 2), cap("b", 1)],
        task_counts: vec![0, 0],
        num_tasks: 0,
    }));
    assert!(matches!(r, Ok(None)));
}

#[test]
fn deltas_are_consumed_slots_in_snapshot_order() {
    let d = start_dispatch(
        vec![cap("x", 5), cap("y", 3), cap("z", 4)],
        vec![cap("x", 2), cap("y", 3), cap("z", 0)],
        vec![3, 0, 4],
    );
    let deltas = d.executor_deltas();
    assert_eq!(
        deltas,
        &vec![
            ExecutorDelta { executor_id: "x".to_string(), slot_delta: 3 },
            ExecutorDelta { executor_id: "y".to_string(), slot_delta: 0 },
            ExecutorDelta { executor_id: "z".to_string(), slot_delta: 4 },
        ]
    );
    assert_eq!(d.sent_count(), 0);
}

#[test]
fn largest_slot_counts_do_not_overflow() {
    let d = start_dispatch(
        vec![cap("x", u32::MAX), cap("y", 0)],
        vec![cap("x", 0), cap("y", u32::MAX)],
        vec![1, 1],
    );
    assert_eq!(d.executor_deltas()[0].slot_delta, u32::MAX as i64);
    assert_eq!(d.executor_deltas()[1].slot_delta, -(u32::MAX as i64));
}

#[test]
fn conservation_of_slots_for_dispatched_executors() {
    let before = vec![cap("a", 4), cap("b", 2), cap("c", 3)];
    let counts = vec![3usize, 2, 1];
    let after: Vec<ExecutorCapacity> = before
        .iter()
        .zip(counts.iter())
        .map(|(c, n)| cap(&c.executor_id, c.available_task_slots - *n as u32))
        .collect();
    let mut registry: Vec<i64> = before.iter().map(|c| c.available_task_slots as i64).collect();
    let mut d = start_dispatch(before.clone(), after, counts.clone());
    while let DispatchStep::Launch(k) = d.next_step() {
        let delta = d.launched(Ok(())).expect("a successful send yields its delta");
        assert_eq!(delta.executor_id, before[k].executor_id);
        registry[k] -= delta.slot_delta;
    }
    assert_eq!(d.next_step(), DispatchStep::Finished(Ok(())));
    for i in 0..3 {
        assert_eq!(before[i].available_task_slots as i64 - registry[i], counts[i] as i64);
    }
}

#[test]
fn round_robin_early_exit_scenario() {
    // slots {2, 0, 3}; task lists {[t1, t2], [], [t3]}
    let before = vec![cap("e1", 2), cap("e2", 0), cap("e3", 3)];
    let after = vec![cap("e1", 0), cap("e2", 0), cap("e3", 2)];
    let mut registry: Vec<i64> = vec![2, 0, 3];
    let mut d = start_dispatch(before, after, vec![2, 0, 1]);
    let mut launched: Vec<usize> = Vec::new();
    loop {
        match d.next_step() {
            DispatchStep::Launch(k) => {
                launched.push(k);
                let delta = d.launched(Ok(())).unwrap();
                registry[k] -= delta.slot_delta;
            }
            DispatchStep::Finished(r) => {
                assert_eq!(r, Ok(()));
                break;
            }
        }
    }
    assert_eq!(launched, vec![0]);
    assert_eq!(registry[0] - 2, -2);
    assert_eq!(registry, vec![0, 0, 3]);
    assert_eq!(d.sent_count(), 1);
}

#[test]
fn early_exit_skips_all_later_executors() {
    let before = vec![cap("a", 1), cap("b", 1), cap("c", 1), cap("d", 1)];
    let after = vec![cap("a", 0), cap("b", 0), cap("c", 1), cap("d", 0)];
    let mut d = start_dispatch(before, after, vec![1, 1, 0, 1]);
    let mut launched: Vec<usize> = Vec::new();
    while let DispatchStep::Launch(k) = d.next_step() {
        launched.push(k);
        d.launched(Ok(()));
    }
    assert_eq!(launched, vec![0, 1]);
}

#[test]
fn partial_dispatch_failure_scenario() {
    let before = vec![cap("A", 2), cap("B", 2), cap("C", 2)];
    let after = vec![cap("A", 1), cap("B", 1), cap("C", 1)];
    let mut registry: Vec<i64> = vec![2, 2, 2];
    let mut d = start_dispatch(before, after, vec![1, 1, 1]);

    assert_eq!(d.next_step(), DispatchStep::Launch(0));
    let delta = d.launched(Ok(())).unwrap();
    assert_eq!(delta.executor_id, "A");
    registry[0] -= delta.slot_delta;

    assert_eq!(d.next_step(), DispatchStep::Launch(1));
    assert_eq!(d.launched(Err("connection reset".to_string())), None);

    assert_eq!(
        d.next_step(),
        DispatchStep::Finished(Err(SchedulerError::Launch {
            executor_id: "B".to_string(),
            message: "connection reset".to_string(),
        }))
    );
    assert_eq!(d.sent_count(), 1);
    assert_eq!(registry, vec![1, 2, 2]);
}

#[test]
fn error_copies_are_equal() {
    let errors = vec![
        SchedulerError::Registry("down".to_string()),
        SchedulerError::Policy("bad".to_string()),
        SchedulerError::InconsistentAssignment,
        SchedulerError::Launch { executor_id: "e".to_string(), message: "m".to_string() },
    ];
    for e in errors {
        assert_eq!(e.clone_error(), e);
    }
}
