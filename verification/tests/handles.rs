//! Join handles, join errors, identifiers, and the virtual clock.

use sim_task::executor::{Executor, ProbeVerdict, StepOutcome};
use sim_task::join::{join_outcome, JoinError};
use sim_task::node::NodeInfo;
use sim_task::{Id, NodeId};

#[test]
fn join_outcome_maps_results() {
    let id = Id(7);
    // A completed task surfaces its value.
    assert_eq!(join_outcome(id, Some(41), false), Ok(41));
    // A task whose storage was dropped by an abort was cancelled.
    let cancelled: Result<i32, JoinError> = join_outcome(id, None, true);
    let e = cancelled.unwrap_err();
    assert_eq!(e.id(), id);
    assert!(e.is_cancelled());
    assert!(!e.is_panic());
    assert_eq!(e.message(), "task 7 was cancelled");
    // A task whose future faulted panicked.
    let panicked: Result<i32, JoinError> = join_outcome(id, None, false);
    let e = panicked.unwrap_err();
    assert_eq!(e.id(), id);
    assert!(e.is_panic());
    assert!(!e.is_cancelled());
    assert_eq!(e.message(), "task 7 panicked");
}

#[test]
fn join_error_messages_spell_the_id() {
    // The formatted message carries the task id in decimal, whatever its
    // size.
    let e = JoinError { task: Id(0), is_panic: false };
    assert_eq!(e.message(), "task 0 was cancelled");
    let e = JoinError { task: Id(904_625_697), is_panic: true };
    assert_eq!(e.message(), "task 904625697 panicked");
    let e = JoinError { task: Id(u64::MAX), is_panic: true };
    assert_eq!(e.message(), "task 18446744073709551615 panicked");
}

#[test]
fn abort_is_idempotent() {
    let mut ex = Executor::new();
    let main = ex.handle.get_node(NodeId::zero()).unwrap();
    let mut h = main.spawn(&mut ex.handle);
    let id = h.id();
    h.abort();
    h.abort();
    assert_eq!(h.id(), id);
    // The in-flight runnable is absorbed once the storage is gone: the
    // dequeue still happens, and the poll of the dropped task yields
    // nothing, which joins as "cancelled".
    assert!(matches!(ex.run_next(0), StepOutcome::Run(_)));
    ex.finish_poll(50);
    let joined: Result<i32, JoinError> = join_outcome(id, None, true);
    assert!(joined.unwrap_err().is_cancelled());
}

#[test]
fn cancel_on_drop_hands_over_the_task() {
    let mut ex = Executor::new();
    let main = ex.handle.get_node(NodeId::zero()).unwrap();
    let h = main.spawn(&mut ex.handle);
    let id = h.id();
    assert_eq!(h.cancel_on_drop(), id);
}

#[test]
fn task_ids_are_unique_and_monotonic() {
    let mut counter: u64 = 0;
    let a = Id::new(&mut counter);
    let b = Id::new(&mut counter);
    let c = Id::new(&mut counter);
    assert_eq!((a, b, c), (Id(0), Id(1), Id(2)));

    let mut next: u64 = 10;
    let t = NodeInfo::new_task(3, &mut next);
    assert_eq!(t.id, Id(10));
    assert_eq!(t.node, 3);
    assert_eq!(next, 11);

    // Spawns across different nodes draw from the one counter.
    let mut ex = Executor::new();
    let n1 = ex.handle.create_node(None, false, None);
    let n2 = ex.handle.create_node(None, false, None);
    let mut seen = Vec::new();
    for _ in 0..3 {
        seen.push(n1.spawn(&mut ex.handle).id());
        seen.push(n2.spawn(&mut ex.handle).id());
    }
    let mut deduped = seen.clone();
    deduped.sort_by_key(|id| id.0);
    deduped.dedup();
    assert_eq!(deduped.len(), seen.len());
}

#[test]
fn virtual_time_is_monotonic() {
    let mut ex = Executor::new();
    assert_eq!(ex.elapsed(), 0);
    ex.advance(1_000);
    assert_eq!(ex.elapsed(), 1_000);

    // The post-poll bump advances the clock by the drawn 50..100 ns.
    let main = ex.handle.get_node(NodeId::zero()).unwrap();
    main.spawn(&mut ex.handle);
    assert!(matches!(ex.run_next(0), StepOutcome::Run(_)));
    ex.finish_poll(73);
    assert_eq!(ex.elapsed(), 1_073);

    // Draw-directed bumps stay inside the band.
    main.spawn(&mut ex.handle);
    assert!(matches!(ex.run_next(0), StepOutcome::Run(_)));
    let before = ex.elapsed();
    let mut rng = sim_task::entropy::rng_from_seed(42);
    ex.finish_poll_with(&mut rng);
    let after = ex.elapsed();
    assert!(after >= before + 50 && after < before + 100);
}

#[test]
fn probe_verdicts() {
    let mut ex = Executor::new();
    // A completed root always wins.
    assert_eq!(ex.after_drain(true, true), ProbeVerdict::Finished);
    assert_eq!(ex.after_drain(true, false), ProbeVerdict::Finished);
    // No pending timer event means every task would block forever.
    assert_eq!(ex.after_drain(false, false), ProbeVerdict::Deadlock);
    // With no limit configured the loop just goes round.
    assert_eq!(ex.after_drain(false, true), ProbeVerdict::KeepGoing);
    // Exceeding the configured virtual-time limit is fatal.
    ex.set_time_limit(100);
    ex.advance(99);
    assert_eq!(ex.after_drain(false, true), ProbeVerdict::KeepGoing);
    ex.advance(1);
    assert_eq!(ex.after_drain(false, true), ProbeVerdict::LimitExceeded);
}

#[test]
fn wake_requeues_a_task() {
    let mut ex = Executor::new();
    let main = ex.handle.get_node(NodeId::zero()).unwrap();
    let h = main.spawn(&mut ex.handle);
    let ti = match ex.run_next(0) {
        StepOutcome::Run(t) => t,
        other => panic!("unexpected {:?}", other),
    };
    ex.finish_poll(50);
    assert!(matches!(ex.run_next(0), StepOutcome::Empty));
    // The waker fires: the same record goes back on the ready queue.
    ex.handle.wake(ti);
    match ex.run_next(0) {
        StepOutcome::Run(t) => assert_eq!(t.id, h.id()),
        other => panic!("unexpected {:?}", other),
    }
    ex.finish_poll(50);
}

#[test]
fn wake_after_kill_is_discarded() {
    let mut ex = Executor::new();
    let node = ex.handle.create_node(None, false, None);
    let h = node.spawn(&mut ex.handle);
    let ti = match ex.run_next(0) {
        StepOutcome::Run(t) => t,
        other => panic!("unexpected {:?}", other),
    };
    ex.finish_poll(50);
    // The task suspends; its waker fires after the node is killed.
    ex.handle.kill(node.id());
    ex.handle.wake(ti);
    match ex.run_next(0) {
        StepOutcome::Discard(t) => assert_eq!(t.id, h.id()),
        other => panic!("unexpected {:?}", other),
    }
}
