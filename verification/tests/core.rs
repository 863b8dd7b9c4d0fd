//! Scenarios driving the concurrency core: queue order, task life cycle,
//! result delivery, cancellation, the callback bridge and context release.

use gphoto2::context::Context;
use gphoto2::error::Error;
use gphoto2::progress::ProgressTracker;
use gphoto2::task::{LostResult, Task, TaskState};
use gphoto2::thread::ThreadManager;

#[test]
fn fifo_three_tasks_complete_in_submission_order() {
    let mut m = ThreadManager::new();
    m.ensure_started();
    let a = m.spawn_task();
    let b = m.spawn_task();
    let c = m.spawn_task();
    assert_eq!((a, b, c), (0, 1, 2));

    let mut completion_order = Vec::new();
    while let Some(id) = m.take_next() {
        completion_order.push(id);
        m.finish_running(id);
    }
    assert_eq!(completion_order, vec![0, 1, 2]);
    assert_eq!(m.done, vec![0, 1, 2]);
}

#[test]
fn mutual_exclusion_one_running_at_a_time() {
    let mut m = ThreadManager::new();
    m.ensure_started();
    m.spawn_task();
    m.spawn_task();

    assert!(m.running.is_none());
    let first = m.take_next().unwrap();
    // While the first closure runs, the second stays queued.
    assert_eq!(m.running, Some(first));
    assert_eq!(m.queue.len(), 1);
    m.finish_running(first);
    assert!(m.running.is_none());
    let second = m.take_next().unwrap();
    assert_eq!(m.running, Some(second));
    assert_ne!(first, second);
}

#[test]
fn wait_returns_exactly_the_delivered_value() {
    let mut m = ThreadManager::new();
    let mut t = Task::<u32>::new(&mut m);
    assert_eq!(t.state, TaskState::NotStarted);
    t.start_task(&mut m);
    assert_eq!(t.state, TaskState::Queued);
    t.begin(&mut m);
    assert_eq!(t.state, TaskState::Running);
    t.deliver(&mut m, 42);
    assert_eq!(t.state, TaskState::Completed);
    assert_eq!(t.wait(), 42);
}

#[test]
fn wait_preserves_error_values() {
    let mut m = ThreadManager::new();
    let mut t = Task::<Result<u32, Error>>::new(&mut m);
    t.start_task(&mut m);
    t.begin(&mut m);
    t.deliver(&mut m, Err(Error::new(-7, Some("device unplugged".to_string()))));
    let outcome = t.wait();
    let err = outcome.unwrap_err();
    assert_eq!(err.code, -7);
    assert_eq!(err.info.as_deref(), Some("device unplugged"));
}

#[test]
fn lost_result_is_surfaced_not_hung() {
    let mut m = ThreadManager::new();
    let mut t = Task::<u32>::new(&mut m);
    t.start_task(&mut m);
    t.begin(&mut m);
    // The closure ended without sending anything.
    t.abort(&mut m);
    assert_eq!(t.try_wait(), Err(LostResult));
}

#[test]
fn try_wait_returns_delivered_value() {
    let mut m = ThreadManager::new();
    let mut t = Task::<&str>::new(&mut m);
    t.start_task(&mut m);
    t.begin(&mut m);
    t.deliver(&mut m, "summary text");
    assert_eq!(t.try_wait(), Ok("summary text"));
}

#[test]
fn take_result_consumes_in_place() {
    let mut m = ThreadManager::new();
    let mut t = Task::<u32>::new(&mut m);
    t.start_task(&mut m);
    t.begin(&mut m);
    t.deliver(&mut m, 11);
    assert_eq!(t.take_result(), Ok(11));
    assert!(t.consumed);
    assert!(t.outcome.is_none());
}

#[test]
fn take_result_surfaces_a_lost_result() {
    let mut m = ThreadManager::new();
    let mut t = Task::<u32>::new(&mut m);
    t.start_task(&mut m);
    t.begin(&mut m);
    t.abort(&mut m);
    assert_eq!(t.take_result(), Err(LostResult));
    assert!(t.consumed);
}

#[test]
fn poll_registers_starts_and_consumes_once() {
    let mut m = ThreadManager::new();
    let mut t = Task::<u32>::new(&mut m);

    // First poll starts the task lazily; nothing is ready yet.
    assert_eq!(t.poll(&mut m), None);
    assert!(t.waker_set);
    assert_eq!(t.state, TaskState::Queued);

    t.begin(&mut m);
    assert_eq!(t.poll(&mut m), None);
    t.deliver(&mut m, 7);
    assert_eq!(t.poll(&mut m), Some(7));
    assert!(t.consumed);
}

#[test]
fn task_never_observed_never_burdens_the_queue() {
    let mut m = ThreadManager::new();
    let _t = Task::<u32>::new(&mut m);
    assert_eq!(m.queue.len(), 0);
    assert_eq!(m.next_id, 0);
}

#[test]
fn start_task_is_idempotent() {
    let mut m = ThreadManager::new();
    let mut t = Task::<u32>::new(&mut m);
    t.start_task(&mut m);
    let id = t.id;
    t.start_task(&mut m);
    t.start_task(&mut m);
    assert_eq!(t.id, id);
    assert_eq!(m.next_id, 1);
    assert_eq!(m.queue.len(), 1);
}

#[test]
fn background_fires_and_forgets() {
    let mut m = ThreadManager::new();
    let mut t = Task::<u32>::new(&mut m);
    t.background(&mut m);
    assert_eq!(t.state, TaskState::Queued);
    assert_eq!(m.queue.len(), 1);
    // A second start changes nothing.
    t.background(&mut m);
    assert_eq!(m.queue.len(), 1);
}

#[test]
fn cancel_sets_flag_and_only_the_flag() {
    let mut m = ThreadManager::new();
    let mut t = Task::<u32>::new(&mut m);
    assert!(!t.should_cancel());
    t.cancel();
    t.cancel();
    assert!(t.should_cancel());
    assert_eq!(t.state, TaskState::NotStarted);

    // The flag stays set through the whole life cycle.
    t.start_task(&mut m);
    assert!(t.should_cancel());
    t.begin(&mut m);
    assert!(t.should_cancel());
    t.deliver(&mut m, 1);
    assert!(t.should_cancel());
}

#[test]
fn cooperative_closure_observes_cancel_and_returns_early() {
    let mut m = ThreadManager::new();
    let mut t = Task::<u32>::new(&mut m);
    t.start_task(&mut m);
    t.begin(&mut m);

    // Another thread would set the flag; here it is set mid-execution.
    t.cancel();

    // A cooperative closure with a long overall timeout polls the cancel
    // predicate at every checkpoint and stops at the first one that reports
    // true, far before its timeout of many checkpoints.
    let timeout_checkpoints = 1_000_000;
    let mut checkpoints_used = 0;
    for _ in 0..timeout_checkpoints {
        checkpoints_used += 1;
        if t.should_cancel() {
            break;
        }
    }
    assert_eq!(checkpoints_used, 1);
    t.deliver(&mut m, 0);
}

#[test]
fn ensure_started_is_idempotent() {
    let mut m = ThreadManager::new();
    assert!(!m.started);
    assert_eq!(m.workers, 0);
    m.ensure_started();
    assert!(m.started);
    assert_eq!(m.workers, 1);
    m.ensure_started();
    m.ensure_started();
    assert!(m.started);
    assert_eq!(m.workers, 1);
}

#[test]
fn context_refcount_release_goes_through_the_queue() {
    let mut m = ThreadManager::new();
    m.ensure_started();
    let mut ctx = Context::new();
    assert_eq!(ctx.refs, 1);
    ctx.clone_ref();
    ctx.clone_ref();
    assert_eq!(ctx.refs, 3);

    assert_eq!(ctx.drop_ref(&mut m), None);
    assert_eq!(ctx.drop_ref(&mut m), None);
    assert_eq!(m.queue.len(), 0);

    // The last reference schedules the native release as a task.
    let released = ctx.drop_ref(&mut m);
    assert_eq!(released, Some(0));
    assert_eq!(m.queue, vec![0]);
}

#[test]
fn context_release_runs_after_earlier_task() {
    let mut m = ThreadManager::new();

    // Task A uses the context and is submitted first.
    let mut ctx = Context::new();
    let mut a = Task::<u32>::new(&mut m).with_context(&ctx);
    a.start_task(&mut m);
    let a_id = a.id.unwrap();

    // The last context reference is dropped while A is still queued.
    let release_id = ctx.drop_ref(&mut m).unwrap();
    assert!(a_id < release_id);

    // The worker drains in order: A completes before the release begins.
    a.begin_bound(&mut m, &mut ctx);
    a.deliver_bound(&mut m, &mut ctx, 5);
    assert_eq!(a.wait(), 5);

    let next = m.take_next();
    assert_eq!(next, Some(release_id));
    assert_eq!(m.done, vec![a_id]);
    m.finish_running(release_id);
    assert_eq!(m.done, vec![a_id, release_id]);
}

#[test]
fn callback_bridge_binds_for_exactly_the_execution_span() {
    let mut m = ThreadManager::new();
    let mut ctx = Context::new();
    let mut t = Task::<u32>::new(&mut m)
        .with_context(&ctx)
        .with_progress_handler(ProgressTracker::new());
    t.start_task(&mut m);
    let id = t.id.unwrap();

    assert_eq!(ctx.cancel_bound, None);
    assert_eq!(ctx.progress_bound, None);

    t.begin_bound(&mut m, &mut ctx);
    assert_eq!(ctx.cancel_bound, Some(id));
    assert_eq!(ctx.progress_bound, Some(id));

    t.deliver_bound(&mut m, &mut ctx, 9);
    assert_eq!(ctx.cancel_bound, None);
    assert_eq!(ctx.progress_bound, None);
    assert_eq!(t.wait(), 9);
}

#[test]
fn callback_bridge_without_progress_handler_binds_cancel_only() {
    let mut m = ThreadManager::new();
    let mut ctx = Context::new();
    let mut t = Task::<u32>::new(&mut m).with_context(&ctx);
    t.start_task(&mut m);
    let id = t.id.unwrap();

    t.begin_bound(&mut m, &mut ctx);
    assert_eq!(ctx.cancel_bound, Some(id));
    assert_eq!(ctx.progress_bound, None);
    t.deliver_bound(&mut m, &mut ctx, 1);
    assert_eq!(ctx.cancel_bound, None);
}

#[test]
fn callback_bridge_unbinds_even_when_the_closure_fails() {
    let mut m = ThreadManager::new();
    let mut ctx = Context::new();
    let mut t = Task::<u32>::new(&mut m).with_context(&ctx);
    t.start_task(&mut m);

    t.begin_bound(&mut m, &mut ctx);
    assert!(ctx.cancel_bound.is_some());
    t.abort_bound(&mut m, &mut ctx);
    assert_eq!(ctx.cancel_bound, None);
    assert_eq!(ctx.progress_bound, None);
    assert_eq!(t.try_wait(), Err(LostResult));
}

#[test]
fn progress_events_flow_through_a_running_task() {
    let mut m = ThreadManager::new();
    let mut t = Task::<u32>::new(&mut m).with_progress_handler(ProgressTracker::new());
    t.start_task(&mut m);
    t.begin(&mut m);

    let id = t.progress_start(100, "downloading image".to_string());
    assert_eq!(id, 0);
    assert!(t.progress_update(id, 25));
    assert!(t.progress_update(id, 80));
    assert!(t.progress_stop(id));
    // Once stopped, the id is retired for good.
    assert!(!t.progress_update(id, 90));
    assert!(!t.progress_stop(id));

    t.deliver(&mut m, 0);
    let tracker = t.progress.as_ref().unwrap();
    assert_eq!(tracker.slots.len(), 1);
    assert!(tracker.slots[0].is_none());
}

#[test]
fn progress_ids_are_unique_within_a_task() {
    let mut p = ProgressTracker::new();
    let a = p.start(10, "first".to_string());
    let b = p.start(20, "second".to_string());
    assert_ne!(a, b);
    assert!(p.stop(a));
    // A stopped id is never handed out again.
    let c = p.start(30, "third".to_string());
    assert_ne!(c, a);
    assert_ne!(c, b);
}

#[test]
fn progress_records_track_start_and_updates() {
    let mut p = ProgressTracker::new();
    let id = p.start(640, "copying".to_string());
    assert_eq!(p.active_count(), 1);
    let record = p.slots[id as usize].as_ref().unwrap();
    assert_eq!(record.message, "copying");
    assert_eq!(record.target, 640);
    assert_eq!(record.current, 0);

    assert!(p.update(id, 320));
    let record = p.slots[id as usize].as_ref().unwrap();
    assert_eq!(record.current, 320);
    assert_eq!(record.target, 640);

    // An id never started is rejected.
    assert!(!p.update(5, 1));
    assert!(!p.stop(5));
    assert!(p.stop(id));
    assert_eq!(p.active_count(), 0);
}
