//! Task handles: one submitted unit of work and its eventual result.
//!
//! A [`Task`] is created around a deferred unit of work but does not submit
//! it; execution is triggered lazily by the first observation (`wait` or
//! `poll`), or eagerly through [`Task::background`]. The worker takes tasks
//! in submission order, runs each closure to completion, and delivers the
//! one result into the task, where exactly one of blocking wait or polling
//! consumes it.
//!
//! The life cycle is a one-way street: not started, queued, running,
//! completed. The cancel flag can be set from anywhere at any time; it never
//! rewinds the state machine, it is only read by the cancel predicate that
//! the device library polls during the closure's execution, and it stays set
//! once requested. A closure that ends without delivering a value is a
//! should-never-happen failure of the delivery mechanism itself; it is made
//! explicit here as [`LostResult`] rather than hanging the waiter.
//!
//! The functions that the worker drives (`begin*`, `deliver*`, `abort*`)
//! also operate the callback bridge: a task bound to a [`Context`] has its
//! cancel predicate, and its progress handler if it brought one, installed
//! in the context's slots just before its closure runs and cleared right
//! after it returns, whatever the outcome.

use vstd::prelude::*;

use crate::context::Context;
use crate::progress::{ProgressRecord, ProgressTracker};
use crate::thread::ThreadManager;

verus! {

/// Where a task stands in its one-way life cycle.
#[derive(Clone, Copy, Debug, PartialEq, Eq, Structural)]
pub enum TaskState {
    /// Created, not yet submitted to the work queue.
    NotStarted,
    /// Submitted, waiting its turn in the queue.
    Queued,
    /// Its closure is executing on the worker right now.
    Running,
    /// Its closure has returned and the worker has moved on.
    Completed,
}

/// The closure ended without delivering a result.
///
/// This is the explicit form of a delivery-mechanism failure that the
/// waiting side would otherwise never learn about.
#[derive(Clone, Copy, Debug, PartialEq, Eq, Structural)]
pub struct LostResult;

/// Handle for one submitted unit of work producing a value of type `T`.
pub struct Task<T> {
    /// Where the task stands in its life cycle.
    pub state: TaskState,
    /// The queue id assigned on submission; `None` exactly while not started.
    pub id: Option<u64>,
    /// Whether cancellation has been requested; never cleared.
    pub cancel_requested: bool,
    /// Whether a continuation has been registered by polling.
    pub waker_set: bool,
    /// Whether the task is bound to a device context.
    pub context_bound: bool,
    /// The progress registry events are forwarded to, if one was bound.
    pub progress: Option<ProgressTracker>,
    /// The delivered, not yet consumed result.
    pub outcome: Option<T>,
    /// Whether the result has been consumed by polling.
    pub consumed: bool,
}

impl<T> Task<T> {
    /// Well-formed: a result only exists once completed, consumption only
    /// happens once, and an id exists exactly from submission on.
    pub open spec fn wf(self) -> bool {
        &&& (self.id is None <==> self.state is NotStarted)
        &&& (self.outcome is Some ==> self.state is Completed && !self.consumed)
        &&& (self.consumed ==> self.state is Completed && self.outcome is None)
        &&& (self.state is Completed ==> !(self.state is NotStarted))
    }

    /// The task as `cancel` leaves it: the flag set, all else untouched.
    pub open spec fn cancelled_spec(self) -> Task<T> {
        Task { cancel_requested: true, ..self }
    }

    /// The task as submission leaves it, queued under `id`.
    pub open spec fn queued_spec(self, id: u64) -> Task<T> {
        Task { state: TaskState::Queued, id: Some(id), ..self }
    }

    /// The task as the worker leaves it when its closure starts running.
    pub open spec fn running_spec(self) -> Task<T> {
        Task { state: TaskState::Running, ..self }
    }

    /// The task as the worker leaves it after delivering `value`.
    pub open spec fn delivered_spec(self, value: T) -> Task<T> {
        Task { state: TaskState::Completed, outcome: Some(value), ..self }
    }

    /// The task as the worker leaves it when its closure delivered nothing.
    pub open spec fn aborted_spec(self) -> Task<T> {
        Task { state: TaskState::Completed, ..self }
    }

    /// The value that consuming the task returns.
    pub open spec fn wait_spec(self) -> T {
        self.outcome->0
    }

    /// Wraps a unit of work into a not-yet-started task.
    ///
    /// Creating a task makes sure the worker exists, but does not submit
    /// anything: execution is deferred until the first observation, so a
    /// task never observed never burdens the queue.
    pub fn new(manager: &mut ThreadManager) -> (t: Task<T>)
        requires
            old(manager).wf(),
        ensures
            *final(manager) == old(manager).ensure_started_spec(),
            final(manager).wf(),
            final(manager).started,
            t.wf(),
            t.state is NotStarted,
            t.id is None,
            !t.cancel_requested,
            !t.waker_set,
            !t.context_bound,
            t.progress is None,
            t.outcome is None,
            !t.consumed,
    {
        manager.ensure_started();
        Task {
            state: TaskState::NotStarted,
            id: None,
            cancel_requested: false,
            waker_set: false,
            context_bound: false,
            progress: None,
            outcome: None,
            consumed: false,
        }
    }

    /// Binds a device context, so the callback bridge activates it for the
    /// span of the bound work's execution.
    pub fn with_context(self, context: &Context) -> (t: Task<T>)
        requires
            self.state is NotStarted,
            context.refs >= 1,
        ensures
            t == (Task { context_bound: true, ..self }),
    {
        Task { context_bound: true, ..self }
    }

    /// Sets the progress registry that start, update and stop events are
    /// forwarded to. Must happen before the task starts running.
    pub fn set_progress_handler(&mut self, handler: ProgressTracker)
        requires
            old(self).state is NotStarted,
        ensures
            *final(self) == (Task { progress: Some(handler), ..*old(self) }),
    {
        self.progress = Some(handler);
    }

    /// Like [`Task::set_progress_handler`], in builder form.
    pub fn with_progress_handler(self, handler: ProgressTracker) -> (t: Task<T>)
        requires
            self.state is NotStarted,
        ensures
            t == (Task { progress: Some(handler), ..self }),
    {
        Task { progress: Some(handler), ..self }
    }

    /// Submits the task to the work queue if it has not been submitted yet.
    ///
    /// Idempotent: on a task already under way nothing changes. The id the
    /// task receives is larger than that of every task submitted before it.
    pub fn start_task(&mut self, manager: &mut ThreadManager)
        requires
            old(self).wf(),
            old(manager).wf(),
            old(manager).started,
            old(manager).next_id < u64::MAX,
        ensures
            final(self).wf(),
            final(manager).wf(),
            old(self).state is NotStarted ==> {
                &&& *final(self) == old(self).queued_spec(old(manager).next_id)
                &&& final(manager).queue@ == old(manager).queue@.push(old(manager).next_id)
                &&& final(manager).next_id == old(manager).next_id + 1
                &&& final(manager).running == old(manager).running
                &&& final(manager).done == old(manager).done
                &&& final(manager).started == old(manager).started
                &&& final(manager).workers == old(manager).workers
            },
            !(old(self).state is NotStarted) ==> *final(self) == *old(self)
                && *final(manager) == *old(manager),
    {
        match self.state {
            TaskState::NotStarted => {
                let id = manager.spawn_task();
                self.id = Some(id);
                self.state = TaskState::Queued;
            },
            _ => {},
        }
    }

    /// Starts the task in the background: fire and forget.
    ///
    /// Forces the submission that is otherwise deferred to the first
    /// observation; on a task already under way nothing changes.
    pub fn background(&mut self, manager: &mut ThreadManager)
        requires
            old(self).wf(),
            old(manager).wf(),
            old(manager).started,
            old(manager).next_id < u64::MAX,
        ensures
            final(self).wf(),
            final(manager).wf(),
            old(self).state is NotStarted ==> {
                &&& *final(self) == old(self).queued_spec(old(manager).next_id)
                &&& final(manager).queue@ == old(manager).queue@.push(old(manager).next_id)
                &&& final(manager).next_id == old(manager).next_id + 1
                &&& final(manager).running == old(manager).running
                &&& final(manager).done == old(manager).done
                &&& final(manager).started == old(manager).started
                &&& final(manager).workers == old(manager).workers
            },
            !(old(self).state is NotStarted) ==> *final(self) == *old(self)
                && *final(manager) == *old(manager),
    {
        self.start_task(manager);
    }

    /// The worker begins the first queued unit of work, which is bound to
    /// no context.
    pub fn begin(&mut self, manager: &mut ThreadManager)
        requires
            old(self).wf(),
            old(self).state is Queued,
            !old(self).context_bound,
            old(manager).wf(),
            old(manager).running is None,
            old(manager).queue@.len() > 0,
            old(self).id == Some(old(manager).queue@[0]),
        ensures
            *final(self) == old(self).running_spec(),
            final(self).wf(),
            final(manager).wf(),
            final(manager).running == old(self).id,
            final(manager).queue@ == old(manager).queue@.remove(0),
            final(manager).done == old(manager).done,
            final(manager).next_id == old(manager).next_id,
            final(manager).started == old(manager).started,
            final(manager).workers == old(manager).workers,
    {
        let _ = manager.take_next();
        self.state = TaskState::Running;
    }

    /// The worker begins this context-bound task: before the closure runs,
    /// the bridge installs the task's cancel predicate, and its progress
    /// handler if it brought one, into the context's free callback slots.
    pub fn begin_bound(&mut self, manager: &mut ThreadManager, context: &mut Context)
        requires
            old(self).wf(),
            old(self).state is Queued,
            old(self).context_bound,
            old(context).slot_free(),
            old(manager).wf(),
            old(manager).running is None,
            old(manager).queue@.len() > 0,
            old(self).id == Some(old(manager).queue@[0]),
        ensures
            *final(self) == old(self).running_spec(),
            final(self).wf(),
            final(manager).wf(),
            final(manager).running == old(self).id,
            final(manager).queue@ == old(manager).queue@.remove(0),
            final(manager).done == old(manager).done,
            final(manager).next_id == old(manager).next_id,
            final(manager).started == old(manager).started,
            final(manager).workers == old(manager).workers,
            final(context).refs == old(context).refs,
            final(context).bound_to(old(self).id->0),
            final(context).cancel_bound == old(self).id,
            final(context).progress_bound == (if old(self).progress is Some {
                old(self).id
            } else {
                Option::<u64>::None
            }),
    {
        let _ = manager.take_next();
        self.state = TaskState::Running;
        let id = self.id.unwrap();
        context.bind_callbacks(id, self.progress.is_some());
    }

    /// The cancel predicate that the device library polls while the closure
    /// runs: true exactly once cancellation has been requested.
    pub fn should_cancel(&self) -> (r: bool)
        ensures
            r == self.cancel_requested,
    {
        self.cancel_requested
    }

    /// Requests cancellation: sets the flag and nothing else.
    ///
    /// Safe to call in any state, any number of times. Cancellation is
    /// cooperative: the running closure observes the flag through the cancel
    /// predicate at its own checkpoints, and the flag stays set from here on,
    /// so the next poll of the predicate reports true. A closure without
    /// checkpoints runs to completion regardless; once the task is
    /// completed the flag is never read again, so the call is a no-op then.
    pub fn cancel(&mut self)
        ensures
            *final(self) == old(self).cancelled_spec(),
    {
        self.cancel_requested = true;
    }

    /// A progress operation starts while the closure runs; hands out its id.
    pub fn progress_start(&mut self, target: u32, message: String) -> (id: u32)
        requires
            old(self).state is Running,
            old(self).progress is Some,
            old(self).progress->0.slots@.len() < u32::MAX,
        ensures
            *final(self) == (Task {
                progress: final(self).progress,
                ..*old(self)
            }),
            final(self).progress is Some,
            id == old(self).progress->0.slots@.len(),
            !old(self).progress->0.started(id),
            final(self).progress->0.active(id),
            final(self).progress->0.slots@ == old(self).progress->0.slots@.push(Some(
                ProgressRecord { message, target, current: 0 },
            )),
    {
        match &mut self.progress {
            Some(tracker) => tracker.start(target, message),
            None => vstd::pervasive::unreached(),
        }
    }

    /// A progress operation advances while the closure runs.
    pub fn progress_update(&mut self, id: u32, current: u32) -> (r: bool)
        requires
            old(self).state is Running,
            old(self).progress is Some,
        ensures
            *final(self) == (Task {
                progress: final(self).progress,
                ..*old(self)
            }),
            final(self).progress is Some,
            r == old(self).progress->0.active(id),
            r ==> final(self).progress->0.slots@ == old(self).progress->0.slots@.update(
                id as int,
                Some(ProgressRecord { current, ..old(self).progress->0.record_of(id) }),
            ),
            !r ==> final(self).progress->0.slots@ == old(self).progress->0.slots@,
    {
        match &mut self.progress {
            Some(tracker) => tracker.update(id, current),
            None => vstd::pervasive::unreached(),
        }
    }

    /// A progress operation ends while the closure runs; its id is retired.
    pub fn progress_stop(&mut self, id: u32) -> (r: bool)
        requires
            old(self).state is Running,
            old(self).progress is Some,
        ensures
            *final(self) == (Task {
                progress: final(self).progress,
                ..*old(self)
            }),
            final(self).progress is Some,
            r == old(self).progress->0.active(id),
            r ==> final(self).progress->0.slots@ == old(self).progress->0.slots@.update(
                id as int,
                None,
            ),
            !r ==> final(self).progress->0.slots@ == old(self).progress->0.slots@,
            !final(self).progress->0.active(id),
    {
        match &mut self.progress {
            Some(tracker) => tracker.stop(id),
            None => vstd::pervasive::unreached(),
        }
    }

    /// The worker delivers the value the closure computed. Result fidelity:
    /// exactly this value, errors included, is what consumption returns.
    pub fn deliver(&mut self, manager: &mut ThreadManager, value: T)
        requires
            old(self).wf(),
            old(self).state is Running,
            !old(self).context_bound,
            old(manager).wf(),
            old(manager).running == old(self).id,
        ensures
            *final(self) == old(self).delivered_spec(value),
            final(self).wf(),
            final(manager).wf(),
            final(manager).running is None,
            final(manager).done@ == old(manager).done@.push(old(self).id->0),
            final(manager).completed(old(self).id->0),
            final(manager).queue == old(manager).queue,
            final(manager).next_id == old(manager).next_id,
            final(manager).started == old(manager).started,
            final(manager).workers == old(manager).workers,
    {
        let id = self.id.unwrap();
        manager.finish_running(id);
        self.state = TaskState::Completed;
        self.outcome = Some(value);
    }

    /// The worker delivers a context-bound task's value: the bridge clears
    /// both callback slots first, restoring the context to neutral, then the
    /// result is delivered exactly as for an unbound task.
    pub fn deliver_bound(
        &mut self,
        manager: &mut ThreadManager,
        context: &mut Context,
        value: T,
    )
        requires
            old(self).wf(),
            old(self).state is Running,
            old(self).context_bound,
            old(context).bound_to(old(self).id->0),
            old(manager).wf(),
            old(manager).running == old(self).id,
        ensures
            *final(self) == old(self).delivered_spec(value),
            final(self).wf(),
            final(manager).wf(),
            final(manager).running is None,
            final(manager).done@ == old(manager).done@.push(old(self).id->0),
            final(manager).completed(old(self).id->0),
            final(manager).queue == old(manager).queue,
            final(manager).next_id == old(manager).next_id,
            final(manager).started == old(manager).started,
            final(manager).workers == old(manager).workers,
            final(context).slot_free(),
            final(context).refs == old(context).refs,
    {
        context.unbind_callbacks();
        let id = self.id.unwrap();
        manager.finish_running(id);
        self.state = TaskState::Completed;
        self.outcome = Some(value);
    }

    /// The worker reports that the closure ended without delivering a value.
    /// The task completes empty, and consumption surfaces [`LostResult`].
    pub fn abort(&mut self, manager: &mut ThreadManager)
        requires
            old(self).wf(),
            old(self).state is Running,
            !old(self).context_bound,
            old(manager).wf(),
            old(manager).running == old(self).id,
        ensures
            *final(self) == old(self).aborted_spec(),
            final(self).wf(),
            final(self).outcome is None,
            final(manager).wf(),
            final(manager).running is None,
            final(manager).done@ == old(manager).done@.push(old(self).id->0),
            final(manager).completed(old(self).id->0),
            final(manager).queue == old(manager).queue,
            final(manager).next_id == old(manager).next_id,
            final(manager).started == old(manager).started,
            final(manager).workers == old(manager).workers,
    {
        let id = self.id.unwrap();
        manager.finish_running(id);
        self.state = TaskState::Completed;
    }

    /// Like [`Task::abort`] for a context-bound task: even on this failure
    /// path the bridge clears the callback slots, so no stale handler
    /// outlives the task.
    pub fn abort_bound(&mut self, manager: &mut ThreadManager, context: &mut Context)
        requires
            old(self).wf(),
            old(self).state is Running,
            old(self).context_bound,
            old(context).bound_to(old(self).id->0),
            old(manager).wf(),
            old(manager).running == old(self).id,
        ensures
            *final(self) == old(self).aborted_spec(),
            final(self).wf(),
            final(self).outcome is None,
            final(manager).wf(),
            final(manager).running is None,
            final(manager).done@ == old(manager).done@.push(old(self).id->0),
            final(manager).completed(old(self).id->0),
            final(manager).queue == old(manager).queue,
            final(manager).next_id == old(manager).next_id,
            final(manager).started == old(manager).started,
            final(manager).workers == old(manager).workers,
            final(context).slot_free(),
            final(context).refs == old(context).refs,
    {
        context.unbind_callbacks();
        let id = self.id.unwrap();
        manager.finish_running(id);
        self.state = TaskState::Completed;
    }

    /// Consumes the task and returns the delivered value: precisely the
    /// value the closure computed, never stale and never partial.
    ///
    /// The runtime blocks until delivery before consuming here; a task whose
    /// result was lost is consumed through [`Task::try_wait`] instead.
    pub fn wait(self) -> (r: T)
        requires
            self.wf(),
            self.state is Completed,
            self.outcome is Some,
        ensures
            r == self.wait_spec(),
    {
        match self.outcome {
            Some(value) => value,
            None => vstd::pervasive::unreached(),
        }
    }

    /// Consumes the result in place: the delivered value, or [`LostResult`]
    /// if the closure ended without delivering one. This is the one spot
    /// where a result leaves a completed task, so the runtime consumes
    /// through here and the at-most-once discipline is the proven one.
    pub fn take_result(&mut self) -> (r: Result<T, LostResult>)
        requires
            old(self).wf(),
            old(self).state is Completed,
            !old(self).consumed,
        ensures
            final(self).wf(),
            *final(self) == (Task { outcome: None, consumed: true, ..*old(self) }),
            old(self).outcome is Some ==> r == Result::<T, LostResult>::Ok(
                old(self).outcome->0,
            ),
            old(self).outcome is None ==> r == Result::<T, LostResult>::Err(LostResult),
    {
        let mut taken: Option<T> = None;
        core::mem::swap(&mut self.outcome, &mut taken);
        self.consumed = true;
        match taken {
            Some(value) => Ok(value),
            None => Err(LostResult),
        }
    }

    /// Consumes the task: the delivered value, or [`LostResult`] if the
    /// closure ended without delivering one.
    pub fn try_wait(self) -> (r: Result<T, LostResult>)
        requires
            self.wf(),
            self.state is Completed,
            !self.consumed,
        ensures
            self.outcome is Some ==> r == Result::<T, LostResult>::Ok(self.outcome->0),
            self.outcome is None ==> r == Result::<T, LostResult>::Err(LostResult),
    {
        let mut this = self;
        this.take_result()
    }

    /// Non-blocking observation: registers the continuation, submits the
    /// task if it was not under way, and reports the result if it has
    /// arrived. Consumes the result at most once; blocking wait and polling
    /// are mutually exclusive consumption modes for one task.
    pub fn poll(&mut self, manager: &mut ThreadManager) -> (r: Option<T>)
        requires
            old(self).wf(),
            !old(self).consumed,
            old(manager).wf(),
            old(manager).started,
            old(manager).next_id < u64::MAX,
        ensures
            final(self).wf(),
            final(manager).wf(),
            final(self).waker_set,
            final(self).cancel_requested == old(self).cancel_requested,
            final(self).progress == old(self).progress,
            final(self).context_bound == old(self).context_bound,
            old(self).state is NotStarted ==> {
                &&& final(self).state is Queued
                &&& final(self).id == Some(old(manager).next_id)
                &&& final(manager).queue@ == old(manager).queue@.push(old(manager).next_id)
                &&& final(manager).next_id == old(manager).next_id + 1
                &&& final(manager).running == old(manager).running
                &&& final(manager).done == old(manager).done
                &&& final(manager).started == old(manager).started
                &&& final(manager).workers == old(manager).workers
            },
            !(old(self).state is NotStarted) ==> final(self).state == old(self).state
                && final(self).id == old(self).id && *final(manager) == *old(manager),
            old(self).outcome is Some ==> r == old(self).outcome
                && final(self).outcome is None && final(self).consumed,
            old(self).outcome is None ==> r is None && final(self).outcome is None
                && !final(self).consumed,
    {
        self.waker_set = true;
        self.start_task(manager);
        let mut taken: Option<T> = None;
        core::mem::swap(&mut self.outcome, &mut taken);
        match taken {
            Some(value) => {
                self.consumed = true;
                Some(value)
            },
            None => None,
        }
    }
}

/// Result fidelity: a running task to which the worker delivers `value`
/// holds exactly `value` afterwards, and consuming it returns exactly
/// `value` — error values included, never a stale or partial one.
pub proof fn lemma_result_fidelity<T>(t: Task<T>, value: T)
    requires
        t.wf(),
        t.state is Running,
    ensures
        t.delivered_spec(value).outcome == Some(value),
        t.delivered_spec(value).wait_spec() == value,
{
}

/// Cooperative cancellation: once requested, the flag reads true at every
/// later point of the life cycle — submission, execution, delivery and
/// abort all preserve it — so the cancel predicate reports the request at
/// the closure's next checkpoint and the closure can return early. Whether
/// and when a closure checks is its own affair; a closure without
/// checkpoints runs to completion.
pub proof fn lemma_cancel_is_stable<T>(t: Task<T>, id: u64, value: T)
    ensures
        t.cancelled_spec().cancel_requested,
        t.cancelled_spec().queued_spec(id).cancel_requested,
        t.cancelled_spec().queued_spec(id).running_spec().cancel_requested,
        t.cancelled_spec().queued_spec(id).running_spec().delivered_spec(
            value,
        ).cancel_requested,
        t.cancelled_spec().queued_spec(id).running_spec().aborted_spec().cancel_requested,
{
}

} // verus!
