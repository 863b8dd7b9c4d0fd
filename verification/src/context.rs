//! The shared device context and its callback slot.
//!
//! A [`Context`] stands for one session with the device library. Several
//! owners — cameras, files, tasks — may share it, so it is reference
//! counted; the native session resource is released only when the count
//! reaches zero, and that release is itself submitted as a task on the work
//! queue so it can never overtake or interleave with earlier tasks that
//! still use the session (see [`lemma_release_after_earlier_tasks`]).
//!
//! The context also owns the device library's single pair of global callback
//! slots: one for progress reporting, one for cancellation polling. The
//! callback bridge binds them to at most one task at a time, for exactly the
//! span of that task's execution; the binding and unbinding operations below
//! enforce that discipline.

use vstd::prelude::*;

use crate::thread::{lemma_fifo_order, ThreadManager};

verus! {

/// One reference-counted session with the device library.
pub struct Context {
    /// How many owners currently share this session.
    pub refs: u64,
    /// The task whose progress handlers occupy the progress slot, if any.
    pub progress_bound: Option<u64>,
    /// The task whose cancel predicate occupies the cancel slot, if any.
    pub cancel_bound: Option<u64>,
}

impl Context {
    /// Both callback slots are free.
    pub open spec fn slot_free(self) -> bool {
        self.progress_bound is None && self.cancel_bound is None
    }

    /// The callback slots reflect at most this one task's handlers.
    pub open spec fn bound_to(self, id: u64) -> bool {
        self.cancel_bound == Some(id) && (self.progress_bound is Some
            ==> self.progress_bound == Some(id))
    }

    /// Create a new session; the creator holds the one reference, and the
    /// callback slots start out free.
    pub fn new() -> (r: Context)
        ensures
            r.refs == 1,
            r.slot_free(),
    {
        Context { refs: 1, progress_bound: None, cancel_bound: None }
    }

    /// Another owner takes a share of the session.
    pub fn clone_ref(&mut self)
        requires
            old(self).refs >= 1,
            old(self).refs < u64::MAX,
        ensures
            final(self).refs == old(self).refs + 1,
            final(self).progress_bound == old(self).progress_bound,
            final(self).cancel_bound == old(self).cancel_bound,
    {
        self.refs = self.refs + 1;
    }

    /// An owner gives up its share of the session.
    ///
    /// When the last share goes, the release of the native session resource
    /// is submitted as a task of its own and its id is returned; the worker
    /// will only reach it after every task submitted earlier has completed.
    /// The release is never performed inline.
    pub fn drop_ref(&mut self, manager: &mut ThreadManager) -> (released: Option<u64>)
        requires
            old(self).refs >= 1,
            old(manager).wf(),
            old(manager).next_id < u64::MAX,
        ensures
            final(self).refs == old(self).refs - 1,
            final(self).progress_bound == old(self).progress_bound,
            final(self).cancel_bound == old(self).cancel_bound,
            final(manager).wf(),
            old(self).refs > 1 ==> released is None && *final(manager) == *old(manager),
            old(self).refs == 1 ==> {
                &&& released == Some(old(manager).next_id)
                &&& final(manager).next_id == old(manager).next_id + 1
                &&& final(manager).queue@ == old(manager).queue@.push(old(manager).next_id)
                &&& final(manager).running == old(manager).running
                &&& final(manager).done == old(manager).done
                &&& final(manager).started
            },
    {
        self.refs = self.refs - 1;
        if self.refs == 0 {
            manager.ensure_started();
            let release_id = manager.spawn_task();
            Some(release_id)
        } else {
            None
        }
    }

    /// The callback bridge installs a task's handlers into the slots.
    ///
    /// Requires both slots free: no two tasks' callbacks are ever installed
    /// at once. The cancel predicate is always installed; the progress
    /// handlers only when the task brought one.
    pub fn bind_callbacks(&mut self, id: u64, with_progress: bool)
        requires
            old(self).slot_free(),
        ensures
            final(self).refs == old(self).refs,
            final(self).cancel_bound == Some(id),
            final(self).progress_bound == (if with_progress {
                Some(id)
            } else {
                Option::<u64>::None
            }),
            final(self).bound_to(id),
    {
        self.cancel_bound = Some(id);
        if with_progress {
            self.progress_bound = Some(id);
        }
    }

    /// The callback bridge clears both slots, leaving the context neutral.
    ///
    /// This runs after the task's closure returns, whatever the outcome, so
    /// no stale handler pointer ever outlives its task.
    pub fn unbind_callbacks(&mut self)
        ensures
            final(self).refs == old(self).refs,
            final(self).slot_free(),
    {
        self.progress_bound = None;
        self.cancel_bound = None;
    }
}

/// Context release ordering: the release task that the last `drop_ref`
/// submitted carries a larger id than any task submitted before it, so once
/// the release has begun executing, every earlier task — in particular every
/// task still bound to this context — has fully completed. The release can
/// never run before or concurrently with such a task.
pub proof fn lemma_release_after_earlier_tasks(
    m: ThreadManager,
    task_id: u64,
    release_id: u64,
)
    requires
        m.wf(),
        task_id < release_id,
        m.assigned(release_id),
        m.begun(release_id),
    ensures
        m.completed(task_id),
{
    lemma_fifo_order(m, task_id, release_id);
}

} // verus!
