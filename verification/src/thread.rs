//! The work queue and its single worker.
//!
//! The device library is not safe to call concurrently or reentrantly, so the
//! whole process funnels every device-facing unit of work through exactly one
//! dedicated worker. [`ThreadManager`] is the verified heart of that design:
//! it decides which task runs next and records which tasks have begun and
//! finished, while the runtime shell around the library owns the actual
//! thread and its wake-up channel and consults these decisions.
//!
//! Tasks are identified by the order in which they were submitted: the
//! manager hands out consecutive ids and its well-formedness invariant pins
//! the completed tasks, the running task and the waiting queue to exactly
//! that submission order. First-in first-out execution and mutual exclusion
//! of closures are therefore properties of every reachable manager state, and
//! are stated below as [`lemma_fifo_order`] and [`lemma_mutual_exclusion`].

use vstd::prelude::*;

verus! {

/// Owns the process-wide worker and the queue of submitted task ids.
pub struct ThreadManager {
    /// Whether the worker has been created.
    pub started: bool,
    /// How many workers exist; the invariant keeps this at one once started.
    pub workers: u64,
    /// The id the next submitted task will receive.
    pub next_id: u64,
    /// Ids of submitted tasks that have not yet begun, oldest first.
    pub queue: Vec<u64>,
    /// The id of the task whose closure is executing now, if any.
    pub running: Option<u64>,
    /// Ids of tasks whose closures have finished, in completion order.
    pub done: Vec<u64>,
}

impl ThreadManager {
    /// The running task as a sequence of zero or one ids.
    pub open spec fn running_seq(self) -> Seq<u64> {
        match self.running {
            Some(id) => seq![id],
            None => Seq::empty(),
        }
    }

    /// Every assigned id in execution order: finished, then running, then waiting.
    pub open spec fn history(self) -> Seq<u64> {
        self.done@ + self.running_seq() + self.queue@
    }

    /// Well-formed: execution order is exactly submission order (the ids in
    /// ascending order), and exactly one worker exists once started.
    pub open spec fn wf(self) -> bool {
        &&& self.history() == Seq::new(self.next_id as nat, |i: int| i as u64)
        &&& self.workers == if self.started { 1u64 } else { 0u64 }
    }

    /// The task with this id was submitted.
    pub open spec fn assigned(self, id: u64) -> bool {
        id < self.next_id
    }

    /// The task with this id has begun executing (and may have finished).
    pub open spec fn begun(self, id: u64) -> bool {
        self.done@.contains(id) || self.running == Some(id)
    }

    /// The task with this id is executing at this instant.
    pub open spec fn executing(self, id: u64) -> bool {
        self.running == Some(id)
    }

    /// The task with this id has finished executing.
    pub open spec fn completed(self, id: u64) -> bool {
        self.done@.contains(id)
    }

    /// The manager state after `ensure_started`.
    pub open spec fn ensure_started_spec(self) -> ThreadManager {
        if self.started {
            self
        } else {
            ThreadManager { started: true, workers: (self.workers + 1) as u64, ..self }
        }
    }

    /// A fresh manager: no worker yet, nothing submitted.
    pub fn new() -> (r: ThreadManager)
        ensures
            r.wf(),
            !r.started,
            r.next_id == 0,
            r.queue@ =~= Seq::<u64>::empty(),
            r.running is None,
            r.done@ =~= Seq::<u64>::empty(),
    {
        let r = ThreadManager {
            started: false,
            workers: 0,
            next_id: 0,
            queue: Vec::new(),
            running: None,
            done: Vec::new(),
        };
        proof {
            assert(r.history() =~= Seq::new(0, |i: int| i as u64));
        }
        r
    }

    /// Makes sure the worker exists, creating it exactly once.
    ///
    /// Safe to call any number of times: the first call creates the worker,
    /// every later call leaves the manager untouched.
    pub fn ensure_started(&mut self)
        requires
            old(self).wf(),
        ensures
            *final(self) == old(self).ensure_started_spec(),
            final(self).wf(),
            final(self).started,
            final(self).workers == 1,
            old(self).started ==> *final(self) == *old(self),
    {
        if !self.started {
            self.started = true;
            self.workers = self.workers + 1;
        }
    }

    /// Appends a new task to the queue and hands out its id.
    ///
    /// Ids are consecutive, so a task submitted earlier always carries a
    /// smaller id than one submitted later.
    pub fn spawn_task(&mut self) -> (id: u64)
        requires
            old(self).wf(),
            old(self).started,
            old(self).next_id < u64::MAX,
        ensures
            final(self).wf(),
            id == old(self).next_id,
            final(self).next_id == old(self).next_id + 1,
            final(self).queue@ == old(self).queue@.push(id),
            final(self).running == old(self).running,
            final(self).done == old(self).done,
            final(self).started == old(self).started,
            final(self).workers == old(self).workers,
    {
        let id = self.next_id;
        self.next_id = self.next_id + 1;
        self.queue.push(id);
        proof {
            assert(self.history() =~= old(self).history().push(id));
            assert(self.history() =~= Seq::new(self.next_id as nat, |i: int| i as u64));
        }
        id
    }

    /// The worker takes the oldest waiting task, if any, and begins it.
    ///
    /// Only callable while no task is executing, so at most one closure runs
    /// at any instant.
    pub fn take_next(&mut self) -> (r: Option<u64>)
        requires
            old(self).wf(),
            old(self).running is None,
        ensures
            final(self).wf(),
            old(self).queue@.len() == 0 ==> r is None && *final(self) == *old(self),
            old(self).queue@.len() > 0 ==> {
                &&& r == Some(old(self).queue@[0])
                &&& final(self).running == Some(old(self).queue@[0])
                &&& final(self).queue@ == old(self).queue@.remove(0)
                &&& final(self).done == old(self).done
                &&& final(self).next_id == old(self).next_id
                &&& final(self).started == old(self).started
                &&& final(self).workers == old(self).workers
            },
    {
        if self.queue.len() == 0 {
            None
        } else {
            let id = self.queue.remove(0);
            self.running = Some(id);
            proof {
                assert(self.history() =~= old(self).history());
            }
            Some(id)
        }
    }

    /// The worker reports that the running task's closure has returned.
    pub fn finish_running(&mut self, id: u64)
        requires
            old(self).wf(),
            old(self).running == Some(id),
        ensures
            final(self).wf(),
            final(self).done@ == old(self).done@.push(id),
            final(self).running is None,
            final(self).queue == old(self).queue,
            final(self).next_id == old(self).next_id,
            final(self).started == old(self).started,
            final(self).workers == old(self).workers,
            final(self).completed(id),
    {
        self.done.push(id);
        self.running = None;
        proof {
            assert(self.history() =~= old(self).history());
            assert(self.done@[self.done@.len() - 1] == id);
        }
    }
}

/// In a well-formed manager the id at each position of the execution order
/// is that position itself: task k is the (k+1)-th to execute.
pub proof fn lemma_history_index(m: ThreadManager, k: int)
    requires
        m.wf(),
        0 <= k < m.next_id,
    ensures
        m.history().len() == m.next_id,
        m.history()[k] == k as u64,
{
    assert(m.history()[k] == Seq::new(m.next_id as nat, |i: int| i as u64)[k]);
}

/// First-in first-out: of two submitted tasks, if the later one has begun
/// executing, the earlier one has fully completed. In particular the earlier
/// closure never runs after, or interleaved with, the later one.
pub proof fn lemma_fifo_order(m: ThreadManager, earlier: u64, later: u64)
    requires
        m.wf(),
        earlier < later,
        m.assigned(later),
        m.begun(later),
    ensures
        m.completed(earlier),
{
    let h = m.history();
    let dlen = m.done@.len() as int;
    assert(h.len() == m.next_id) by {
        lemma_history_index(m, later as int);
    }
    // Find the position of the later task in the execution order; it lies at
    // or before the running slot, so the whole prefix of earlier ids is done.
    if m.done@.contains(later) {
        let j = choose|j: int| 0 <= j < m.done@.len() && m.done@[j] == later;
        assert(h[j] == later);
        lemma_history_index(m, j);
        assert(j == later as int);
    } else {
        assert(m.running == Some(later));
        assert(h[dlen] == m.running_seq()[0]);
        lemma_history_index(m, dlen);
        assert(dlen == later as int);
    }
    assert(earlier < dlen);
    lemma_history_index(m, earlier as int);
    assert(h[earlier as int] == earlier);
    assert(m.done@[earlier as int] == earlier);
}

/// Mutual exclusion: at any instant at most one task is executing.
pub proof fn lemma_mutual_exclusion(m: ThreadManager, a: u64, b: u64)
    requires
        m.executing(a),
        m.executing(b),
    ensures
        a == b,
{
}

/// Idempotent startup: however many times `ensure_started` runs, the result
/// is the same as running it once, and exactly one worker exists afterwards.
/// Concurrent callers are serialized on the manager, so the first caller
/// creates the worker and every other call is a no-op.
pub proof fn lemma_ensure_started_idempotent(m: ThreadManager)
    requires
        m.wf(),
    ensures
        m.ensure_started_spec().ensure_started_spec() == m.ensure_started_spec(),
        m.ensure_started_spec().workers == 1,
        m.ensure_started_spec().wf(),
{
}

} // verus!
