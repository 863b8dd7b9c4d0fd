//! Per-task progress reporting.
//!
//! While a task's closure executes, the device library reports long-running
//! work through three callbacks: one announcing a new operation, one updating
//! it and one ending it. [`ProgressTracker`] is the registry behind those
//! callbacks: it maps the numeric id of each in-flight operation to its
//! [`ProgressRecord`]. The tracker itself assigns the ids; they are unique
//! for the tracker's whole lifetime and never reused, which is all the device
//! library asks of them.
//!
//! Progress amounts arrive from the device library as 32-bit quantities; the
//! runtime shell converts its native floating-point readings onto them and
//! back, the tracker only stores them.

use vstd::prelude::*;

verus! {

/// One in-flight operation: what it is, how much work it has, how far it is.
#[derive(Debug, Clone)]
pub struct ProgressRecord {
    /// The description announced when the operation started.
    pub message: String,
    /// The total amount of work announced when the operation started.
    pub target: u32,
    /// The amount of work done so far.
    pub current: u32,
}

/// Registry of in-flight progress operations for one task.
///
/// Slot `i` holds the record of the operation that `start` numbered `i`;
/// `stop` leaves an empty slot behind, so an id is never reused.
#[derive(Debug)]
pub struct ProgressTracker {
    /// One slot per id handed out so far; `None` once the operation stopped.
    pub slots: Vec<Option<ProgressRecord>>,
}

impl ProgressTracker {
    /// The id was handed out by an earlier `start`.
    pub open spec fn started(self, id: u32) -> bool {
        id < self.slots@.len()
    }

    /// The id was handed out and its operation has not stopped.
    pub open spec fn active(self, id: u32) -> bool {
        self.started(id) && self.slots@[id as int] is Some
    }

    /// The record of an active operation.
    pub open spec fn record_of(self, id: u32) -> ProgressRecord {
        self.slots@[id as int]->0
    }

    /// A tracker with no operation started yet.
    pub fn new() -> (r: ProgressTracker)
        ensures
            r.slots@.len() == 0,
            forall|id: u32| !r.started(id),
    {
        ProgressTracker { slots: Vec::new() }
    }

    /// A new operation begins: records it and hands out its id.
    ///
    /// The id is fresh: no earlier `start` on this tracker returned it, and
    /// no later one will return it again.
    pub fn start(&mut self, target: u32, message: String) -> (id: u32)
        requires
            old(self).slots@.len() < u32::MAX,
        ensures
            id == old(self).slots@.len(),
            !old(self).started(id),
            final(self).active(id),
            final(self).record_of(id) == (ProgressRecord { message, target, current: 0 }),
            final(self).slots@ == old(self).slots@.push(Some(
                ProgressRecord { message, target, current: 0 },
            )),
    {
        let id: u32 = self.slots.len() as u32;
        self.slots.push(Some(ProgressRecord { message, target, current: 0 }));
        id
    }

    /// The operation with this id advanced to `current`.
    ///
    /// Reports whether the id named an active operation; an id that was never
    /// started, or was already stopped, changes nothing.
    pub fn update(&mut self, id: u32, current: u32) -> (r: bool)
        ensures
            r == old(self).active(id),
            r ==> final(self).slots@ == old(self).slots@.update(
                id as int,
                Some(ProgressRecord { current, ..old(self).record_of(id) }),
            ),
            !r ==> final(self).slots@ == old(self).slots@,
            final(self).active(id) == old(self).active(id),
    {
        let idx = id as usize;
        if idx < self.slots.len() {
            let r: bool;
            match &mut self.slots[idx] {
                Some(record) => {
                    record.current = current;
                    r = true;
                },
                None => {
                    r = false;
                },
            }
            proof {
                if r {
                    assert(self.slots@ =~= old(self).slots@.update(
                        id as int,
                        Some(ProgressRecord { current, ..old(self).record_of(id) }),
                    ));
                } else {
                    assert(self.slots@ =~= old(self).slots@);
                }
            }
            r
        } else {
            false
        }
    }

    /// The operation with this id ended: its slot is emptied for good.
    ///
    /// Reports whether the id named an active operation. Afterwards the id is
    /// inactive, so no later `update` or `stop` with it changes anything.
    pub fn stop(&mut self, id: u32) -> (r: bool)
        ensures
            r == old(self).active(id),
            r ==> final(self).slots@ == old(self).slots@.update(id as int, None),
            !r ==> final(self).slots@ == old(self).slots@,
            !final(self).active(id),
            final(self).slots@.len() == old(self).slots@.len(),
    {
        let idx = id as usize;
        if idx < self.slots.len() {
            let active = self.slots[idx].is_some();
            if active {
                self.slots[idx] = None;
                true
            } else {
                proof {
                    assert(self.slots@ =~= old(self).slots@);
                }
                false
            }
        } else {
            false
        }
    }

    /// How many of the first `n` slots hold an in-flight operation.
    pub open spec fn active_in_prefix(self, n: int) -> nat
        decreases n,
    {
        if n <= 0 {
            0
        } else {
            self.active_in_prefix(n - 1) + (if self.slots@[n - 1] is Some {
                1nat
            } else {
                0nat
            })
        }
    }

    /// How many operations are in flight right now.
    pub fn active_count(&self) -> (n: usize)
        ensures
            n == self.active_in_prefix(self.slots@.len() as int),
    {
        let mut n: usize = 0;
        let mut i: usize = 0;
        while i < self.slots.len()
            invariant
                i <= self.slots@.len(),
                n == self.active_in_prefix(i as int),
                n <= i,
            decreases self.slots@.len() - i,
        {
            if self.slots[i].is_some() {
                n = n + 1;
            }
            i = i + 1;
        }
        n
    }
}

/// Progress events are well-bracketed: `update` and `stop` accept an id only
/// while it is active, that is handed out by an earlier `start` and not yet
/// retired by a `stop`. A start therefore precedes every update of its id,
/// the stop of an id follows its last update, and `stop` retires the id for
/// good, so nothing of another operation is ever booked onto it.
pub proof fn lemma_progress_well_bracketed(t: ProgressTracker, id: u32)
    ensures
        t.active(id) ==> t.started(id),
        !t.started(id) ==> !t.active(id),
{
}

} // verus!
