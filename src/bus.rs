//! The bounded response queue between command handlers and the event loop.
//!
//! Handlers enqueue serialized responses; the event loop drains the whole
//! queue in one step and delivers it as one batch. An admission counter bounds
//! how many responses may be outstanding: past the bound, responses are shed
//! rather than producers stalled. The queue holds no lock itself; its owner
//! shares it behind one.

use vstd::prelude::*;

use crate::ipc::{blocking, is_blocking_command, Command};

verus! {

/// Bound on outstanding responses; past it new responses are dropped.
pub const MAX_PENDING_IPC: usize = 256;

/// Number of worker threads that run blocking commands.
pub const IPC_WORKER_POOL_SIZE: usize = 4;

/// The abstract state of a [`ResponseQueue`].
pub struct QueueView {
    /// Serialized responses waiting for delivery, oldest first.
    pub items: Seq<String>,
    /// The admission counter.
    pub pending: nat,
    /// The bound on the admission counter.
    pub capacity: nat,
}

/// Pending responses and the admission counter that bounds them.
pub struct ResponseQueue {
    items: Vec<String>,
    pending: usize,
    capacity: usize,
}

impl View for ResponseQueue {
    type V = QueueView;

    closed spec fn view(&self) -> QueueView {
        QueueView { items: self.items@, pending: self.pending as nat, capacity: self.capacity as nat }
    }
}

/// Where a parsed command runs.
#[derive(Debug, PartialEq, Eq, Structural)]
pub enum Route {
    /// Answer on the calling thread.
    Inline,
    /// Admitted; hand it to the worker pool.
    Worker,
    /// Shed: the admission counter is at its bound.
    Shed,
}

impl ResponseQueue {
    /// The admission counter is within its bound.
    pub open spec fn wf(&self) -> bool {
        self@.pending <= self@.capacity
    }

    /// An empty queue whose admission counter is bounded by `capacity`.
    pub fn new(capacity: usize) -> (r: Self)
        ensures
            r@.items == Seq::<String>::empty(),
            r@.pending == 0,
            r@.capacity == capacity,
            r.wf(),
    {
        ResponseQueue { items: Vec::new(), pending: 0, capacity }
    }

    /// The admission counter, which never exceeds the capacity.
    pub fn pending(&self) -> (r: usize)
        requires
            self.wf(),
        ensures
            r == self@.pending,
            r <= self@.capacity,
    {
        self.pending
    }

    /// The bound on the admission counter.
    pub fn capacity(&self) -> (r: usize)
        ensures
            r == self@.capacity,
    {
        self.capacity
    }

    /// Number of responses waiting for delivery.
    pub fn len(&self) -> (r: usize)
        ensures
            r == self@.items.len(),
    {
        self.items.len()
    }

    /// Whether no response waits for delivery.
    pub fn is_empty(&self) -> (r: bool)
        ensures
            r == (self@.items.len() == 0),
    {
        self.items.len() == 0
    }

    /// Takes one admission slot if the counter is below its bound.
    pub fn try_admit(&mut self) -> (r: bool)
        requires
            old(self).wf(),
        ensures
            r == (old(self)@.pending < old(self)@.capacity),
            final(self)@.pending == if r {
                old(self)@.pending + 1
            } else {
                old(self)@.pending
            },
            final(self).wf(),
            final(self)@.items == old(self)@.items,
            final(self)@.capacity == old(self)@.capacity,
    {
        if self.pending < self.capacity {
            self.pending = self.pending + 1;
            true
        } else {
            false
        }
    }

    /// Gives back a slot that was admitted but whose response will never be
    /// enqueued. The counter stays non-negative.
    pub fn release(&mut self)
        requires
            old(self).wf(),
        ensures
            final(self)@.pending == if old(self)@.pending > 0 {
                old(self)@.pending - 1
            } else {
                0
            },
            final(self).wf(),
            final(self)@.items == old(self)@.items,
            final(self)@.capacity == old(self)@.capacity,
    {
        if self.pending > 0 {
            self.pending = self.pending - 1;
        }
    }

    /// Appends a serialized response. Returns whether the queue was empty
    /// before, in which case the caller must wake the event loop; later
    /// enqueues before the next drain ride on that same wake.
    pub fn enqueue(&mut self, response: String) -> (wake: bool)
        requires
            old(self).wf(),
        ensures
            wake == (old(self)@.items.len() == 0),
            final(self)@.items == old(self)@.items.push(response),
            final(self)@.pending == old(self)@.pending,
            final(self).wf(),
            final(self)@.capacity == old(self)@.capacity,
    {
        let wake = self.items.len() == 0;
        self.items.push(response);
        wake
    }

    /// Takes every waiting response, oldest first, and leaves the queue
    /// empty. The admission counter drops by the number taken, but never
    /// below zero.
    pub fn drain_all(&mut self) -> (batch: Vec<String>)
        requires
            old(self).wf(),
        ensures
            batch@ == old(self)@.items,
            final(self)@.items == Seq::<String>::empty(),
            final(self)@.pending == if old(self)@.pending >= old(self)@.items.len() {
                old(self)@.pending - old(self)@.items.len()
            } else {
                0
            },
            final(self).wf(),
            final(self)@.capacity == old(self)@.capacity,
    {
        let mut batch: Vec<String> = Vec::new();
        std::mem::swap(&mut batch, &mut self.items);
        let n = batch.len();
        let to_sub = if n < self.pending {
            n
        } else {
            self.pending
        };
        self.pending = self.pending - to_sub;
        batch
    }

    /// Makes `n` admission attempts in a row, each as [`Self::try_admit`]
    /// does; returns how many were admitted.
    pub fn admit_many(&mut self, n: usize) -> (admitted: usize)
        requires
            old(self).wf(),
        ensures
            final(self).wf(),
            final(self)@.pending == after_admits(old(self)@.pending, old(self)@.capacity, n as nat),
            admitted == final(self)@.pending - old(self)@.pending,
            final(self)@.items == old(self)@.items,
            final(self)@.capacity == old(self)@.capacity,
    {
        let ghost start = self@.pending;
        let mut admitted: usize = 0;
        let mut i: usize = 0;
        while i < n
            invariant
                self.wf(),
                i <= n,
                start <= self@.pending,
                admitted == self@.pending - start,
                after_admits(start, self@.capacity, n as nat) == after_admits(
                    self@.pending,
                    self@.capacity,
                    (n - i) as nat,
                ),
                self@.items == old(self)@.items,
                self@.capacity == old(self)@.capacity,
                start == old(self)@.pending,
            decreases n - i,
        {
            if self.try_admit() {
                admitted = admitted + 1;
            }
            i = i + 1;
        }
        admitted
    }

    /// Enqueues `responses` in order, each as [`Self::enqueue`] does. Returns
    /// whether the event loop must be woken: the queue was empty and now is
    /// not.
    pub fn enqueue_all(&mut self, responses: &Vec<String>) -> (wake: bool)
        requires
            old(self).wf(),
        ensures
            final(self).wf(),
            final(self)@.items == after_enqueues(old(self)@.items, responses@),
            wake == (old(self)@.items.len() == 0 && responses@.len() > 0),
            final(self)@.pending == old(self)@.pending,
            final(self)@.capacity == old(self)@.capacity,
    {
        let n = responses.len();
        let mut wake = false;
        let mut i: usize = 0;
        assert(responses@.subrange(0, n as int) =~= responses@);
        while i < n
            invariant
                self.wf(),
                n == responses@.len(),
                i <= n,
                after_enqueues(old(self)@.items, responses@) == after_enqueues(
                    self@.items,
                    responses@.subrange(i as int, n as int),
                ),
                wake == (old(self)@.items.len() == 0 && i > 0),
                i > 0 ==> self@.items.len() > 0,
                i == 0 ==> self@.items == old(self)@.items,
                self@.pending == old(self)@.pending,
                self@.capacity == old(self)@.capacity,
            decreases n - i,
        {
            let ghost rest = responses@.subrange(i as int, n as int);
            assert(rest.drop_first() =~= responses@.subrange(i + 1, n as int));
            let first = self.enqueue(responses[i].clone());
            if i == 0 {
                wake = first;
            }
            i = i + 1;
        }
        assert(responses@.subrange(n as int, n as int).len() == 0);
        wake
    }

    /// Admits and enqueues a response produced on the calling thread.
    /// Returns `None` when it is shed, else whether the event loop must be
    /// woken.
    pub fn accept(&mut self, response: String) -> (r: Option<bool>)
        requires
            old(self).wf(),
        ensures
            old(self)@.pending < old(self)@.capacity ==> r == Some(old(self)@.items.len() == 0)
                && final(self)@.items == old(self)@.items.push(response) && final(self)@.pending
                == old(self)@.pending + 1,
            old(self)@.pending >= old(self)@.capacity ==> r is None && final(self)@.items == old(
                self,
            )@.items && final(self)@.pending == old(self)@.pending,
            final(self).wf(),
            final(self)@.capacity == old(self)@.capacity,
    {
        if self.try_admit() {
            Some(self.enqueue(response))
        } else {
            None
        }
    }

    /// Finishes a response whose slot was admitted before its handler ran.
    /// A response that could not be serialized (`None`) gives its slot back;
    /// otherwise it is enqueued. Returns whether the event loop must be woken.
    pub fn complete(&mut self, serialized: Option<String>) -> (wake: bool)
        requires
            old(self).wf(),
        ensures
            match serialized {
                Some(s) => wake == (old(self)@.items.len() == 0) && final(self)@.items == old(
                    self,
                )@.items.push(s) && final(self)@.pending == old(self)@.pending,
                None => !wake && final(self)@.items == old(self)@.items && final(self)@.pending == (
                if old(self)@.pending > 0 {
                    old(self)@.pending - 1
                } else {
                    0
                }),
            },
            final(self).wf(),
            final(self)@.capacity == old(self)@.capacity,
    {
        match serialized {
            Some(s) => self.enqueue(s),
            None => {
                self.release();
                false
            },
        }
    }
}

/// Decides where a parsed command runs. A blocking command takes an
/// admission slot before it reaches the pool, so that a full queue stops new
/// blocking work from forming; when none is free it is shed.
pub fn dispatch(queue: &mut ResponseQueue, command: &Command) -> (r: Route)
    requires
        old(queue).wf(),
    ensures
        final(queue).wf(),
        !blocking(*command) ==> r == Route::Inline && final(queue)@ == old(queue)@,
        blocking(*command) && old(queue)@.pending < old(queue)@.capacity ==> r
            == Route::Worker && final(queue)@.pending == old(queue)@.pending + 1
            && final(queue)@.items == old(queue)@.items,
        blocking(*command) && old(queue)@.pending >= old(queue)@.capacity ==> r
            == Route::Shed && final(queue)@ == old(queue)@,
        final(queue)@.capacity == old(queue)@.capacity,
{
    if !is_blocking_command(command) {
        Route::Inline
    } else if queue.try_admit() {
        Route::Worker
    } else {
        Route::Shed
    }
}

/// The admission counter after `n` admission attempts from `pending` against
/// bound `capacity`, each one as [`ResponseQueue::try_admit`] states it;
/// [`ResponseQueue::admit_many`] ends in this state.
pub open spec fn after_admits(pending: nat, capacity: nat, n: nat) -> nat
    decreases n,
{
    if n == 0 {
        pending
    } else {
        let next = if pending < capacity {
            pending + 1
        } else {
            pending
        };
        after_admits(next as nat, capacity, (n - 1) as nat)
    }
}

/// Repeated admission saturates at the bound: from `pending` within the
/// bound, `n` attempts admit exactly `min(n, capacity - pending)` and shed
/// the rest, so the counter never passes `capacity`.
pub proof fn lemma_admission_saturates(pending: nat, capacity: nat, n: nat)
    requires
        pending <= capacity,
    ensures
        after_admits(pending, capacity, n) == if pending + n <= capacity {
            pending + n
        } else {
            capacity
        },
    decreases n,
{
    if n > 0 {
        let next = if pending < capacity {
            pending + 1
        } else {
            pending
        };
        lemma_admission_saturates(next as nat, capacity, (n - 1) as nat);
    }
}

/// The waiting responses after enqueuing `responses` one by one, each as
/// [`ResponseQueue::enqueue`] states it; [`ResponseQueue::enqueue_all`] ends
/// in this state.
pub open spec fn after_enqueues(items: Seq<String>, responses: Seq<String>) -> Seq<String>
    decreases responses.len(),
{
    if responses.len() == 0 {
        items
    } else {
        after_enqueues(items.push(responses[0]), responses.drop_first())
    }
}

/// Sequential enqueues keep their order: the batch that a drain takes is the
/// waiting responses followed by the new ones, in the order enqueued.
pub proof fn lemma_batch_keeps_enqueue_order(items: Seq<String>, responses: Seq<String>)
    ensures
        after_enqueues(items, responses) == items + responses,
    decreases responses.len(),
{
    if responses.len() > 0 {
        lemma_batch_keeps_enqueue_order(items.push(responses[0]), responses.drop_first());
        assert(items.push(responses[0]) + responses.drop_first() =~= items + responses);
    }
}

} // verus!
