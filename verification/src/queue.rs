//! The bounded invocation queue between the transport thread and the
//! dispatcher's worker thread.
//!
//! The transport client delivers messages synchronously and must never be
//! blocked, so enqueueing is strictly non-blocking: when the queue is full
//! or the worker is gone, the invocation is handed back to be dropped and
//! logged.  The worker consumes invocations one at a time in FIFO order.
//! Threads serialize their access to the queue outside the library; the
//! queue itself captures the capacity bound and the exact outcome of every
//! enqueue and dequeue.

use vstd::prelude::*;

verus! {

/// How many invocations may wait for the worker at once; an enqueue beyond
/// this bound is dropped, never blocked on.
pub const DISPATCH_QUEUE_CAPACITY: usize = 50;

/// One parsed direct-method invocation, consumed exactly once by the
/// dispatcher's worker.
#[derive(Debug)]
pub struct Invocation {
    pub method_name: String,
    pub request_id: String,
    pub payload: Vec<u8>,
}

/// The outcome of a non-blocking enqueue: a rejected item is handed back so
/// the caller can log which call was lost.
#[derive(Debug)]
pub enum TrySendOutcome<T> {
    /// The item now waits in the queue.
    Accepted,
    /// The queue already held `capacity` items; the item is dropped.
    Full(T),
    /// The consumer is gone; the item is dropped.
    Disconnected(T),
}

/// A bounded FIFO queue with non-blocking enqueue.
pub struct BoundedQueue<T> {
    items: Vec<T>,
    capacity: usize,
    connected: bool,
}

impl<T> BoundedQueue<T> {
    /// The queued items, oldest first.
    pub closed spec fn items_view(&self) -> Seq<T> {
        self.items@
    }

    /// The fixed capacity the queue was created with.
    pub closed spec fn cap(&self) -> int {
        self.capacity as int
    }

    /// Whether the consumer side is still attached.
    pub closed spec fn is_connected(&self) -> bool {
        self.connected
    }

    /// The queue never holds more than its capacity.
    pub open spec fn wf(&self) -> bool {
        self.items_view().len() <= self.cap()
    }

    pub fn new(capacity: usize) -> (r: Self)
        ensures
            r.wf(),
            r.items_view() == Seq::<T>::empty(),
            r.cap() == capacity,
            r.is_connected(),
    {
        BoundedQueue { items: Vec::new(), capacity, connected: true }
    }

    pub fn len(&self) -> (r: usize)
        ensures
            r == self.items_view().len(),
    {
        self.items.len()
    }

    /// Non-blocking enqueue: accepts the item only when the consumer is
    /// still attached and the queue is below capacity; otherwise hands the
    /// item back untouched.
    pub fn try_send(&mut self, item: T) -> (r: TrySendOutcome<T>)
        requires
            old(self).wf(),
        ensures
            final(self).wf(),
            final(self).cap() == old(self).cap(),
            final(self).is_connected() == old(self).is_connected(),
            match r {
                TrySendOutcome::Accepted => {
                    &&& old(self).is_connected()
                    &&& old(self).items_view().len() < old(self).cap()
                    &&& final(self).items_view() == old(self).items_view().push(item)
                },
                TrySendOutcome::Full(it) => {
                    &&& old(self).is_connected()
                    &&& old(self).items_view().len() == old(self).cap()
                    &&& final(self).items_view() == old(self).items_view()
                    &&& it == item
                },
                TrySendOutcome::Disconnected(it) => {
                    &&& !old(self).is_connected()
                    &&& final(self).items_view() == old(self).items_view()
                    &&& it == item
                },
            },
    {
        if !self.connected {
            TrySendOutcome::Disconnected(item)
        } else if self.items.len() < self.capacity {
            self.items.push(item);
            TrySendOutcome::Accepted
        } else {
            TrySendOutcome::Full(item)
        }
    }

    /// Non-blocking dequeue of the oldest waiting invocation; strict FIFO.
    pub fn receive(&mut self) -> (r: Option<T>)
        requires
            old(self).wf(),
        ensures
            final(self).wf(),
            final(self).cap() == old(self).cap(),
            final(self).is_connected() == old(self).is_connected(),
            match r {
                Some(it) => {
                    &&& old(self).items_view().len() > 0
                    &&& it == old(self).items_view()[0]
                    &&& final(self).items_view() == old(self).items_view().skip(1)
                },
                None => {
                    &&& old(self).items_view().len() == 0
                    &&& final(self).items_view() == old(self).items_view()
                },
            },
    {
        if self.items.len() == 0 {
            None
        } else {
            let it = self.items.remove(0);
            proof {
                assert(self.items@ =~= old(self).items@.skip(1));
            }
            Some(it)
        }
    }

    /// Detaches the consumer: every later enqueue is rejected as
    /// disconnected.  Called when the worker thread stops.
    pub fn disconnect(&mut self)
        ensures
            !final(self).is_connected(),
            final(self).items_view() == old(self).items_view(),
            final(self).cap() == old(self).cap(),
    {
        self.connected = false;
    }
}

/// The queue contents and the number of accepted items after a burst of
/// enqueues against a connected queue, with no dequeue in between.
pub open spec fn burst_result<T>(init: Seq<T>, incoming: Seq<T>, cap: int) -> (Seq<T>, int)
    decreases incoming.len(),
{
    if incoming.len() == 0 {
        (init, 0int)
    } else {
        let (q1, a) = if init.len() < cap {
            (init.push(incoming[0]), 1int)
        } else {
            (init, 0int)
        };
        let rec = burst_result(q1, incoming.skip(1), cap);
        (rec.0, a + rec.1)
    }
}

/// A burst against a queue with free room accepts items in order until the
/// room is gone, and rejects the remainder.
pub proof fn lemma_burst_result<T>(init: Seq<T>, incoming: Seq<T>, cap: int)
    requires
        init.len() <= cap,
    ensures
        incoming.len() <= cap - init.len() ==> burst_result(init, incoming, cap) == (
            init + incoming,
            incoming.len() as int,
        ),
        incoming.len() > cap - init.len() ==> burst_result(init, incoming, cap) == (
            init + incoming.take(cap - init.len()),
            cap - init.len(),
        ),
    decreases incoming.len(),
{
    if incoming.len() == 0 {
        assert(init + incoming =~= init);
    } else if init.len() < cap {
        lemma_burst_result(init.push(incoming[0]), incoming.skip(1), cap);
        let free = cap - init.len();
        if incoming.len() <= free {
            assert(init.push(incoming[0]) + incoming.skip(1) =~= init + incoming);
        } else {
            assert(init.push(incoming[0]) + incoming.skip(1).take(free - 1) =~= init
                + incoming.take(free));
        }
    } else {
        lemma_burst_result(init, incoming.skip(1), cap);
        assert(init + incoming.take(0) =~= init);
    }
}

/// Law: sending more than the queue capacity of invocations before any is
/// dequeued results in exactly `capacity` of them being queued for
/// processing — the first `capacity`, in order — and the remainder being
/// rejected, without ever blocking the caller.
pub proof fn lemma_burst_beyond_capacity<T>(incoming: Seq<T>, cap: int)
    requires
        0 <= cap < incoming.len(),
    ensures
        burst_result(Seq::<T>::empty(), incoming, cap).0 == incoming.take(cap),
        burst_result(Seq::<T>::empty(), incoming, cap).1 == cap,
{
    lemma_burst_result(Seq::<T>::empty(), incoming, cap);
    assert(Seq::<T>::empty() + incoming.take(cap) =~= incoming.take(cap));
}

} // verus!
