//! The work channel: a FIFO queue of pending tasks with an open/closed flag.
//!
//! Ghost logs record everything ever enqueued and everything ever dequeued,
//! so the contracts can state delivery guarantees over whole histories:
//! `dequeued() + pending() == enqueued()` holds at all times, which makes
//! every delivered task a queue slot claimed exactly once and in FIFO order.

use vstd::prelude::*;

use crate::PoolError;

verus! {

/// What one dequeue attempt observed.
pub enum DequeueResult<T> {
    /// A task was claimed; it is no longer pending and no later attempt can
    /// receive it again.
    Task(T),
    /// The queue is empty but still open: more tasks may yet arrive, so the
    /// caller should wait and retry.
    Empty,
    /// The queue is empty and closed: the channel is drained, and every later
    /// attempt observes the same.
    Closed,
}

/// A FIFO work channel with ghost enqueue/dequeue histories.
pub struct Channel<T> {
    queue: Vec<T>,
    open: bool,
    enq_log: Ghost<Seq<T>>,
    deq_log: Ghost<Seq<T>>,
}

impl<T> Channel<T> {
    /// The tasks currently waiting, oldest first.
    pub closed spec fn pending(self) -> Seq<T> {
        self.queue@
    }

    /// Whether the channel still accepts tasks.
    pub closed spec fn is_open(self) -> bool {
        self.open
    }

    /// Every task ever accepted, in acceptance order.
    pub closed spec fn enqueued(self) -> Seq<T> {
        self.enq_log@
    }

    /// Every task ever handed out, in delivery order.
    pub closed spec fn dequeued(self) -> Seq<T> {
        self.deq_log@
    }

    /// The channel invariant: what was handed out, followed by what still
    /// waits, is exactly what was accepted. No task is lost or duplicated.
    pub open spec fn wf(self) -> bool {
        self.dequeued() + self.pending() == self.enqueued()
    }

    /// A fresh, open, empty channel.
    pub fn new() -> (c: Self)
        ensures
            c.wf(),
            c.is_open(),
            c.pending() == Seq::<T>::empty(),
            c.enqueued() == Seq::<T>::empty(),
            c.dequeued() == Seq::<T>::empty(),
    {
        let c = Channel {
            queue: Vec::new(),
            open: true,
            enq_log: Ghost(Seq::empty()),
            deq_log: Ghost(Seq::empty()),
        };
        proof {
            assert(c.dequeued() + c.pending() =~= c.enqueued());
        }
        c
    }

    /// Appends a task to the tail of the queue. Fails with `ChannelClosed`,
    /// leaving the channel unchanged, exactly when the channel is closed.
    pub fn enqueue(&mut self, task: T) -> (r: Result<(), PoolError>)
        requires
            old(self).wf(),
        ensures
            final(self).wf(),
            old(self).is_open() ==> {
                &&& r == Ok::<(), PoolError>(())
                &&& final(self).pending() == old(self).pending().push(task)
                &&& final(self).enqueued() == old(self).enqueued().push(task)
            },
            !old(self).is_open() ==> {
                &&& r == Err::<(), PoolError>(PoolError::ChannelClosed)
                &&& final(self).pending() == old(self).pending()
                &&& final(self).enqueued() == old(self).enqueued()
            },
            final(self).is_open() == old(self).is_open(),
            final(self).dequeued() == old(self).dequeued(),
    {
        if self.open {
            self.queue.push(task);
            proof {
                self.enq_log@ = self.enq_log@.push(task);
                assert(self.dequeued() + self.pending() =~= self.enqueued());
            }
            Ok(())
        } else {
            Err(PoolError::ChannelClosed)
        }
    }

    /// Claims the oldest pending task, if there is one. On an empty queue the
    /// closed flag is consulted only after the queue was found empty, so tasks
    /// enqueued right up to closure are still delivered before `Closed` is
    /// ever observed.
    pub fn dequeue(&mut self) -> (r: DequeueResult<T>)
        requires
            old(self).wf(),
        ensures
            final(self).wf(),
            final(self).is_open() == old(self).is_open(),
            final(self).enqueued() == old(self).enqueued(),
            old(self).pending().len() > 0 ==> {
                &&& r matches DequeueResult::Task(t) && t == old(self).pending()[0]
                    && final(self).dequeued() == old(self).dequeued().push(t)
                &&& final(self).pending() == old(self).pending().drop_first()
            },
            old(self).pending().len() == 0 ==> {
                &&& final(self).pending() == old(self).pending()
                &&& final(self).dequeued() == old(self).dequeued()
                &&& (old(self).is_open() ==> r is Empty)
                &&& (!old(self).is_open() ==> r is Closed)
            },
    {
        if self.queue.len() > 0 {
            let task = self.queue.remove(0);
            proof {
                self.deq_log@ = self.deq_log@.push(task);
                assert(old(self).pending().drop_first() =~= old(self).pending().remove(0));
                assert(self.dequeued() + self.pending() =~= self.enqueued());
            }
            DequeueResult::Task(task)
        } else if self.open {
            DequeueResult::Empty
        } else {
            DequeueResult::Closed
        }
    }

    /// Closes the channel: no further enqueue succeeds. Pending tasks remain
    /// to be drained. Closing an already closed channel changes nothing.
    pub fn close(&mut self)
        requires
            old(self).wf(),
        ensures
            final(self).wf(),
            !final(self).is_open(),
            final(self).pending() == old(self).pending(),
            final(self).enqueued() == old(self).enqueued(),
            final(self).dequeued() == old(self).dequeued(),
    {
        self.open = false;
    }

    /// Whether the channel still accepts tasks.
    pub fn is_open_now(&self) -> (b: bool)
        ensures
            b == self.is_open(),
    {
        self.open
    }

    /// How many tasks are pending.
    pub fn pending_len(&self) -> (n: usize)
        ensures
            n == self.pending().len(),
    {
        self.queue.len()
    }

    /// Law: once the channel is drained, everything ever accepted has been
    /// handed out: the total dequeued equals the total enqueued.
    pub proof fn lemma_drained_delivers_all(self)
        requires
            self.wf(),
            self.pending().len() == 0,
        ensures
            self.dequeued() == self.enqueued(),
    {
        assert(self.dequeued() + self.pending() =~= self.dequeued());
    }

    /// Law: delivery is FIFO and exactly-once: at every moment, the tasks
    /// handed out so far are precisely the oldest accepted ones, in order.
    /// In particular no queue slot is ever delivered twice.
    pub proof fn lemma_fifo_delivery(self)
        requires
            self.wf(),
        ensures
            self.dequeued() == self.enqueued().take(self.dequeued().len() as int),
    {
        assert(self.enqueued().take(self.dequeued().len() as int) =~= self.dequeued());
    }
}

} // verus!
