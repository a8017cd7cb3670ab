//! The pool: a fixed set of workers around one shared work channel.
//!
//! `Pool` is a state machine driven from outside. `submit` enqueues a task
//! while the pool is accepting. `worker_step` lets one ready worker attempt a
//! dequeue and says what its thread must do next: run the claimed task, wait,
//! or exit. The driver reports how a claimed task ended with `finish_task`;
//! a failure is counted and contained, never fatal. `shutdown` closes the
//! channel, drains every remaining task, and stops every worker.
//!
//! The pool invariant `wf` ties the histories together: what was delivered,
//! followed by what is pending, is exactly what was submitted; and a stopped
//! worker exists only once the channel is closed and fully drained.

use vstd::prelude::*;

use crate::PoolError;
use crate::TaskOutcome;
use crate::channel::Channel;
use crate::channel::DequeueResult;

verus! {

/// The lifecycle state of one worker.
#[derive(Clone, Copy, Debug, PartialEq, Eq, Structural)]
pub enum WorkerState {
    /// Ready to claim the next task.
    Ready,
    /// Currently running a claimed task.
    Busy,
    /// Has observed the drained, closed channel and exited. Terminal.
    Stopped,
}

/// What a worker's thread must do after one scheduling step.
pub enum WorkerAction<T> {
    /// Run the claimed task to completion, then report the outcome with
    /// `finish_task`.
    Run(T),
    /// Nothing to do yet: wait until a task arrives or the pool shuts down,
    /// then step again.
    Park,
    /// The channel is closed and drained: the worker has stopped and its
    /// thread may end.
    Exit,
}

/// A bounded worker pool: one shared FIFO channel and a fixed set of workers.
pub struct Pool<T> {
    channel: Channel<T>,
    workers: Vec<WorkerState>,
    failures: u64,
}

impl<T> Pool<T> {
    /// The tasks accepted but not yet claimed, oldest first.
    pub closed spec fn pending(self) -> Seq<T> {
        self.channel.pending()
    }

    /// Every task ever accepted by `submit`, in acceptance order.
    pub closed spec fn submitted(self) -> Seq<T> {
        self.channel.enqueued()
    }

    /// Every task ever claimed by a worker, in delivery order.
    pub closed spec fn delivered(self) -> Seq<T> {
        self.channel.dequeued()
    }

    /// Whether the pool still accepts submissions.
    pub closed spec fn accepting(self) -> bool {
        self.channel.is_open()
    }

    /// The state of each worker, by worker index.
    pub closed spec fn worker_states(self) -> Seq<WorkerState> {
        self.workers@
    }

    /// How many task executions were reported as failed.
    pub closed spec fn failure_count(self) -> u64 {
        self.failures
    }

    /// The number of workers, fixed at construction.
    pub open spec fn worker_count(self) -> nat {
        self.worker_states().len()
    }

    /// The pool invariant. Delivery accounts for every accepted task, and a
    /// worker stops only once the channel is closed and drained, so closure is
    /// never observed while work remains.
    pub open spec fn wf(self) -> bool {
        &&& self.delivered() + self.pending() == self.submitted()
        &&& forall|i: int|
            0 <= i < self.worker_states().len() && self.worker_states()[i] is Stopped
                ==> !self.accepting() && self.pending().len() == 0
    }

    /// Builds a pool of exactly `worker_count` ready workers around a fresh,
    /// open, empty channel. A worker count of zero is rejected with
    /// `InvalidConfiguration` and no pool (hence no worker) is created.
    pub fn new(worker_count: usize) -> (r: Result<Pool<T>, PoolError>)
        ensures
            worker_count == 0 <==> r == Err::<Pool<T>, PoolError>(PoolError::InvalidConfiguration),
            worker_count > 0 ==> (r matches Ok(p) && {
                &&& p.wf()
                &&& p.worker_count() == worker_count
                &&& forall|i: int| 0 <= i < worker_count ==> p.worker_states()[i] is Ready
                &&& p.accepting()
                &&& p.pending() == Seq::<T>::empty()
                &&& p.submitted() == Seq::<T>::empty()
                &&& p.delivered() == Seq::<T>::empty()
                &&& p.failure_count() == 0
            }),
    {
        if worker_count == 0 {
            return Err(PoolError::InvalidConfiguration);
        }
        let mut workers: Vec<WorkerState> = Vec::new();
        let mut i: usize = 0;
        while i < worker_count
            invariant
                i <= worker_count,
                workers@.len() == i,
                forall|j: int| 0 <= j < i ==> workers@[j] is Ready,
            decreases worker_count - i,
        {
            workers.push(WorkerState::Ready);
            i += 1;
        }
        Ok(Pool { channel: Channel::new(), workers, failures: 0 })
    }

    /// Forwards a task to the channel. While the pool is accepting, the task
    /// is appended to the pending queue and the call succeeds; once shutdown
    /// has begun it fails with `ChannelClosed` and has no side effect, so the
    /// rejected task is never delivered.
    pub fn submit(&mut self, task: T) -> (r: Result<(), PoolError>)
        requires
            old(self).wf(),
        ensures
            final(self).wf(),
            old(self).accepting() ==> {
                &&& r == Ok::<(), PoolError>(())
                &&& final(self).pending() == old(self).pending().push(task)
                &&& final(self).submitted() == old(self).submitted().push(task)
            },
            !old(self).accepting() ==> {
                &&& r == Err::<(), PoolError>(PoolError::ChannelClosed)
                &&& final(self).pending() == old(self).pending()
                &&& final(self).submitted() == old(self).submitted()
            },
            final(self).delivered() == old(self).delivered(),
            final(self).accepting() == old(self).accepting(),
            final(self).worker_states() == old(self).worker_states(),
            final(self).failure_count() == old(self).failure_count(),
    {
        self.channel.enqueue(task)
    }

    /// One scheduling step for a ready worker: attempt a dequeue on its
    /// behalf. With work pending, the worker claims the oldest task, turns
    /// busy, and the returned action tells its thread to run the task; the
    /// claimed task leaves the queue, so no other worker can receive it. With
    /// nothing pending the worker parks while the pool is accepting, and
    /// stops, terminally, once the channel is closed and drained.
    pub fn worker_step(&mut self, worker: usize) -> (action: WorkerAction<T>)
        requires
            old(self).wf(),
            worker < old(self).worker_count(),
            old(self).worker_states()[worker as int] is Ready,
        ensures
            final(self).wf(),
            final(self).worker_count() == old(self).worker_count(),
            final(self).submitted() == old(self).submitted(),
            final(self).accepting() == old(self).accepting(),
            final(self).failure_count() == old(self).failure_count(),
            old(self).pending().len() > 0 ==> {
                &&& action matches WorkerAction::Run(t) && t == old(self).pending()[0]
                    && final(self).delivered() == old(self).delivered().push(t)
                &&& final(self).pending() == old(self).pending().drop_first()
                &&& final(self).worker_states() == old(self).worker_states().update(
                    worker as int,
                    WorkerState::Busy,
                )
            },
            old(self).pending().len() == 0 ==> {
                &&& final(self).pending() == old(self).pending()
                &&& final(self).delivered() == old(self).delivered()
                &&& (old(self).accepting() ==> action is Park && final(self).worker_states()
                    == old(self).worker_states())
                &&& (!old(self).accepting() ==> action is Exit && final(self).worker_states()
                    == old(self).worker_states().update(worker as int, WorkerState::Stopped))
            },
    {
        match self.channel.dequeue() {
            DequeueResult::Task(task) => {
                let state = &mut self.workers[worker];
                *state = WorkerState::Busy;
                proof {
                    assert(self.worker_states() =~= old(self).worker_states().update(
                        worker as int,
                        WorkerState::Busy,
                    ));
                }
                WorkerAction::Run(task)
            },
            DequeueResult::Empty => WorkerAction::Park,
            DequeueResult::Closed => {
                let state = &mut self.workers[worker];
                *state = WorkerState::Stopped;
                proof {
                    assert(self.worker_states() =~= old(self).worker_states().update(
                        worker as int,
                        WorkerState::Stopped,
                    ));
                }
                WorkerAction::Exit
            },
        }
    }

    /// Reports how a claimed task's execution ended. The worker returns to
    /// ready either way: a failure is recorded in the failure count but is
    /// contained to that one execution, so it never stops the worker, never
    /// loses other tasks, and never reaches `submit` or `shutdown` callers.
    pub fn finish_task(&mut self, worker: usize, outcome: TaskOutcome)
        requires
            old(self).wf(),
            worker < old(self).worker_count(),
            old(self).worker_states()[worker as int] is Busy,
        ensures
            final(self).wf(),
            final(self).worker_states() == old(self).worker_states().update(
                worker as int,
                WorkerState::Ready,
            ),
            final(self).pending() == old(self).pending(),
            final(self).submitted() == old(self).submitted(),
            final(self).delivered() == old(self).delivered(),
            final(self).accepting() == old(self).accepting(),
            final(self).failure_count() == if outcome is Failed {
                if old(self).failure_count() == u64::MAX {
                    u64::MAX
                } else {
                    (old(self).failure_count() + 1) as u64
                }
            } else {
                old(self).failure_count()
            },
    {
        match outcome {
            TaskOutcome::Failed => {
                if self.failures < u64::MAX {
                    self.failures = self.failures + 1;
                }
            },
            TaskOutcome::Completed => {},
        }
        let state = &mut self.workers[worker];
        *state = WorkerState::Ready;
        proof {
            assert(self.worker_states() =~= old(self).worker_states().update(
                worker as int,
                WorkerState::Ready,
            ));
        }
    }

    /// Begins shutdown without draining: closes the channel so that no
    /// further submission succeeds. Workers still drain the remaining tasks
    /// through `worker_step`, then stop. A threaded driver calls this, wakes
    /// its parked workers, and joins their threads.
    pub fn close(&mut self)
        requires
            old(self).wf(),
        ensures
            final(self).wf(),
            !final(self).accepting(),
            final(self).pending() == old(self).pending(),
            final(self).submitted() == old(self).submitted(),
            final(self).delivered() == old(self).delivered(),
            final(self).worker_states() == old(self).worker_states(),
            final(self).failure_count() == old(self).failure_count(),
    {
        self.channel.close()
    }

    /// Full synchronous shutdown: closes the channel, delivers every task
    /// still pending, in queue order, and stops every worker. The drained
    /// tasks are returned for the caller to run, each exactly once; after the
    /// call the pool accepts nothing, holds nothing, and every worker has
    /// stopped, so everything ever accepted has been delivered.
    ///
    /// Every outstanding execution must have been reported with `finish_task`
    /// first: no worker may still be busy.
    pub fn shutdown(&mut self) -> (drained: Vec<T>)
        requires
            old(self).wf(),
            forall|i: int|
                0 <= i < old(self).worker_count() ==> !(old(self).worker_states()[i] is Busy),
        ensures
            final(self).wf(),
            !final(self).accepting(),
            final(self).pending().len() == 0,
            final(self).worker_count() == old(self).worker_count(),
            forall|i: int|
                0 <= i < final(self).worker_count() ==> final(self).worker_states()[i] is Stopped,
            drained@ == old(self).pending(),
            final(self).submitted() == old(self).submitted(),
            final(self).delivered() == old(self).delivered() + old(self).pending(),
            final(self).delivered() == final(self).submitted(),
            final(self).failure_count() == old(self).failure_count(),
    {
        self.channel.close();
        let mut drained: Vec<T> = Vec::new();
        while self.channel.pending_len() > 0
            invariant
                self.channel.wf(),
                !self.channel.is_open(),
                self.channel.enqueued() == old(self).submitted(),
                drained@ + self.channel.pending() == old(self).pending(),
                self.channel.dequeued() == old(self).delivered() + drained@,
                self.workers@ == old(self).worker_states(),
                self.failures == old(self).failure_count(),
            decreases self.channel.pending().len(),
        {
            match self.channel.dequeue() {
                DequeueResult::Task(task) => {
                    drained.push(task);
                    proof {
                        assert(drained@ + self.channel.pending() =~= old(self).pending());
                        assert(self.channel.dequeued() =~= old(self).delivered() + drained@);
                    }
                },
                DequeueResult::Empty => {
                    proof {
                        assert(false);
                    }
                },
                DequeueResult::Closed => {
                    proof {
                        assert(false);
                    }
                },
            }
        }
        let worker_total = self.workers.len();
        let mut i: usize = 0;
        while i < worker_total
            invariant
                worker_total == old(self).worker_count(),
                i <= worker_total,
                self.channel.wf(),
                !self.channel.is_open(),
                self.channel.pending().len() == 0,
                self.channel.enqueued() == old(self).submitted(),
                self.channel.dequeued() == old(self).delivered() + drained@,
                self.workers@.len() == worker_total,
                forall|j: int| 0 <= j < i ==> self.workers@[j] is Stopped,
                forall|j: int| i <= j < worker_total ==> self.workers@[j]
                    == old(self).worker_states()[j],
                self.failures == old(self).failure_count(),
            decreases worker_total - i,
        {
            let state = &mut self.workers[i];
            *state = WorkerState::Stopped;
            i += 1;
        }
        proof {
            assert(final(self).delivered() + final(self).pending() =~= final(self).delivered());
            assert(final(self).delivered() =~= final(self).submitted());
        }
        drained
    }

    /// The number of workers, as fixed at construction.
    pub fn num_workers(&self) -> (n: usize)
        ensures
            n == self.worker_count(),
    {
        self.workers.len()
    }

    /// Whether the pool still accepts submissions.
    pub fn is_accepting(&self) -> (b: bool)
        ensures
            b == self.accepting(),
    {
        self.channel.is_open_now()
    }

    /// How many tasks are pending.
    pub fn pending_len(&self) -> (n: usize)
        ensures
            n == self.pending().len(),
    {
        self.channel.pending_len()
    }

    /// The state of the given worker, or `None` for an index out of range.
    pub fn worker_state(&self, worker: usize) -> (s: Option<WorkerState>)
        ensures
            worker < self.worker_count() ==> s == Some(self.worker_states()[worker as int]),
            worker >= self.worker_count() ==> s is None,
    {
        if worker < self.workers.len() {
            Some(self.workers[worker])
        } else {
            None
        }
    }

    /// How many task executions were reported as failed.
    pub fn failure_total(&self) -> (n: u64)
        ensures
            n == self.failure_count(),
    {
        self.failures
    }

    /// Law: once the queue is drained, every task ever accepted has been
    /// delivered, exactly once and in submission order: nothing was lost.
    pub proof fn lemma_drained_pool_delivered_all(self)
        requires
            self.wf(),
            self.pending().len() == 0,
        ensures
            self.delivered() == self.submitted(),
    {
        self.channel.lemma_drained_delivers_all();
    }

    /// Law: at every moment the delivered tasks are precisely the oldest
    /// submitted ones, in order. Each queue slot is claimed by at most one
    /// worker, and a task claimed once is never delivered again.
    pub proof fn lemma_delivery_is_fifo(self)
        requires
            self.wf(),
        ensures
            self.delivered() == self.submitted().take(self.delivered().len() as int),
    {
        self.channel.lemma_fifo_delivery();
    }

    /// Law: a stopped worker is proof of a completed drain. If any worker has
    /// stopped, shutdown had begun and every accepted task had already been
    /// delivered: closure is never observed ahead of remaining work.
    pub proof fn lemma_stopped_worker_saw_drain(self, worker: int)
        requires
            self.wf(),
            0 <= worker < self.worker_count(),
            self.worker_states()[worker] is Stopped,
        ensures
            !self.accepting(),
            self.pending().len() == 0,
            self.delivered() == self.submitted(),
    {
        self.lemma_drained_pool_delivered_all();
    }
}

} // verus!
