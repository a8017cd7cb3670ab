//! A verified model of a bounded worker pool.
//!
//! The pool owns a FIFO work channel and a fixed set of workers. Producers
//! submit tasks while the pool is accepting; shutdown closes the channel,
//! drains every pending task, and stops each worker. The contracts here pin
//! down the lifecycle guarantees: every accepted task is delivered exactly
//! once and in queue order, submission after shutdown fails without a side
//! effect, and a failing task is contained to the one execution that ran it.
//!
//! The model is a state machine: a driver (one thread, or a harness that owns
//! the locking) calls `worker_step` to let a worker claim work, runs the
//! claimed task itself, and reports the outcome with `finish_task`. `shutdown`
//! performs the whole drain at once.

use vstd::prelude::*;

pub mod channel;
pub mod pool;

verus! {

/// Errors surfaced by pool construction and task submission.
#[derive(Clone, Copy, Debug, PartialEq, Eq, Structural)]
pub enum PoolError {
    /// The requested worker count was zero: such a pool would accept tasks
    /// that no worker could ever run.
    InvalidConfiguration,
    /// The channel has been closed by shutdown; the task was not enqueued.
    ChannelClosed,
}

/// How one task execution ended, reported by the driver that ran it.
///
/// A failed execution is contained to its own iteration: the worker that ran
/// it keeps going, and later tasks are unaffected.
#[derive(Clone, Copy, Debug, PartialEq, Eq, Structural)]
pub enum TaskOutcome {
    /// The task ran to completion.
    Completed,
    /// The task raised an error while running.
    Failed,
}

} // verus!
