//! The workers of the relay and what they decide.

use vstd::prelude::*;

verus! {

/// Where a worker (the reader or the writer of a session, or the dispatcher)
/// stands in its life.
#[derive(Clone, Copy, Debug, PartialEq, Eq, Structural)]
pub enum WorkerStatus {
    /// The worker is in its loop.
    Running,
    /// The worker left its loop in the regular way, through the idle timeout.
    Exited,
    /// The worker was stopped by a fatal error.
    Failed,
}

/// What a worker does after a step.
#[derive(Clone, Copy, Debug, PartialEq, Eq, Structural)]
pub enum Decision {
    /// Go round the loop again.
    Continue,
    /// Leave the loop: the session has ended in the regular way.
    Exit,
    /// Stop at once: a fatal error has ended this worker.
    Abort,
}

impl WorkerStatus {
    /// The decision that goes with a status.
    pub open spec fn decision(self) -> Decision {
        match self {
            WorkerStatus::Running => Decision::Continue,
            WorkerStatus::Exited => Decision::Exit,
            WorkerStatus::Failed => Decision::Abort,
        }
    }

    /// Computes [`WorkerStatus::decision`].
    pub fn to_decision(self) -> (d: Decision)
        ensures
            d == self.decision(),
    {
        match self {
            WorkerStatus::Running => Decision::Continue,
            WorkerStatus::Exited => Decision::Exit,
            WorkerStatus::Failed => Decision::Abort,
        }
    }
}

} // verus!
