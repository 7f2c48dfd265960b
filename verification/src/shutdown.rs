//! The shutdown coordinator: one process-wide stopping flag.
//!
//! The operator's interrupt is registered once, for the life of the
//! process; its handler flips the flag from running to stopping.  A second
//! interrupt has no further effect.  Every long-running loop — each
//! poller's tick loop and the consumer loop — reads the flag at each
//! iteration boundary and exits promptly, so shutdown latency is bounded
//! by one tick plus any in-flight fetch.

use vstd::prelude::*;

verus! {

/// The cooperative cancellation flag, passed to every task at spawn time.
#[derive(Clone, Copy, Debug, PartialEq, Eq, Structural)]
pub struct ShutdownCoordinator {
    /// Whether the operator has asked the tailer to stop.
    pub stopping: bool,
}

/// The coordinator after one interrupt: stopping, whatever it was before.
pub open spec fn spec_signalled(c: ShutdownCoordinator) -> ShutdownCoordinator {
    ShutdownCoordinator { stopping: true }
}

impl ShutdownCoordinator {
    /// A coordinator that is still running.
    pub fn new() -> (r: Self)
        ensures
            !r.stopping,
    {
        ShutdownCoordinator { stopping: false }
    }

    /// Records one interrupt from the operator.
    pub fn signal(&mut self)
        ensures
            *final(self) == spec_signalled(*old(self)),
    {
        self.stopping = true;
    }

    /// Whether the loops must wind down.
    pub fn is_stopping(&self) -> (r: bool)
        ensures
            r == self.stopping,
    {
        self.stopping
    }
}

/// A second interrupt has no effect beyond the first: signalling is
/// idempotent.
pub proof fn lemma_signal_idempotent(c: ShutdownCoordinator)
    ensures
        spec_signalled(spec_signalled(c)) == spec_signalled(c),
{
}

} // verus!
