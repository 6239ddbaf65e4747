//! The outcome of a single solver step, as the binding reports it.
//!
//! The wrapped library's step call returns one of three outcomes; the
//! binding carries them to the host one-to-one.  The root payload's type
//! is a parameter: the binding instantiates it with the wrapped library's
//! element type when it converts a step outcome for the host.

use vstd::prelude::*;

verus! {

/// Why a solver step returned.
pub enum SolverStopReason<R> {
    /// The step completed an internal timestep.
    InternalTimestep,
    /// The step found a root of the event function at `root`.
    RootFound {
        /// Where the root was found.
        root: R,
    },
    /// The step reached the requested stop time.
    TstopReached,
}

impl<R> SolverStopReason<R> {
    /// The root location when a root was found, and `None` otherwise.
    pub fn root(self) -> (r: Option<R>)
        ensures
            r is Some <==> self is RootFound,
            self matches SolverStopReason::RootFound { root } ==> r == Some(root),
    {
        match self {
            SolverStopReason::RootFound { root } => Some(root),
            _ => None,
        }
    }
}

} // verus!
