//! The solver-state surface the binding exposes, and the access decision.
//!
//! The host sees a state object as a live proxy for whichever solver owns
//! the state, so every read first finds out which solver kind backs the
//! proxy and whether that solver currently holds a state at all.  The
//! locking of the owning solver is host-interop glue; the decision made
//! under the lock is this module's: hand the state out when there is one,
//! and otherwise report the missing state with a message naming the solver
//! kind.

use vstd::prelude::*;

verus! {

/// Which stepping algorithm backs a state proxy.
#[derive(Clone, Copy, Debug, PartialEq, Eq, Structural)]
pub enum SolverKind {
    /// Backward differentiation formula stepper.
    Bdf,
    /// Singly diagonally implicit Runge-Kutta stepper.
    Sdirk,
}

/// The values a solver state exposes: the current solution, its
/// derivative, the sensitivity rows and their derivatives, the current
/// time and the current step size.  The scalar type is a parameter; the
/// binding instantiates it with the wrapped library's element type.
pub struct SolverState<S> {
    /// Current solution vector.
    pub y: Vec<S>,
    /// Derivative of the solution vector.
    pub dy: Vec<S>,
    /// Sensitivity vectors, one per parameter.
    pub s: Vec<Vec<S>>,
    /// Derivatives of the sensitivity vectors.
    pub ds: Vec<Vec<S>>,
    /// Current time.
    pub t: S,
    /// Current step size.
    pub h: S,
}

/// The message reported when a solver of the given kind holds no state.
pub fn no_state_message(kind: SolverKind) -> (m: String)
    ensures
        kind is Bdf ==> m@ == "Bdf solver has no state"@,
        kind is Sdirk ==> m@ == "Sdirk solver has no state"@,
{
    match kind {
        SolverKind::Bdf => "Bdf solver has no state".to_owned(),
        SolverKind::Sdirk => "Sdirk solver has no state".to_owned(),
    }
}

/// Hand out the solver's state exactly when it has one; otherwise report
/// the missing state, naming the solver kind.
pub fn state_or_err<'a, S>(kind: SolverKind, state: Option<&'a SolverState<S>>) -> (r: Result<
    &'a SolverState<S>,
    String,
>)
    ensures
        r is Ok <==> state is Some,
        r matches Ok(st) ==> Some(st) == state,
        r matches Err(m) ==> {
            &&& kind is Bdf ==> m@ == "Bdf solver has no state"@
            &&& kind is Sdirk ==> m@ == "Sdirk solver has no state"@
        },
{
    match state {
        Option::Some(st) => Ok(st),
        Option::None => Err(no_state_message(kind)),
    }
}

} // verus!
