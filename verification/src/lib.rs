//! Verified core of a host-language binding for an ODE-solver library.
//!
//! The solver itself (time stepping, Newton iteration, linear solvers) lives
//! in the wrapped native library and is out of scope here.  What this crate
//! verifies is the binding's own logic: recording builder configuration,
//! marshalling solution values into rectangular row-major buffers without any
//! out-of-bounds access, the all-or-nothing update of a vector of rows, and
//! the dispatch that reports a missing solver state.  The host-interop glue
//! (class registration, array allocation, locking) stays outside the
//! verified library and hands plain values in and out.

pub mod builder;
pub mod convert;
pub mod state;
pub mod stop_reason;
