//! Recorded configuration for the solver problem builder.
//!
//! The wrapped library's builder is a fluent object whose methods each set
//! one option and return the builder.  The binding mirrors that surface;
//! the part that is this crate's own logic is which options were set and
//! with which values.  `BuilderConfig` records exactly that: each setter
//! stores its value and leaves every other option untouched, and an option
//! never set stays `None`, so the caller applies only the recorded settings
//! to the wrapped builder, in any order.
//!
//! The scalar type is a parameter: the binding instantiates it with the
//! wrapped library's element type when it applies the configuration.

use vstd::prelude::*;

verus! {

/// The options a problem builder accepts, each `None` until its setter runs.
pub struct BuilderConfig<S> {
    /// Initial time.
    pub t0: Option<S>,
    /// Initial step size.
    pub h0: Option<S>,
    /// Relative tolerance.
    pub rtol: Option<S>,
    /// Absolute tolerance, one entry per equation.
    pub atol: Option<Vec<S>>,
    /// Problem parameters.
    pub p: Option<Vec<S>>,
    /// Whether to compute forward sensitivities.
    pub sensitivities: Option<bool>,
    /// Whether sensitivities take part in error control.
    pub sensitivities_error_control: Option<bool>,
    /// Whether to use coloring when computing the Jacobian.
    pub use_coloring: Option<bool>,
}

impl<S> BuilderConfig<S> {
    /// A fresh configuration with no option set.
    pub fn new() -> (b: Self)
        ensures
            b.t0 is None,
            b.h0 is None,
            b.rtol is None,
            b.atol is None,
            b.p is None,
            b.sensitivities is None,
            b.sensitivities_error_control is None,
            b.use_coloring is None,
    {
        BuilderConfig {
            t0: None,
            h0: None,
            rtol: None,
            atol: None,
            p: None,
            sensitivities: None,
            sensitivities_error_control: None,
            use_coloring: None,
        }
    }

    /// Set the initial time.
    pub fn t0(self, t0: S) -> (r: Self)
        ensures
            r.t0 == Some(t0),
            r.h0 == self.h0,
            r.rtol == self.rtol,
            r.atol == self.atol,
            r.p == self.p,
            r.sensitivities == self.sensitivities,
            r.sensitivities_error_control == self.sensitivities_error_control,
            r.use_coloring == self.use_coloring,
    {
        BuilderConfig { t0: Some(t0), ..self }
    }

    /// Set the initial step size.
    pub fn h0(self, h0: S) -> (r: Self)
        ensures
            r.h0 == Some(h0),
            r.t0 == self.t0,
            r.rtol == self.rtol,
            r.atol == self.atol,
            r.p == self.p,
            r.sensitivities == self.sensitivities,
            r.sensitivities_error_control == self.sensitivities_error_control,
            r.use_coloring == self.use_coloring,
    {
        BuilderConfig { h0: Some(h0), ..self }
    }

    /// Set the relative tolerance.
    pub fn rtol(self, rtol: S) -> (r: Self)
        ensures
            r.rtol == Some(rtol),
            r.t0 == self.t0,
            r.h0 == self.h0,
            r.atol == self.atol,
            r.p == self.p,
            r.sensitivities == self.sensitivities,
            r.sensitivities_error_control == self.sensitivities_error_control,
            r.use_coloring == self.use_coloring,
    {
        BuilderConfig { rtol: Some(rtol), ..self }
    }

    /// Set the absolute tolerance.
    pub fn atol(self, atol: Vec<S>) -> (r: Self)
        ensures
            r.atol == Some(atol),
            r.t0 == self.t0,
            r.h0 == self.h0,
            r.rtol == self.rtol,
            r.p == self.p,
            r.sensitivities == self.sensitivities,
            r.sensitivities_error_control == self.sensitivities_error_control,
            r.use_coloring == self.use_coloring,
    {
        BuilderConfig { atol: Some(atol), ..self }
    }

    /// Set the parameters.
    pub fn p(self, p: Vec<S>) -> (r: Self)
        ensures
            r.p == Some(p),
            r.t0 == self.t0,
            r.h0 == self.h0,
            r.rtol == self.rtol,
            r.atol == self.atol,
            r.sensitivities == self.sensitivities,
            r.sensitivities_error_control == self.sensitivities_error_control,
            r.use_coloring == self.use_coloring,
    {
        BuilderConfig { p: Some(p), ..self }
    }

    /// Set whether to compute forward sensitivities.
    pub fn sensitivities(self, sensitivities: bool) -> (r: Self)
        ensures
            r.sensitivities == Some(sensitivities),
            r.t0 == self.t0,
            r.h0 == self.h0,
            r.rtol == self.rtol,
            r.atol == self.atol,
            r.p == self.p,
            r.sensitivities_error_control == self.sensitivities_error_control,
            r.use_coloring == self.use_coloring,
    {
        BuilderConfig { sensitivities: Some(sensitivities), ..self }
    }

    /// Set whether sensitivities take part in error control.
    pub fn sensitivities_error_control(self, sensitivities_error_control: bool) -> (r: Self)
        ensures
            r.sensitivities_error_control == Some(sensitivities_error_control),
            r.t0 == self.t0,
            r.h0 == self.h0,
            r.rtol == self.rtol,
            r.atol == self.atol,
            r.p == self.p,
            r.sensitivities == self.sensitivities,
            r.use_coloring == self.use_coloring,
    {
        BuilderConfig { sensitivities_error_control: Some(sensitivities_error_control), ..self }
    }

    /// Set whether to use coloring when computing the Jacobian.
    pub fn use_coloring(self, use_coloring: bool) -> (r: Self)
        ensures
            r.use_coloring == Some(use_coloring),
            r.t0 == self.t0,
            r.h0 == self.h0,
            r.rtol == self.rtol,
            r.atol == self.atol,
            r.p == self.p,
            r.sensitivities == self.sensitivities,
            r.sensitivities_error_control == self.sensitivities_error_control,
    {
        BuilderConfig { use_coloring: Some(use_coloring), ..self }
    }
}

} // verus!
