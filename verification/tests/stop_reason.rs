use diffsol_py::stop_reason::SolverStopReason;

#[test]
fn root_is_returned_only_when_a_root_was_found() {
    let found: SolverStopReason<f64> = SolverStopReason::RootFound { root: 2.25 };
    assert_eq!(found.root(), Some(2.25));

    let internal: SolverStopReason<f64> = SolverStopReason::InternalTimestep;
    assert_eq!(internal.root(), None);

    let tstop: SolverStopReason<f64> = SolverStopReason::TstopReached;
    assert_eq!(tstop.root(), None);
}
