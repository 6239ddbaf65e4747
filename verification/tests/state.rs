use diffsol_py::state::{no_state_message, state_or_err, SolverKind, SolverState};

fn sample_state() -> SolverState<f64> {
    SolverState {
        y: vec![1.0, 2.0],
        dy: vec![0.1, 0.2],
        s: vec![vec![1.0], vec![2.0]],
        ds: vec![vec![0.0], vec![0.0]],
        t: 0.5,
        h: 0.01,
    }
}

#[test]
fn missing_state_message_names_the_solver_kind() {
    assert_eq!(no_state_message(SolverKind::Bdf), "Bdf solver has no state");
    assert_eq!(no_state_message(SolverKind::Sdirk), "Sdirk solver has no state");
}

#[test]
fn state_or_err_hands_out_present_state() {
    let st = sample_state();
    let r = state_or_err(SolverKind::Bdf, Some(&st));
    let got = r.expect("state was present");
    assert_eq!(got.y, vec![1.0, 2.0]);
    assert_eq!(got.t, 0.5);
    assert_eq!(got.h, 0.01);
}

#[test]
fn state_or_err_reports_missing_bdf_state() {
    let r: Result<&SolverState<f64>, String> = state_or_err(SolverKind::Bdf, None);
    assert_eq!(r.err(), Some("Bdf solver has no state".to_string()));
}

#[test]
fn state_or_err_reports_missing_sdirk_state() {
    let r: Result<&SolverState<f64>, String> = state_or_err(SolverKind::Sdirk, None);
    assert_eq!(r.err(), Some("Sdirk solver has no state".to_string()));
}
