use gpio_session::pin::{IoError, PinDirection, PinHandle, PinOp};
use gpio_session::session::{Phase, Session, SessionAction, SessionError};

fn io(op: PinOp, pin: u64, message: &str) -> IoError {
    IoError { op, pin, message: message.to_string() }
}

/// Drives a session with `outs`, recording each action asked for.
fn drive(pin: u64, dir: PinDirection, outs: Vec<Result<(), IoError>>) -> (Vec<SessionAction>, Session) {
    let mut s = Session::new(PinHandle::new(pin), dir);
    let mut acts = vec![s.action()];
    for o in outs {
        acts.push(s.advance(o));
    }
    (acts, s)
}

fn count(acts: &[SessionAction], a: SessionAction) -> usize {
    acts.iter().filter(|x| **x == a).count()
}

#[test]
fn session_success_pairs_export_and_unexport() {
    let (acts, s) = drive(22, PinDirection::OutputInitiallyLow, vec![Ok(()), Ok(()), Ok(()), Ok(())]);
    assert_eq!(
        acts,
        vec![
            SessionAction::Export,
            SessionAction::Configure(PinDirection::OutputInitiallyLow),
            SessionAction::RunWork,
            SessionAction::Unexport,
            SessionAction::Finish,
        ]
    );
    assert!(!s.holds_export);
    assert!(matches!(s.into_result(), Some(Ok(()))));
}

#[test]
fn session_export_failure_never_unexports() {
    let (acts, s) = drive(
        22,
        PinDirection::OutputInitiallyLow,
        vec![Err(io(PinOp::Export, 22, "permission denied")), Ok(()), Ok(())],
    );
    assert_eq!(count(&acts, SessionAction::Export), 1);
    assert_eq!(count(&acts, SessionAction::Unexport), 0);
    assert!(!s.holds_export);
    match s.into_result() {
        Some(Err(SessionError::ExportFailed(e))) => {
            assert_eq!(e.op, PinOp::Export);
            assert_eq!(e.message, "permission denied");
        }
        other => panic!("unexpected {:?}", other),
    }
}

#[test]
fn session_config_failure_still_unexports() {
    let (acts, s) = drive(
        23,
        PinDirection::Input,
        vec![Ok(()), Err(io(PinOp::SetDirection, 23, "rejected")), Ok(())],
    );
    assert_eq!(
        acts,
        vec![
            SessionAction::Export,
            SessionAction::Configure(PinDirection::Input),
            SessionAction::Unexport,
            SessionAction::Finish,
        ]
    );
    assert!(matches!(s.into_result(), Some(Err(SessionError::ConfigFailed(_)))));
}

#[test]
fn session_work_failure_releases_pin() {
    let (acts, s) = drive(
        22,
        PinDirection::OutputInitiallyLow,
        vec![Ok(()), Ok(()), Err(io(PinOp::Write, 22, "io")), Ok(())],
    );
    assert_eq!(count(&acts, SessionAction::Unexport), 1);
    assert_eq!(s.phase, Phase::Done);
    assert!(!s.holds_export);
    assert!(matches!(s.into_result(), Some(Err(SessionError::WorkFailed(_)))));
}

#[test]
fn session_unexport_failure_after_success() {
    let (_, s) = drive(
        22,
        PinDirection::OutputInitiallyHigh,
        vec![Ok(()), Ok(()), Ok(()), Err(io(PinOp::Unexport, 22, "busy"))],
    );
    assert!(s.holds_export);
    assert!(matches!(s.into_result(), Some(Err(SessionError::UnexportFailed(_)))));
}

#[test]
fn session_work_and_unexport_failures_are_both_kept() {
    let (_, s) = drive(
        22,
        PinDirection::OutputInitiallyLow,
        vec![Ok(()), Ok(()), Err(io(PinOp::Write, 22, "w")), Err(io(PinOp::Unexport, 22, "u"))],
    );
    match s.into_result() {
        Some(Err(SessionError::Composite(first, second))) => {
            assert_eq!(first.op, PinOp::Write);
            assert_eq!(first.message, "w");
            assert_eq!(second.op, PinOp::Unexport);
            assert_eq!(second.message, "u");
        }
        other => panic!("unexpected {:?}", other),
    }
}

#[test]
fn session_config_and_unexport_failures_are_both_kept() {
    let (_, s) = drive(
        5,
        PinDirection::OutputInitiallyLow,
        vec![Ok(()), Err(io(PinOp::SetDirection, 5, "c")), Err(io(PinOp::Unexport, 5, "u"))],
    );
    match s.into_result() {
        Some(Err(SessionError::Composite(first, second))) => {
            assert_eq!(first.op, PinOp::SetDirection);
            assert_eq!(second.op, PinOp::Unexport);
        }
        other => panic!("unexpected {:?}", other),
    }
}

#[test]
fn session_unfinished_has_no_result() {
    let (acts, s) = drive(22, PinDirection::OutputInitiallyLow, vec![Ok(())]);
    assert_eq!(count(&acts, SessionAction::Unexport), 0);
    assert!(s.holds_export);
    assert!(!s.is_finished());
    assert!(s.into_result().is_none());
}

#[test]
fn session_done_ignores_further_outcomes() {
    let (acts, s) = drive(
        1,
        PinDirection::Input,
        vec![Ok(()), Ok(()), Ok(()), Ok(()), Err(io(PinOp::Read, 1, "x")), Ok(())],
    );
    assert_eq!(count(&acts, SessionAction::Unexport), 1);
    assert_eq!(count(&acts, SessionAction::Finish), 3);
    assert!(matches!(s.into_result(), Some(Ok(()))));
}

#[test]
fn pin_handle_keeps_index() {
    let p = PinHandle::new(23);
    assert_eq!(p.index(), 23);
}

#[test]
fn direction_initial_levels() {
    assert_eq!(PinDirection::OutputInitiallyLow.initial_level(), Some(0));
    assert_eq!(PinDirection::OutputInitiallyHigh.initial_level(), Some(1));
    assert_eq!(PinDirection::Input.initial_level(), None);
    assert!(PinDirection::OutputInitiallyHigh.is_output());
    assert!(!PinDirection::Input.is_output());
}
