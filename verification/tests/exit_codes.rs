use faketty::{exit_code, WaitOutcome};

#[test]
fn exited_child_gives_its_own_code() {
    assert_eq!(exit_code(WaitOutcome::Exited(0)), 0);
    assert_eq!(exit_code(WaitOutcome::Exited(1)), 1);
    assert_eq!(exit_code(WaitOutcome::Exited(6)), 6);
    assert_eq!(exit_code(WaitOutcome::Exited(255)), 255);
}

#[test]
fn every_exit_code_is_passed_on() {
    for code in 0..=255u8 {
        assert_eq!(exit_code(WaitOutcome::Exited(code)), code);
    }
}

#[test]
fn signaled_child_gives_zero() {
    assert_eq!(exit_code(WaitOutcome::Signaled(9)), 0);
    assert_eq!(exit_code(WaitOutcome::Signaled(15)), 0);
}

#[test]
fn any_other_outcome_gives_zero() {
    assert_eq!(exit_code(WaitOutcome::Stopped(19)), 0);
    assert_eq!(exit_code(WaitOutcome::Traced), 0);
    assert_eq!(exit_code(WaitOutcome::Continued), 0);
    assert_eq!(exit_code(WaitOutcome::StillAlive), 0);
    assert_eq!(exit_code(WaitOutcome::Failed), 0);
}

#[test]
fn exit_code_survives_two_supervisors() {
    for code in [0u8, 1, 6, 127, 128, 255] {
        let inner = exit_code(WaitOutcome::Exited(code));
        let outer = exit_code(WaitOutcome::Exited(inner));
        assert_eq!(outer, code);
    }
}

#[test]
fn signal_is_zero_above_two_supervisors() {
    let inner = exit_code(WaitOutcome::Signaled(11));
    let outer = exit_code(WaitOutcome::Exited(inner));
    assert_eq!(outer, 0);
}
