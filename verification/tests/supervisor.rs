use faketty::{
    RelayEvent, Supervisor, SupervisorAction, SupervisorEvent, WaitOutcome,
};

/// Runs a supervisor whose source gives `reads` and whose child ends with
/// `outcome`. Returns what the destination got and the exit code.
fn supervise(reads: &[&[u8]], outcome: WaitOutcome) -> (Vec<u8>, u8) {
    let mut supervisor = Supervisor::new(77, 5, 1);
    let mut output = Vec::new();
    let mut next = 0;
    loop {
        match supervisor.action() {
            SupervisorAction::Read { fd, capacity } => {
                assert_eq!(fd, 5);
                assert_eq!(capacity, 4096);
                let chunk: &[u8] = if next < reads.len() { reads[next] } else { &[] };
                next += 1;
                supervisor.advance(SupervisorEvent::Relay(RelayEvent::Read(chunk.to_vec())));
            }
            SupervisorAction::Write { fd } => {
                assert_eq!(fd, 1);
                let pending = supervisor.pending().to_vec();
                output.extend_from_slice(&pending);
                supervisor.advance(SupervisorEvent::Relay(RelayEvent::Wrote(pending.len())));
            }
            SupervisorAction::Wait { child } => {
                assert_eq!(child, 77);
                supervisor.advance(SupervisorEvent::Waited(outcome));
            }
            SupervisorAction::Exit { code } => return (output, code),
        }
    }
}

#[test]
fn supervisor_reads_its_source_first() {
    let supervisor = Supervisor::new(10, 3, 1);
    assert_eq!(
        supervisor.action(),
        SupervisorAction::Read { fd: 3, capacity: 4096 }
    );
}

#[test]
fn supervisor_writes_to_its_destination() {
    let mut supervisor = Supervisor::new(10, 3, 4);
    let action = supervisor.advance(SupervisorEvent::Relay(RelayEvent::Read(b"err".to_vec())));
    assert_eq!(action, SupervisorAction::Write { fd: 4 });
    assert_eq!(supervisor.pending(), b"err");
}

#[test]
fn supervisor_waits_only_after_the_relay_has_ended() {
    let mut supervisor = Supervisor::new(10, 3, 1);
    let action = supervisor.advance(SupervisorEvent::Waited(WaitOutcome::Exited(3)));
    assert_eq!(action, SupervisorAction::Read { fd: 3, capacity: 4096 });
    let action = supervisor.advance(SupervisorEvent::Relay(RelayEvent::Read(Vec::new())));
    assert_eq!(action, SupervisorAction::Wait { child: 10 });
    let action = supervisor.advance(SupervisorEvent::Waited(WaitOutcome::Exited(4)));
    assert_eq!(action, SupervisorAction::Exit { code: 4 });
}

#[test]
fn supervisor_waits_after_a_failed_read_or_write() {
    let mut supervisor = Supervisor::new(10, 3, 1);
    let action = supervisor.advance(SupervisorEvent::Relay(RelayEvent::ReadFailed));
    assert_eq!(action, SupervisorAction::Wait { child: 10 });

    let mut supervisor = Supervisor::new(11, 3, 1);
    supervisor.advance(SupervisorEvent::Relay(RelayEvent::Read(b"x".to_vec())));
    let action = supervisor.advance(SupervisorEvent::Relay(RelayEvent::WriteFailed));
    assert_eq!(action, SupervisorAction::Wait { child: 11 });
}

#[test]
fn supervisor_exit_is_final() {
    let mut supervisor = Supervisor::new(10, 3, 1);
    supervisor.advance(SupervisorEvent::Relay(RelayEvent::Read(Vec::new())));
    supervisor.advance(SupervisorEvent::Waited(WaitOutcome::Exited(9)));
    let action = supervisor.advance(SupervisorEvent::Waited(WaitOutcome::Exited(1)));
    assert_eq!(action, SupervisorAction::Exit { code: 9 });
    let action = supervisor.advance(SupervisorEvent::Relay(RelayEvent::Read(b"late".to_vec())));
    assert_eq!(action, SupervisorAction::Exit { code: 9 });
}

#[test]
fn supervisor_exits_zero_after_a_signal() {
    let (_, code) = supervise(&[b"partial"], WaitOutcome::Signaled(9));
    assert_eq!(code, 0);
    let (_, code) = supervise(&[], WaitOutcome::Stopped(19));
    assert_eq!(code, 0);
    let (_, code) = supervise(&[], WaitOutcome::Failed);
    assert_eq!(code, 0);
}

#[test]
fn terminal_program_with_exit_code_six() {
    // The program prints one line on each stream and ends with code 6. The
    // inner supervisor relays standard error and sees the program end; the
    // outer one relays standard output and sees the inner one end.
    let (stderr, inner) = supervise(&[b"stderr is tty\r\n"], WaitOutcome::Exited(6));
    let (stdout, outer) = supervise(&[b"stdout is tty\r\n"], WaitOutcome::Exited(inner));
    assert_eq!(outer, 6);
    assert_eq!(stdout, b"stdout is tty\r\n");
    assert_eq!(stderr, b"stderr is tty\r\n");
}

#[test]
fn two_runs_of_the_same_program_agree() {
    let first = supervise(&[b"same ", b"output\r\n"], WaitOutcome::Exited(3));
    let second = supervise(&[b"sa", b"me out", b"put\r\n"], WaitOutcome::Exited(3));
    assert_eq!(first, second);
    assert_eq!(first.0, b"same output\r\n");
    assert_eq!(first.1, 3);
}
