//! What a launch does to the process that runs it, step by step, and what
//! the program finds in the end.
//!
//! The launcher only asks for system calls. Here each call is given its
//! effect on the descriptors of the process, and the launcher's steps are
//! shown to lead where they are meant to: the real standard input on
//! descriptor 0, the first pseudo-terminal on descriptor 1, the second on
//! descriptor 2, and each supervisor between its pseudo-terminal and the real
//! stream.

use crate::descriptors::{
    after_exec, after_fork_as_child, after_fork_as_parent, after_restore, after_save,
    can_fork_as_parent, can_restore, can_save, is_standard, leads_to, pristine, Descriptor,
    Endpoint, Process, STDERR, STDIN, STDOUT,
};
use crate::launch::{
    answers, launch_action, launch_after, launch_next, LaunchAction, LaunchEvent, LaunchState,
    Role, Step,
};
use crate::window::WindowSize;
use vstd::prelude::*;

verus! {

/// Whether the operating system can answer `action` with `event` in
/// `process`.
pub open spec fn os_allows(process: Process, action: LaunchAction, event: LaunchEvent) -> bool {
    match (action, event) {
        (LaunchAction::Save { fd }, LaunchEvent::Saved(copy)) => can_save(
            process,
            fd as int,
            copy as int,
        ),
        (LaunchAction::ForkPty { .. }, LaunchEvent::Forked(Role::Parent { master, .. })) =>
            can_fork_as_parent(process, master as int),
        (LaunchAction::ForkPty { .. }, LaunchEvent::Forked(Role::Child)) => true,
        (LaunchAction::Restore { saved, .. }, LaunchEvent::Restored) => can_restore(
            process,
            saved as int,
        ),
        (LaunchAction::Save { .. }, LaunchEvent::Failed(_)) => true,
        (LaunchAction::ForkPty { .. }, LaunchEvent::Failed(_)) => true,
        (LaunchAction::Restore { .. }, LaunchEvent::Failed(_)) => true,
        (LaunchAction::Exec, LaunchEvent::Failed(_)) => true,
        _ => false,
    }
}

/// The process that goes on after the operating system has answered
/// `action` with `event`: after a fork, the one that the role names. A
/// failed call changes nothing.
pub open spec fn os_effect(process: Process, action: LaunchAction, event: LaunchEvent) -> Process {
    match (action, event) {
        (LaunchAction::Save { fd }, LaunchEvent::Saved(copy)) => after_save(
            process,
            fd as int,
            copy as int,
        ),
        (LaunchAction::ForkPty { .. }, LaunchEvent::Forked(Role::Parent { master, .. })) =>
            after_fork_as_parent(process, master as int),
        (LaunchAction::ForkPty { .. }, LaunchEvent::Forked(Role::Child)) => after_fork_as_child(
            process,
        ),
        (LaunchAction::Restore { saved, onto }, LaunchEvent::Restored) => after_restore(
            process,
            saved as int,
            onto as int,
        ),
        _ => process,
    }
}

/// Whether `fd` is a saved copy in `process`: none of the standard
/// descriptors, leading to `endpoint`, and closed by an exec.
pub open spec fn saved_as(process: Process, fd: int, endpoint: Endpoint) -> bool {
    &&& !is_standard(fd)
    &&& process.descriptors.dom().contains(fd)
    &&& process.descriptors[fd] == (Descriptor { endpoint, close_on_exec: true })
}

/// Whether `fd` is open in `process` and is exactly `descriptor`.
pub open spec fn holds(process: Process, fd: int, descriptor: Descriptor) -> bool {
    process.descriptors.dom().contains(fd) && process.descriptors[fd] == descriptor
}

/// Whether the launch has left alone what is not its business: apart from
/// the standard descriptors, every descriptor of `initial` is still as it
/// was, and every other one is closed by an exec.
pub open spec fn rest_untouched(initial: Process, now: Process) -> bool {
    forall|fd: int|
        #![trigger now.descriptors.dom().contains(fd)]
        #![trigger initial.descriptors.dom().contains(fd)]
        !is_standard(fd) ==> {
            &&& initial.descriptors.dom().contains(fd) ==> now.descriptors.dom().contains(fd)
                && now.descriptors[fd] == initial.descriptors[fd]
            &&& now.descriptors.dom().contains(fd) && !initial.descriptors.dom().contains(fd)
                ==> now.descriptors[fd].close_on_exec
        }
}

/// Whether no descriptor of `process` leads to the master side of a
/// pseudo-terminal.
pub open spec fn holds_no_master(process: Process) -> bool {
    forall|fd: int| #[trigger]
        process.descriptors.dom().contains(fd) ==> !(process.descriptors[fd].endpoint
            is PtyMaster)
}

/// Whether `master` is the one descriptor of `process` that leads to the
/// master side of pseudo-terminal `pty`.
pub open spec fn holds_master_alone(process: Process, master: int, pty: nat) -> bool {
    &&& leads_to(process, master, Endpoint::PtyMaster(pty))
    &&& forall|fd: int| #[trigger]
        process.descriptors.dom().contains(fd) && process.descriptors[fd].endpoint
            == Endpoint::PtyMaster(pty) ==> fd == master
}

/// The slave side of pseudo-terminal `pty`, as a fork leaves it on the
/// standard descriptors of the child.
pub open spec fn slave(pty: nat) -> Descriptor {
    Descriptor { endpoint: Endpoint::PtySlave(pty), close_on_exec: false }
}

/// Whether `now` is what a launch that began in `initial` has made of its
/// process when it is at `step`.
pub open spec fn on_course(initial: Process, step: Step, now: Process) -> bool {
    let was = initial.descriptors;
    let real_stdin = was[STDIN as int].endpoint;
    let real_stdout = was[STDOUT as int].endpoint;
    let real_stderr = was[STDERR as int].endpoint;
    match step {
        Step::SaveStdin => now == initial,
        Step::SaveStderr { stdin } => {
            &&& now.ptys == 0
            &&& holds(now, STDIN as int, was[STDIN as int])
            &&& holds(now, STDOUT as int, was[STDOUT as int])
            &&& holds(now, STDERR as int, was[STDERR as int])
            &&& rest_untouched(initial, now)
            &&& holds_no_master(now)
            &&& saved_as(now, stdin as int, real_stdin)
        },
        Step::ForkStdout { stdin, stderr } => {
            &&& now.ptys == 0
            &&& holds(now, STDIN as int, was[STDIN as int])
            &&& holds(now, STDOUT as int, was[STDOUT as int])
            &&& holds(now, STDERR as int, was[STDERR as int])
            &&& rest_untouched(initial, now)
            &&& holds_no_master(now)
            &&& saved_as(now, stdin as int, real_stdin)
            &&& saved_as(now, stderr as int, real_stderr)
        },
        Step::SuperviseStdout { master, .. } => {
            &&& holds_master_alone(now, master as int, 1)
            &&& leads_to(now, STDOUT as int, real_stdout)
        },
        Step::SaveStdout { stdin, stderr } => {
            &&& now.ptys == 1
            &&& holds(now, STDIN as int, slave(1))
            &&& holds(now, STDOUT as int, slave(1))
            &&& holds(now, STDERR as int, slave(1))
            &&& rest_untouched(initial, now)
            &&& holds_no_master(now)
            &&& saved_as(now, stdin as int, real_stdin)
            &&& saved_as(now, stderr as int, real_stderr)
        },
        Step::ForkStderr { stdin, stderr, stdout } => {
            &&& now.ptys == 1
            &&& holds(now, STDIN as int, slave(1))
            &&& holds(now, STDOUT as int, slave(1))
            &&& holds(now, STDERR as int, slave(1))
            &&& rest_untouched(initial, now)
            &&& holds_no_master(now)
            &&& saved_as(now, stdin as int, real_stdin)
            &&& saved_as(now, stderr as int, real_stderr)
            &&& saved_as(now, stdout as int, Endpoint::PtySlave(1))
        },
        Step::SuperviseStderr { master, stderr, .. } => {
            &&& holds_master_alone(now, master as int, 2)
            &&& leads_to(now, stderr as int, real_stderr)
        },
        Step::RestoreStdin { stdin, stdout } => {
            &&& now.ptys == 2
            &&& holds(now, STDIN as int, slave(2))
            &&& holds(now, STDOUT as int, slave(2))
            &&& holds(now, STDERR as int, slave(2))
            &&& rest_untouched(initial, now)
            &&& holds_no_master(now)
            &&& saved_as(now, stdin as int, real_stdin)
            &&& saved_as(now, stdout as int, Endpoint::PtySlave(1))
        },
        Step::RestoreStdout { stdout } => {
            &&& now.ptys == 2
            &&& holds(now, STDIN as int, Descriptor { endpoint: real_stdin, close_on_exec: false })
            &&& holds(now, STDOUT as int, slave(2))
            &&& holds(now, STDERR as int, slave(2))
            &&& rest_untouched(initial, now)
            &&& holds_no_master(now)
            &&& saved_as(now, stdout as int, Endpoint::PtySlave(1))
        },
        Step::Exec => {
            &&& now.ptys == 2
            &&& holds(now, STDIN as int, Descriptor { endpoint: real_stdin, close_on_exec: false })
            &&& holds(now, STDOUT as int, slave(1))
            &&& holds(now, STDERR as int, slave(2))
            &&& rest_untouched(initial, now)
            &&& holds_no_master(now)
        },
        Step::Aborted { .. } => true,
    }
}

/// One step of a launch: where the process was what the launcher's step
/// says, and the operating system answers the launcher's request, the
/// process that goes on is what the launcher's next step says.
pub proof fn lemma_launch_stays_on_course(
    initial: Process,
    state: LaunchState,
    now: Process,
    event: LaunchEvent,
)
    requires
        pristine(initial),
        on_course(initial, state.step, now),
        os_allows(now, launch_action(state), event),
    ensures
        answers(launch_action(state), event),
        on_course(
            initial,
            launch_next(state, event).step,
            os_effect(now, launch_action(state), event),
        ),
{
}

/// The process that a launch has come to after all of `events`, the
/// operating system having answered each request as the event says.
pub open spec fn process_after(
    initial: Process,
    argv: Seq<Seq<u8>>,
    size: WindowSize,
    events: Seq<LaunchEvent>,
) -> Process
    decreases events.len(),
{
    if events.len() == 0 {
        initial
    } else {
        os_effect(
            process_after(initial, argv, size, events.drop_last()),
            launch_action(launch_after(argv, size, events.drop_last())),
            events.last(),
        )
    }
}

/// Whether each of `events` is an answer that the operating system can give
/// to what the launcher asked for at that point.
pub open spec fn os_allows_all(
    initial: Process,
    argv: Seq<Seq<u8>>,
    size: WindowSize,
    events: Seq<LaunchEvent>,
) -> bool
    decreases events.len(),
{
    events.len() > 0 ==> {
        &&& os_allows_all(initial, argv, size, events.drop_last())
        &&& os_allows(
            process_after(initial, argv, size, events.drop_last()),
            launch_action(launch_after(argv, size, events.drop_last())),
            events.last(),
        )
    }
}

/// At every point of every launch, the process is what the launcher's step
/// says.
pub proof fn lemma_launch_on_course(
    initial: Process,
    argv: Seq<Seq<u8>>,
    size: WindowSize,
    events: Seq<LaunchEvent>,
)
    requires
        pristine(initial),
        os_allows_all(initial, argv, size, events),
    ensures
        on_course(
            initial,
            launch_after(argv, size, events).step,
            process_after(initial, argv, size, events),
        ),
    decreases events.len(),
{
    if events.len() > 0 {
        let before = events.drop_last();
        lemma_launch_on_course(initial, argv, size, before);
        lemma_launch_stays_on_course(
            initial,
            launch_after(argv, size, before),
            process_after(initial, argv, size, before),
            events.last(),
        );
    }
}

/// What the program finds when the launch executes it: the real standard
/// input on descriptor 0, the first pseudo-terminal on descriptor 1, the
/// second one on descriptor 2, and beyond these exactly what it would have
/// found had it been executed at once. No saved copy is left, no master side
/// has come along, and two pseudo-terminals were made, no more.
pub proof fn lemma_program_descriptors(initial: Process, now: Process)
    requires
        pristine(initial),
        on_course(initial, Step::Exec, now),
    ensures
        after_exec(now).descriptors == after_exec(initial).descriptors.insert(
            STDIN as int,
            Descriptor {
                endpoint: initial.descriptors[STDIN as int].endpoint,
                close_on_exec: false,
            },
        ).insert(STDOUT as int, slave(1)).insert(STDERR as int, slave(2)),
        leads_to(after_exec(now), STDIN as int, initial.descriptors[STDIN as int].endpoint),
        leads_to(after_exec(now), STDOUT as int, Endpoint::PtySlave(1)),
        leads_to(after_exec(now), STDERR as int, Endpoint::PtySlave(2)),
        !leads_to(after_exec(now), STDOUT as int, initial.descriptors[STDOUT as int].endpoint),
        !leads_to(after_exec(now), STDERR as int, initial.descriptors[STDERR as int].endpoint),
        after_exec(now).ptys == 2,
        holds_no_master(after_exec(now)),
{
    let found = after_exec(now).descriptors;
    let expected = after_exec(initial).descriptors.insert(
        STDIN as int,
        Descriptor { endpoint: initial.descriptors[STDIN as int].endpoint, close_on_exec: false },
    ).insert(STDOUT as int, slave(1)).insert(STDERR as int, slave(2));
    assert forall|fd: int| found.dom().contains(fd) == expected.dom().contains(fd) by {
        if !is_standard(fd) {
            assert(initial.descriptors.dom().contains(fd) ==> now.descriptors.dom().contains(fd));
        }
    }
    assert(found =~= expected);
}

/// The descriptor through which a process on the way to the program still
/// reaches the real standard input.
pub open spec fn stdin_holder(step: Step) -> int {
    match step {
        Step::SaveStderr { stdin }
        | Step::ForkStdout { stdin, .. }
        | Step::SaveStdout { stdin, .. }
        | Step::ForkStderr { stdin, .. }
        | Step::RestoreStdin { stdin, .. } => stdin as int,
        _ => STDIN as int,
    }
}

/// The real standard input is never lost on the way to the program: at each
/// step some descriptor leads to it, the saved copy while a pseudo-terminal
/// is on descriptor 0, and descriptor 0 itself before and after.
pub proof fn lemma_real_stdin_stays_in_reach(initial: Process, step: Step, now: Process)
    requires
        pristine(initial),
        on_course(initial, step, now),
        !(step is SuperviseStdout),
        !(step is SuperviseStderr),
        !(step is Aborted),
    ensures
        leads_to(now, stdin_holder(step), initial.descriptors[STDIN as int].endpoint),
{
}

/// Where the two supervisors relay: the parent of the first fork reads the
/// master side of the first pseudo-terminal and writes to the real standard
/// output; the parent of the second fork reads the master side of the second
/// pseudo-terminal and writes to the real standard error, through the copy
/// that was saved of it. Each holds its master side in one descriptor only.
pub proof fn lemma_supervisors_reach_real_streams(
    initial: Process,
    state: LaunchState,
    now: Process,
)
    requires
        pristine(initial),
        on_course(initial, state.step, now),
    ensures
        state.step matches Step::SuperviseStdout { child, master } ==> {
            &&& launch_action(state) == (LaunchAction::Supervise {
                child,
                source: master,
                destination: STDOUT,
            })
            &&& holds_master_alone(now, master as int, 1)
            &&& leads_to(now, STDOUT as int, initial.descriptors[STDOUT as int].endpoint)
        },
        state.step matches Step::SuperviseStderr { child, master, stderr } ==> {
            &&& launch_action(state) == (LaunchAction::Supervise {
                child,
                source: master,
                destination: stderr,
            })
            &&& holds_master_alone(now, master as int, 2)
            &&& leads_to(now, stderr as int, initial.descriptors[STDERR as int].endpoint)
        },
{
}

} // verus!
