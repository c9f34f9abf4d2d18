//! The launch: two forks in a row, each with a pseudo-terminal of its own,
//! then the program, with the real standard input, the first
//! pseudo-terminal as standard output and the second as standard error.
//!
//! The launcher decides; its caller makes the system calls. After each call
//! the caller reports what happened as a [`LaunchEvent`] and is told what to
//! do next as a [`LaunchAction`].

use crate::descriptors::{STDERR, STDIN, STDOUT};
use crate::error::Error;
use crate::supervisor::{supervisor_start, Supervisor};
use crate::window::WindowSize;
use vstd::prelude::*;

verus! {

/// Which side of a fork a process finds itself on.
#[derive(Clone, Copy, Debug, PartialEq, Eq)]
pub enum Role {
    /// The process that forked: it knows its child and holds the master side
    /// of the new pseudo-terminal.
    Parent { child: i32, master: i32 },
    /// The new process: the slave side of the new pseudo-terminal is its
    /// controlling terminal and its three standard descriptors.
    Child,
}

/// What the caller did for the launcher, and how it went.
#[derive(Debug)]
pub enum LaunchEvent {
    /// A descriptor was duplicated, and this is the copy.
    Saved(i32),
    /// The fork succeeded, and this process is on that side of it.
    Forked(Role),
    /// A saved descriptor was put back in place.
    Restored,
    /// The call failed.
    Failed(Error),
}

/// What the caller is to do next.
#[derive(Clone, Copy, Debug, PartialEq, Eq)]
pub enum LaunchAction {
    /// Duplicate `fd`, the copy to be closed by an exec, and report the copy.
    Save { fd: i32 },
    /// Make a pseudo-terminal with this window size and fork, the child on
    /// its slave side, and report the role.
    ForkPty { size: WindowSize },
    /// Stay behind as the supervisor of `child`: relay from `source` to
    /// `destination` until the end, wait for the child and exit with its
    /// code. Nothing is reported after this.
    Supervise { child: i32, source: i32, destination: i32 },
    /// Put `saved` onto descriptor `onto`, and report it.
    Restore { saved: i32, onto: i32 },
    /// Execute the program with its arguments. Only a failure is reported.
    Exec,
    /// Give up: print the line that reports the error, and end this process
    /// with exit code `code`.
    Abort { code: u8 },
}

/// The exit code of a process that gives up the launch: 1.
pub const ABORT_CODE: u8 = 1;

/// What kind of call a launch failed on.
#[derive(Clone, Copy, Debug, PartialEq, Eq)]
pub enum Failure {
    /// A descriptor could not be duplicated or put back.
    Descriptor,
    /// The pseudo-terminal could not be made, or the process could not be
    /// forked: one call does both.
    Fork,
    /// The program could not be found or executed.
    Exec,
}

/// How far a launch has come: the call whose outcome is awaited, with the
/// saved descriptors that are still needed.
#[derive(Clone, Copy, Debug, PartialEq, Eq)]
pub enum Step {
    /// Saving the real standard input.
    SaveStdin,
    /// Saving the real standard error.
    SaveStderr { stdin: i32 },
    /// Forking with the pseudo-terminal for standard output.
    ForkStdout { stdin: i32, stderr: i32 },
    /// Parent of the first fork: relaying the first pseudo-terminal to the
    /// real standard output.
    SuperviseStdout { child: i32, master: i32 },
    /// Child of the first fork: saving standard output, which is the first
    /// pseudo-terminal now.
    SaveStdout { stdin: i32, stderr: i32 },
    /// Forking with the pseudo-terminal for standard error.
    ForkStderr { stdin: i32, stderr: i32, stdout: i32 },
    /// Parent of the second fork: relaying the second pseudo-terminal to the
    /// saved real standard error.
    SuperviseStderr { child: i32, master: i32, stderr: i32 },
    /// Child of the second fork: putting the real standard input back.
    RestoreStdin { stdin: i32, stdout: i32 },
    /// Putting the first pseudo-terminal back on standard output.
    RestoreStdout { stdout: i32 },
    /// Executing the program.
    Exec,
    /// The launch was given up.
    Aborted { failure: Failure },
}

/// A launcher as the contracts see it.
pub struct LaunchState {
    /// How far the launch has come.
    pub step: Step,
    /// The program and its arguments.
    pub argv: Seq<Seq<u8>>,
    /// The window size of both pseudo-terminals.
    pub size: WindowSize,
    /// The error that the launch was given up for, once it was.
    pub error: Option<Error>,
}

/// A launch of `argv` of which nothing has happened yet.
pub open spec fn launch_start(argv: Seq<Seq<u8>>, size: WindowSize) -> LaunchState {
    LaunchState { step: Step::SaveStdin, argv, size, error: None }
}

/// What a launcher at `step` asks its caller to do.
pub open spec fn step_action(step: Step, size: WindowSize) -> LaunchAction {
    match step {
        Step::SaveStdin => LaunchAction::Save { fd: STDIN },
        Step::SaveStderr { .. } => LaunchAction::Save { fd: STDERR },
        Step::ForkStdout { .. } => LaunchAction::ForkPty { size },
        Step::SuperviseStdout { child, master } => LaunchAction::Supervise {
            child,
            source: master,
            destination: STDOUT,
        },
        Step::SaveStdout { .. } => LaunchAction::Save { fd: STDOUT },
        Step::ForkStderr { .. } => LaunchAction::ForkPty { size },
        Step::SuperviseStderr { child, master, stderr } => LaunchAction::Supervise {
            child,
            source: master,
            destination: stderr,
        },
        Step::RestoreStdin { stdin, .. } => LaunchAction::Restore { saved: stdin, onto: STDIN },
        Step::RestoreStdout { stdout } => LaunchAction::Restore { saved: stdout, onto: STDOUT },
        Step::Exec => LaunchAction::Exec,
        Step::Aborted { .. } => LaunchAction::Abort { code: ABORT_CODE },
    }
}

/// What a launcher in `state` asks its caller to do.
pub open spec fn launch_action(state: LaunchState) -> LaunchAction {
    step_action(state.step, state.size)
}

/// Whether `event` can be the answer to `action`: a copy to a save, a role
/// to a fork, a completion to a restore, and a failure to any of them and to
/// the exec. Nothing answers a supervision or an abort.
pub open spec fn answers(action: LaunchAction, event: LaunchEvent) -> bool {
    match action {
        LaunchAction::Save { .. } => event is Saved || event is Failed,
        LaunchAction::ForkPty { .. } => event is Forked || event is Failed,
        LaunchAction::Restore { .. } => event is Restored || event is Failed,
        LaunchAction::Exec => event is Failed,
        LaunchAction::Supervise { .. } => false,
        LaunchAction::Abort { .. } => false,
    }
}

/// The kind of failure that a failed call at `step` is.
pub open spec fn failure_at(step: Step) -> Failure {
    match step {
        Step::ForkStdout { .. } | Step::ForkStderr { .. } => Failure::Fork,
        Step::Exec => Failure::Exec,
        _ => Failure::Descriptor,
    }
}

/// The step after `event`, where `event` answers what `step` asks for.
pub open spec fn step_next(step: Step, event: LaunchEvent) -> Step {
    match event {
        LaunchEvent::Failed(_) => Step::Aborted { failure: failure_at(step) },
        LaunchEvent::Saved(copy) => match step {
            Step::SaveStdin => Step::SaveStderr { stdin: copy },
            Step::SaveStderr { stdin } => Step::ForkStdout { stdin, stderr: copy },
            Step::SaveStdout { stdin, stderr } => Step::ForkStderr { stdin, stderr, stdout: copy },
            _ => step,
        },
        LaunchEvent::Forked(Role::Parent { child, master }) => match step {
            Step::ForkStdout { .. } => Step::SuperviseStdout { child, master },
            Step::ForkStderr { stderr, .. } => Step::SuperviseStderr { child, master, stderr },
            _ => step,
        },
        LaunchEvent::Forked(Role::Child) => match step {
            Step::ForkStdout { stdin, stderr } => Step::SaveStdout { stdin, stderr },
            Step::ForkStderr { stdin, stdout, .. } => Step::RestoreStdin { stdin, stdout },
            _ => step,
        },
        LaunchEvent::Restored => match step {
            Step::RestoreStdin { stdout, .. } => Step::RestoreStdout { stdout },
            Step::RestoreStdout { .. } => Step::Exec,
            _ => step,
        },
    }
}

/// The launcher after `event`. An event that is no answer to what the
/// launcher asked for changes nothing; a failure ends the launch and is
/// kept.
pub open spec fn launch_next(state: LaunchState, event: LaunchEvent) -> LaunchState {
    if !answers(launch_action(state), event) {
        state
    } else {
        LaunchState {
            step: step_next(state.step, event),
            error: match event {
                LaunchEvent::Failed(error) => Some(error),
                _ => state.error,
            },
            ..state
        }
    }
}

/// What holds of every launcher: there is a program to run, and an error is
/// kept exactly when the launch was given up.
pub open spec fn launch_wf(state: LaunchState) -> bool {
    &&& state.argv.len() > 0
    &&& state.step is Aborted <==> state.error is Some
}

/// The launcher after all of `events`, from the start on.
pub open spec fn launch_after(argv: Seq<Seq<u8>>, size: WindowSize, events: Seq<LaunchEvent>)
    -> LaunchState
    decreases events.len(),
{
    if events.len() == 0 {
        launch_start(argv, size)
    } else {
        launch_next(launch_after(argv, size, events.drop_last()), events.last())
    }
}

/// Whatever was reported to it, a launcher that was given a program keeps an
/// error exactly when it has given the launch up.
pub proof fn lemma_launch_wf(argv: Seq<Seq<u8>>, size: WindowSize, events: Seq<LaunchEvent>)
    requires
        argv.len() > 0,
    ensures
        launch_wf(launch_after(argv, size, events)),
        launch_after(argv, size, events).argv == argv,
        launch_after(argv, size, events).size == size,
    decreases events.len(),
{
    if events.len() > 0 {
        lemma_launch_wf(argv, size, events.drop_last());
    }
}

/// A failed call ends the launch at once: whatever the launcher was waiting
/// for, it gives up with the kind of failure that belongs to that call, and
/// keeps the error.
pub proof fn lemma_failure_aborts(state: LaunchState, error: Error)
    requires
        !(launch_action(state) is Supervise),
        !(launch_action(state) is Abort),
    ensures
        launch_next(state, LaunchEvent::Failed(error)).step == (Step::Aborted {
            failure: failure_at(state.step),
        }),
        launch_next(state, LaunchEvent::Failed(error)).error == Some(error),
        launch_action(launch_next(state, LaunchEvent::Failed(error))) == (LaunchAction::Abort {
            code: 1,
        }),
{
}

/// A process becomes a supervisor only as the parent of a fork that
/// succeeded: no relay begins before.
pub proof fn lemma_supervision_follows_fork(state: LaunchState, event: LaunchEvent)
    requires
        !(launch_action(state) is Supervise),
        launch_action(launch_next(state, event)) is Supervise,
    ensures
        launch_action(state) is ForkPty,
        event matches LaunchEvent::Forked(Role::Parent { child, master }) && launch_action(
            launch_next(state, event),
        ) matches LaunchAction::Supervise { child: supervised, source, .. } && supervised == child
            && source == master,
{
}

/// The state machine of one launch.
pub struct Launcher {
    step: Step,
    argv: Vec<Vec<u8>>,
    size: WindowSize,
    error: Option<Error>,
}

impl View for Launcher {
    type V = LaunchState;

    closed spec fn view(&self) -> LaunchState {
        LaunchState {
            step: self.step,
            argv: self.argv.deep_view(),
            size: self.size,
            error: if self.step is Aborted {
                self.error
            } else {
                None
            },
        }
    }
}

impl Launcher {
    #[verifier::type_invariant]
    spec fn inv(&self) -> bool {
        &&& self.argv.len() > 0
        &&& self.step is Aborted ==> self.error is Some
    }

    /// The launcher of the program `argv[0]` with the arguments behind it,
    /// on pseudo-terminals of the given size; none where `argv` is empty.
    pub fn new(argv: Vec<Vec<u8>>, size: WindowSize) -> (launcher: Option<Launcher>)
        ensures
            match launcher {
                Some(launcher) => argv.len() > 0 && launcher@ == launch_start(
                    argv.deep_view(),
                    size,
                ),
                None => argv.len() == 0,
            },
    {
        if argv.len() == 0 {
            None
        } else {
            Some(Launcher { step: Step::SaveStdin, argv, size, error: None })
        }
    }

    /// How far the launch has come.
    pub fn step(&self) -> (step: Step)
        ensures
            step == self@.step,
            launch_wf(self@),
    {
        proof {
            use_type_invariant(self);
        }
        self.step
    }

    /// The window size of both pseudo-terminals.
    pub fn size(&self) -> (size: WindowSize)
        ensures
            size == self@.size,
    {
        self.size
    }

    /// The program and its arguments, as given.
    pub fn argv(&self) -> (argv: &Vec<Vec<u8>>)
        ensures
            argv.deep_view() == self@.argv,
            argv.len() > 0,
    {
        proof {
            use_type_invariant(self);
        }
        &self.argv
    }

    /// The program to run: the first of the arguments.
    pub fn program(&self) -> (program: &Vec<u8>)
        ensures
            program@ == self@.argv[0],
    {
        proof {
            use_type_invariant(self);
        }
        &self.argv[0]
    }

    /// The error that the launch was given up for, once it was.
    pub fn error(&self) -> (error: Option<&Error>)
        ensures
            self@.error matches Some(kept) ==> error == Some(&kept),
            self@.error is None ==> error is None,
            launch_wf(self@),
    {
        proof {
            use_type_invariant(self);
        }
        match self.step {
            Step::Aborted { .. } => self.error.as_ref(),
            _ => None,
        }
    }

    /// Ends the launcher and hands out the error that the launch was given
    /// up for, if it was.
    pub fn into_error(self) -> (error: Option<Error>)
        ensures
            error == self@.error,
            launch_wf(self@),
    {
        proof {
            use_type_invariant(&self);
        }
        match self.step {
            Step::Aborted { .. } => self.error,
            _ => None,
        }
    }

    /// What the caller is to do next.
    pub fn action(&self) -> (action: LaunchAction)
        ensures
            action == launch_action(self@),
            launch_wf(self@),
    {
        proof {
            use_type_invariant(self);
        }
        match self.step {
            Step::SaveStdin => LaunchAction::Save { fd: STDIN },
            Step::SaveStderr { .. } => LaunchAction::Save { fd: STDERR },
            Step::ForkStdout { .. } => LaunchAction::ForkPty { size: self.size },
            Step::SuperviseStdout { child, master } => LaunchAction::Supervise {
                child,
                source: master,
                destination: STDOUT,
            },
            Step::SaveStdout { .. } => LaunchAction::Save { fd: STDOUT },
            Step::ForkStderr { .. } => LaunchAction::ForkPty { size: self.size },
            Step::SuperviseStderr { child, master, stderr } => LaunchAction::Supervise {
                child,
                source: master,
                destination: stderr,
            },
            Step::RestoreStdin { stdin, .. } => LaunchAction::Restore { saved: stdin, onto: STDIN },
            Step::RestoreStdout { stdout } => LaunchAction::Restore { saved: stdout, onto: STDOUT },
            Step::Exec => LaunchAction::Exec,
            Step::Aborted { .. } => LaunchAction::Abort { code: ABORT_CODE },
        }
    }

    /// The supervisor that this process is to be, where the launcher asks for
    /// one: the parent of a fork. None at every other step.
    pub fn supervisor(&self) -> (supervisor: Option<Supervisor>)
        ensures
            match launch_action(self@) {
                LaunchAction::Supervise { child, source, destination } => supervisor matches Some(
                    made,
                ) && made@ == supervisor_start(child, source, destination),
                _ => supervisor is None,
            },
    {
        match self.action() {
            LaunchAction::Supervise { child, source, destination } => Some(
                Supervisor::new(child, source, destination),
            ),
            _ => None,
        }
    }

    /// Takes in what the caller reports and says what to do next.
    pub fn advance(&mut self, event: LaunchEvent) -> (action: LaunchAction)
        ensures
            final(self)@ == launch_next(old(self)@, event),
            action == launch_action(final(self)@),
            launch_wf(final(self)@),
    {
        proof {
            use_type_invariant(&*self);
        }
        let step = self.step;
        match event {
            LaunchEvent::Failed(error) => {
                let failure = match step {
                    Step::SuperviseStdout { .. }
                    | Step::SuperviseStderr { .. }
                    | Step::Aborted { .. } => None,
                    Step::ForkStdout { .. } | Step::ForkStderr { .. } => Some(Failure::Fork),
                    Step::Exec => Some(Failure::Exec),
                    _ => Some(Failure::Descriptor),
                };
                if let Some(failure) = failure {
                    self.error = Some(error);
                    self.step = Step::Aborted { failure };
                }
            },
            LaunchEvent::Saved(copy) => match step {
                Step::SaveStdin => {
                    self.step = Step::SaveStderr { stdin: copy };
                },
                Step::SaveStderr { stdin } => {
                    self.step = Step::ForkStdout { stdin, stderr: copy };
                },
                Step::SaveStdout { stdin, stderr } => {
                    self.step = Step::ForkStderr { stdin, stderr, stdout: copy };
                },
                _ => {},
            },
            LaunchEvent::Forked(Role::Parent { child, master }) => match step {
                Step::ForkStdout { .. } => {
                    self.step = Step::SuperviseStdout { child, master };
                },
                Step::ForkStderr { stderr, .. } => {
                    self.step = Step::SuperviseStderr { child, master, stderr };
                },
                _ => {},
            },
            LaunchEvent::Forked(Role::Child) => match step {
                Step::ForkStdout { stdin, stderr } => {
                    self.step = Step::SaveStdout { stdin, stderr };
                },
                Step::ForkStderr { stdin, stdout, .. } => {
                    self.step = Step::RestoreStdin { stdin, stdout };
                },
                _ => {},
            },
            LaunchEvent::Restored => match step {
                Step::RestoreStdin { stdout, .. } => {
                    self.step = Step::RestoreStdout { stdout };
                },
                Step::RestoreStdout { .. } => {
                    self.step = Step::Exec;
                },
                _ => {},
            },
        }
        self.action()
    }
}

} // verus!
