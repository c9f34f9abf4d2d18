//! Runs a program so that its standard output and standard error are each a
//! pseudo-terminal of their own, while what it writes still reaches the real,
//! possibly redirected, destinations.
//!
//! The crate holds the decisions of that launch as verified state machines:
//! the caller performs the operating-system calls that a machine asks for and
//! reports what came back.
//!
//! - [`launch`]: the launcher, from saving the real descriptors over two forks
//!   to the exec.
//! - [`supervisor`]: what the parent of each fork does: relay, wait, exit.
//! - [`relay`]: the bytes of one pseudo-terminal on their way to the real
//!   destination.
//! - [`exit`]: from a child's end to the supervisor's exit code.
//! - [`window`]: the size that the pseudo-terminals are given.
//! - [`error`]: what a failed call leaves behind, and the line that reports
//!   it.
//! - [`descriptors`] and [`course`]: the descriptor table of a process, and
//!   the proof that the launcher's steps put the right thing on each
//!   standard descriptor.

use vstd::prelude::*;

pub mod course;
pub mod descriptors;
pub mod error;
pub mod exit;
pub mod launch;
pub mod relay;
pub mod supervisor;
pub mod window;

pub use crate::error::{diagnostic_line, Error};
pub use crate::exit::{exit_code, WaitOutcome};
pub use crate::launch::{Failure, LaunchAction, LaunchEvent, Launcher, Role, Step, ABORT_CODE};
pub use crate::relay::{Relay, RelayAction, RelayEnd, RelayEvent, RelayPhase, RELAY_CAPACITY};
pub use crate::supervisor::{Supervisor, SupervisorAction, SupervisorEvent};
pub use crate::window::WindowSize;

verus! {

/// The value of a launch that has replaced the process image.
///
/// There is none: once the program runs, nothing of the launcher is left to
/// receive it, and the one variant cannot be built.
pub enum Exec {
    /// Never built: there is no value of what it holds.
    Replaced(core::convert::Infallible),
}

} // verus!
