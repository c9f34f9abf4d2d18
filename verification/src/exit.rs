//! From a child's wait status to the exit code of its supervisor.

use vstd::prelude::*;

verus! {

/// What waiting for a child reported.
#[derive(Clone, Copy, Debug, PartialEq, Eq)]
pub enum WaitOutcome {
    /// The child ended by itself, with this exit code.
    Exited(u8),
    /// The child was ended by this signal.
    Signaled(i32),
    /// The child was stopped by this signal.
    Stopped(i32),
    /// The child was stopped by a tracer.
    Traced,
    /// The child was resumed.
    Continued,
    /// The child has not changed state.
    StillAlive,
    /// The wait itself failed.
    Failed,
}

/// The exit code that a supervisor passes on: the child's own code where it
/// ended by itself, and 0 after anything else.
pub open spec fn exit_code_of(outcome: WaitOutcome) -> u8 {
    match outcome {
        WaitOutcome::Exited(code) => code,
        _ => 0,
    }
}

/// The exit code with which a supervisor ends after its child was waited for.
pub fn exit_code(outcome: WaitOutcome) -> (code: u8)
    ensures
        code == exit_code_of(outcome),
{
    match outcome {
        WaitOutcome::Exited(code) => code,
        _ => 0,
    }
}

/// What the parent of a supervisor is told by its own wait, once that
/// supervisor has ended with the code it owes for `outcome`.
pub open spec fn seen_above(outcome: WaitOutcome) -> WaitOutcome {
    WaitOutcome::Exited(exit_code_of(outcome))
}

/// What is seen above `supervisors` supervisors, one the child of the next,
/// the lowest of which has a child that ended with `outcome`.
pub open spec fn seen_through(outcome: WaitOutcome, supervisors: nat) -> WaitOutcome
    decreases supervisors,
{
    if supervisors == 0 {
        outcome
    } else {
        seen_above(seen_through(outcome, (supervisors - 1) as nat))
    }
}

/// A code with which the program ends by itself comes through every number
/// of supervisors unchanged.
pub proof fn lemma_exit_code_survives_chain(code: u8, supervisors: nat)
    ensures
        exit_code_of(seen_through(WaitOutcome::Exited(code), supervisors)) == code,
    decreases supervisors,
{
    if supervisors > 0 {
        lemma_exit_code_survives_chain(code, (supervisors - 1) as nat);
    }
}

/// A program that was ended by a signal, or did not end by itself for any
/// other reason, counts as exit code 0 above every number of supervisors.
pub proof fn lemma_abnormal_end_is_zero(outcome: WaitOutcome, supervisors: nat)
    requires
        !(outcome is Exited),
    ensures
        exit_code_of(seen_through(outcome, supervisors)) == 0,
    decreases supervisors,
{
    if supervisors > 0 {
        lemma_abnormal_end_is_zero(outcome, (supervisors - 1) as nat);
    }
}

} // verus!
