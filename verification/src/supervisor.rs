//! The supervisor: the process that stays behind after a fork, relays one
//! pseudo-terminal until its end, waits for the child and ends with the
//! child's exit code.

use crate::exit::{exit_code, exit_code_of, seen_above, WaitOutcome};
use crate::relay::{
    given, lemma_relay_output_is_determined, relay_action, relay_after, relay_next, relay_start,
    relay_wf, taken, Relay, RelayAction, RelayEvent, RelayPhase, RelayState,
};
use vstd::prelude::*;

verus! {

/// What the caller did for the supervisor, and how it went.
#[derive(Debug, PartialEq, Eq)]
pub enum SupervisorEvent {
    /// The outcome of a read or a write of the relay.
    Relay(RelayEvent),
    /// The wait for the child returned.
    Waited(WaitOutcome),
}

/// What the caller is to do next.
#[derive(Clone, Copy, Debug, PartialEq, Eq)]
pub enum SupervisorAction {
    /// Read from descriptor `fd`, at most `capacity` bytes.
    Read { fd: i32, capacity: usize },
    /// Write the relay's pending bytes to descriptor `fd`.
    Write { fd: i32 },
    /// Wait until the process `child` has ended.
    Wait { child: i32 },
    /// End this process with `code`.
    Exit { code: u8 },
}

/// A supervisor as the contracts see it.
pub struct SupervisorState {
    /// The process that is supervised.
    pub child: i32,
    /// The descriptor that is read: the master side of a pseudo-terminal.
    pub source: i32,
    /// The descriptor that is written: the real destination.
    pub destination: i32,
    /// The relay from `source` to `destination`.
    pub relay: RelayState,
    /// What the wait for the child reported, once it has.
    pub outcome: Option<WaitOutcome>,
}

/// A supervisor that has done nothing yet.
pub open spec fn supervisor_start(child: i32, source: i32, destination: i32) -> SupervisorState {
    SupervisorState { child, source, destination, relay: relay_start(), outcome: None }
}

/// The supervisor after `event`. The relay takes its own events; the wait's
/// outcome counts once, and only after the relay has ended. Any other event
/// changes nothing.
pub open spec fn supervisor_next(state: SupervisorState, event: SupervisorEvent) -> SupervisorState {
    match event {
        SupervisorEvent::Relay(inner) => SupervisorState {
            relay: relay_next(state.relay, inner),
            ..state
        },
        SupervisorEvent::Waited(outcome) => if state.relay.phase is Finished
            && state.outcome is None {
            SupervisorState { outcome: Some(outcome), ..state }
        } else {
            state
        },
    }
}

/// What a supervisor in `state` asks its caller to do: the relay's reads
/// and writes until it has ended, then the wait, then the exit.
pub open spec fn supervisor_action(state: SupervisorState) -> SupervisorAction {
    match relay_action(state.relay) {
        RelayAction::Read { capacity } => SupervisorAction::Read { fd: state.source, capacity },
        RelayAction::Write => SupervisorAction::Write { fd: state.destination },
        RelayAction::Stop => match state.outcome {
            None => SupervisorAction::Wait { child: state.child },
            Some(outcome) => SupervisorAction::Exit { code: exit_code_of(outcome) },
        },
    }
}

/// The supervisor after all of `events`, from a fresh one on.
pub open spec fn supervisor_after(
    child: i32,
    source: i32,
    destination: i32,
    events: Seq<SupervisorEvent>,
) -> SupervisorState
    decreases events.len(),
{
    if events.len() == 0 {
        supervisor_start(child, source, destination)
    } else {
        supervisor_next(
            supervisor_after(child, source, destination, events.drop_last()),
            events.last(),
        )
    }
}

/// The relay's own events among `events`, in order.
pub open spec fn relay_events(events: Seq<SupervisorEvent>) -> Seq<RelayEvent>
    decreases events.len(),
{
    if events.len() == 0 {
        Seq::empty()
    } else {
        match events.last() {
            SupervisorEvent::Relay(inner) => relay_events(events.drop_last()).push(inner),
            SupervisorEvent::Waited(_) => relay_events(events.drop_last()),
        }
    }
}

/// A supervisor's relay is a relay like any other: it is where its own
/// events have brought it, whatever the supervisor was told besides, and the
/// supervisor never changes whom it supervises, what it reads or where it
/// writes.
pub proof fn lemma_supervisor_relay(
    child: i32,
    source: i32,
    destination: i32,
    events: Seq<SupervisorEvent>,
)
    ensures
        supervisor_after(child, source, destination, events).relay == relay_after(
            relay_events(events),
        ),
        supervisor_after(child, source, destination, events).child == child,
        supervisor_after(child, source, destination, events).source == source,
        supervisor_after(child, source, destination, events).destination == destination,
    decreases events.len(),
{
    if events.len() > 0 {
        lemma_supervisor_relay(child, source, destination, events.drop_last());
        match events.last() {
            SupervisorEvent::Relay(inner) => {
                let before = relay_events(events.drop_last());
                assert(before.push(inner).drop_last() =~= before);
            },
            SupervisorEvent::Waited(_) => {},
        }
    }
}

/// Once the relay has ended, the wait's outcome decides the exit code: the
/// child's own code where it ended by itself, else 0.
pub proof fn lemma_supervisor_exits_with_child_code(state: SupervisorState, outcome: WaitOutcome)
    requires
        state.relay.phase is Finished,
        state.outcome is None,
    ensures
        supervisor_action(state) == (SupervisorAction::Wait { child: state.child }),
        supervisor_action(supervisor_next(state, SupervisorEvent::Waited(outcome))) == (
        SupervisorAction::Exit { code: exit_code_of(outcome) }),
{
}

/// A supervisor that is about to exit stays so, with the same code, whatever
/// is reported to it.
pub proof fn lemma_supervisor_exit_is_final(state: SupervisorState, event: SupervisorEvent)
    requires
        supervisor_action(state) is Exit,
    ensures
        supervisor_next(state, event) == state,
{
}

/// A supervisor neither waits nor exits before its relay has ended.
pub proof fn lemma_supervisor_relays_first(state: SupervisorState)
    ensures
        supervisor_action(state) is Wait || supervisor_action(state) is Exit
            ==> state.relay.phase is Finished,
        state.relay.phase is Finished ==> supervisor_action(state) is Wait || supervisor_action(
            state,
        ) is Exit,
{
}

/// The program's end comes through two supervisors, one above the other: the
/// outer one ends with the program's own exit code where the program ended
/// by itself, and with 0 where it did not.
pub proof fn lemma_exit_code_reaches_top(
    inner: SupervisorState,
    outer: SupervisorState,
    program: WaitOutcome,
)
    requires
        inner.relay.phase is Finished,
        inner.outcome is None,
        outer.relay.phase is Finished,
        outer.outcome is None,
    ensures
        ({
            let inner_done = supervisor_next(inner, SupervisorEvent::Waited(program));
            let outer_done = supervisor_next(outer, SupervisorEvent::Waited(seen_above(program)));
            &&& supervisor_action(inner_done) == (SupervisorAction::Exit {
                code: exit_code_of(program),
            })
            &&& supervisor_action(outer_done) == (SupervisorAction::Exit {
                code: exit_code_of(program),
            })
            &&& program matches WaitOutcome::Exited(code) ==> exit_code_of(program) == code
            &&& !(program is Exited) ==> exit_code_of(program) == 0
        }),
{
}

/// Two runs of a program that does the same both times come out the same:
/// where two supervisors took in the same bytes, have nothing left to write
/// and were told the same of their child, they gave the same bytes to their
/// destinations and end with the same exit code, however the reads and writes
/// were split and whichever processes and descriptors were involved. Each
/// supervisor is given by its child, its source and its destination.
pub proof fn lemma_same_program_same_result(
    first: (i32, i32, i32),
    first_events: Seq<SupervisorEvent>,
    second: (i32, i32, i32),
    second_events: Seq<SupervisorEvent>,
)
    requires
        taken(relay_events(first_events)) == taken(relay_events(second_events)),
        supervisor_after(first.0, first.1, first.2, first_events).relay.pending.len() == 0,
        supervisor_after(second.0, second.1, second.2, second_events).relay.pending.len() == 0,
        supervisor_after(first.0, first.1, first.2, first_events).outcome == supervisor_after(
            second.0,
            second.1,
            second.2,
            second_events,
        ).outcome,
        supervisor_action(supervisor_after(first.0, first.1, first.2, first_events)) is Exit,
        supervisor_action(supervisor_after(second.0, second.1, second.2, second_events)) is Exit,
    ensures
        given(relay_events(first_events)) == given(relay_events(second_events)),
        supervisor_action(supervisor_after(first.0, first.1, first.2, first_events))
            == supervisor_action(supervisor_after(second.0, second.1, second.2, second_events)),
{
    lemma_supervisor_relay(first.0, first.1, first.2, first_events);
    lemma_supervisor_relay(second.0, second.1, second.2, second_events);
    lemma_relay_output_is_determined(relay_events(first_events), relay_events(second_events));
}

/// The state machine of one supervisor.
pub struct Supervisor {
    child: i32,
    source: i32,
    destination: i32,
    relay: Relay,
    outcome: Option<WaitOutcome>,
}

impl View for Supervisor {
    type V = SupervisorState;

    closed spec fn view(&self) -> SupervisorState {
        SupervisorState {
            child: self.child,
            source: self.source,
            destination: self.destination,
            relay: self.relay@,
            outcome: self.outcome,
        }
    }
}

impl Supervisor {
    /// The supervisor of process `child`, which relays from `source` to
    /// `destination`.
    pub fn new(child: i32, source: i32, destination: i32) -> (supervisor: Supervisor)
        ensures
            supervisor@ == supervisor_start(child, source, destination),
    {
        Supervisor { child, source, destination, relay: Relay::new(), outcome: None }
    }

    /// What the caller is to do next.
    pub fn action(&self) -> (action: SupervisorAction)
        ensures
            action == supervisor_action(self@),
            relay_wf(self@.relay),
    {
        match self.relay.action() {
            RelayAction::Read { capacity } => SupervisorAction::Read { fd: self.source, capacity },
            RelayAction::Write => SupervisorAction::Write { fd: self.destination },
            RelayAction::Stop => match self.outcome {
                None => SupervisorAction::Wait { child: self.child },
                Some(outcome) => SupervisorAction::Exit { code: exit_code(outcome) },
            },
        }
    }

    /// The bytes that a write is to offer to the destination: those read
    /// that no write has taken yet.
    pub fn pending(&self) -> (bytes: &[u8])
        ensures
            bytes@ == self@.relay.pending,
            relay_wf(self@.relay),
    {
        self.relay.pending()
    }

    /// Takes in what the caller reports and says what to do next.
    pub fn advance(&mut self, event: SupervisorEvent) -> (action: SupervisorAction)
        ensures
            final(self)@ == supervisor_next(old(self)@, event),
            action == supervisor_action(final(self)@),
            relay_wf(final(self)@.relay),
    {
        match event {
            SupervisorEvent::Relay(inner) => {
                let _ = self.relay.advance(inner);
            },
            SupervisorEvent::Waited(outcome) => {
                let finished = match self.relay.phase() {
                    RelayPhase::Finished(_) => true,
                    _ => false,
                };
                if finished && self.outcome.is_none() {
                    self.outcome = Some(outcome);
                }
            },
        }
        self.action()
    }
}

} // verus!
