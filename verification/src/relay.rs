//! The byte relay: what is read from a pseudo-terminal's master side goes to
//! the real destination, unchanged and in order.
//!
//! The relay decides; its caller reads and writes. After each operation the
//! caller reports what happened as a [`RelayEvent`] and is told what to do
//! next as a [`RelayAction`].

use vstd::prelude::*;
use vstd::slice::slice_subrange;

verus! {

/// How many bytes one read may bring at most.
pub const RELAY_CAPACITY: usize = 4096;

/// Why a relay came to its end.
#[derive(Clone, Copy, Debug, PartialEq, Eq)]
pub enum RelayEnd {
    /// A read brought no bytes: the other side is closed.
    EndOfInput,
    /// A read failed.
    ReadFailed,
    /// A write failed. What was still to be written is lost.
    WriteFailed,
}

/// What a relay is about to do.
#[derive(Clone, Copy, Debug, PartialEq, Eq)]
pub enum RelayPhase {
    /// Nothing is held; the next bytes are to be read.
    Reading,
    /// Bytes are held that the destination has not taken yet.
    Writing,
    /// The relay has ended.
    Finished(RelayEnd),
}

/// What the caller did for the relay, and how it went.
#[derive(Debug, PartialEq, Eq)]
pub enum RelayEvent {
    /// A read succeeded and brought these bytes; none at the end of input.
    Read(Vec<u8>),
    /// A read failed.
    ReadFailed,
    /// A write succeeded and took this many of the pending bytes, from the
    /// first one on.
    Wrote(usize),
    /// A write failed.
    WriteFailed,
}

/// What the caller is to do next.
#[derive(Clone, Copy, Debug, PartialEq, Eq)]
pub enum RelayAction {
    /// Read from the source, at most `capacity` bytes.
    Read { capacity: usize },
    /// Write the pending bytes to the destination.
    Write,
    /// Nothing more: the relay has ended.
    Stop,
}

/// A relay as the contracts see it.
pub struct RelayState {
    /// What the relay is about to do.
    pub phase: RelayPhase,
    /// The bytes read that no write has taken yet, in the order read.
    pub pending: Seq<u8>,
}

/// A relay that has not read anything yet.
pub open spec fn relay_start() -> RelayState {
    RelayState { phase: RelayPhase::Reading, pending: Seq::empty() }
}

/// Whether `event` can be the answer to what `state` asks for: the outcome
/// of a read while reading, the outcome of a write while writing, and a write
/// takes no more than is pending.
pub open spec fn relay_admits(state: RelayState, event: RelayEvent) -> bool {
    match state.phase {
        RelayPhase::Reading => event is Read || event is ReadFailed,
        RelayPhase::Writing => match event {
            RelayEvent::Wrote(count) => count <= state.pending.len(),
            RelayEvent::WriteFailed => true,
            _ => false,
        },
        RelayPhase::Finished(_) => false,
    }
}

/// The relay after `event`. An event that is no answer to what the relay
/// asked for changes nothing.
pub open spec fn relay_next(state: RelayState, event: RelayEvent) -> RelayState {
    if !relay_admits(state, event) {
        state
    } else {
        match event {
            RelayEvent::Read(bytes) => if bytes@.len() == 0 {
                RelayState { phase: RelayPhase::Finished(RelayEnd::EndOfInput), pending: state.pending }
            } else {
                RelayState { phase: RelayPhase::Writing, pending: state.pending + bytes@ }
            },
            RelayEvent::ReadFailed => RelayState {
                phase: RelayPhase::Finished(RelayEnd::ReadFailed),
                pending: state.pending,
            },
            RelayEvent::Wrote(count) => RelayState {
                phase: if count == state.pending.len() {
                    RelayPhase::Reading
                } else {
                    RelayPhase::Writing
                },
                pending: state.pending.skip(count as int),
            },
            RelayEvent::WriteFailed => RelayState {
                phase: RelayPhase::Finished(RelayEnd::WriteFailed),
                pending: state.pending,
            },
        }
    }
}

/// What a relay in `state` asks its caller to do.
pub open spec fn relay_action(state: RelayState) -> RelayAction {
    match state.phase {
        RelayPhase::Reading => RelayAction::Read { capacity: RELAY_CAPACITY },
        RelayPhase::Writing => RelayAction::Write,
        RelayPhase::Finished(_) => RelayAction::Stop,
    }
}

/// What holds of every relay: it reads only when nothing is pending, and
/// writes only when something is.
pub open spec fn relay_wf(state: RelayState) -> bool {
    &&& state.phase is Reading ==> state.pending.len() == 0
    &&& state.phase is Writing ==> state.pending.len() > 0
    &&& state.phase matches RelayPhase::Finished(end) ==> end is WriteFailed
        || state.pending.len() == 0
}

/// The relay after all of `events`, from a fresh one on.
pub open spec fn relay_after(events: Seq<RelayEvent>) -> RelayState
    decreases events.len(),
{
    if events.len() == 0 {
        relay_start()
    } else {
        relay_next(relay_after(events.drop_last()), events.last())
    }
}

/// The bytes that `event` brings in from the source.
pub open spec fn taken_by(state: RelayState, event: RelayEvent) -> Seq<u8> {
    match event {
        RelayEvent::Read(bytes) if relay_admits(state, event) => bytes@,
        _ => Seq::empty(),
    }
}

/// The bytes that `event` hands to the destination.
pub open spec fn given_by(state: RelayState, event: RelayEvent) -> Seq<u8> {
    match event {
        RelayEvent::Wrote(count) if relay_admits(state, event) => state.pending.take(count as int),
        _ => Seq::empty(),
    }
}

/// All bytes that came in from the source during `events`, in order.
pub open spec fn taken(events: Seq<RelayEvent>) -> Seq<u8>
    decreases events.len(),
{
    if events.len() == 0 {
        Seq::empty()
    } else {
        taken(events.drop_last()) + taken_by(relay_after(events.drop_last()), events.last())
    }
}

/// All bytes that the destination took during `events`, in order.
pub open spec fn given(events: Seq<RelayEvent>) -> Seq<u8>
    decreases events.len(),
{
    if events.len() == 0 {
        Seq::empty()
    } else {
        given(events.drop_last()) + given_by(relay_after(events.drop_last()), events.last())
    }
}

/// Whatever was reported to it, a relay reads only when nothing is pending
/// and writes only when something is.
pub proof fn lemma_relay_wf(events: Seq<RelayEvent>)
    ensures
        relay_wf(relay_after(events)),
    decreases events.len(),
{
    if events.len() > 0 {
        lemma_relay_wf(events.drop_last());
    }
}

/// Nothing is changed, dropped, added or reordered on the way: at every
/// moment, what the destination took, followed by what is still pending, is
/// exactly what came in from the source.
pub proof fn lemma_relay_keeps_bytes(events: Seq<RelayEvent>)
    ensures
        given(events) + relay_after(events).pending == taken(events),
    decreases events.len(),
{
    if events.len() > 0 {
        let before = events.drop_last();
        let state = relay_after(before);
        let event = events.last();
        lemma_relay_keeps_bytes(before);
        if relay_admits(state, event) {
            match event {
                RelayEvent::Wrote(count) => {
                    assert(state.pending =~= state.pending.take(count as int) + state.pending.skip(
                        count as int,
                    ));
                },
                _ => {},
            }
        }
        assert(given(events) + relay_after(events).pending =~= taken(events));
    } else {
        assert(given(events) + relay_after(events).pending =~= taken(events));
    }
}

/// Whenever the relay asks for the next read, or has ended on the source's
/// side, the destination has taken every byte that came in.
pub proof fn lemma_relay_delivers_all(events: Seq<RelayEvent>)
    requires
        relay_after(events).phase is Reading || relay_after(events).phase
            == RelayPhase::Finished(RelayEnd::EndOfInput) || relay_after(events).phase
            == RelayPhase::Finished(RelayEnd::ReadFailed),
    ensures
        given(events) == taken(events),
{
    lemma_relay_wf(events);
    lemma_relay_keeps_bytes(events);
    assert(given(events) + relay_after(events).pending =~= given(events));
}

/// What reaches the destination depends on the bytes that came in alone,
/// not on how the reads and writes happened to split them: two runs that
/// took in the same bytes and have nothing pending gave the same bytes.
pub proof fn lemma_relay_output_is_determined(first: Seq<RelayEvent>, second: Seq<RelayEvent>)
    requires
        taken(first) == taken(second),
        relay_after(first).pending.len() == 0,
        relay_after(second).pending.len() == 0,
    ensures
        given(first) == given(second),
{
    lemma_relay_keeps_bytes(first);
    lemma_relay_keeps_bytes(second);
    assert(given(first) + relay_after(first).pending =~= given(first));
    assert(given(second) + relay_after(second).pending =~= given(second));
}

/// The state machine of one relay.
pub struct Relay {
    phase: RelayPhase,
    buffer: Vec<u8>,
    sent: usize,
}

impl View for Relay {
    type V = RelayState;

    closed spec fn view(&self) -> RelayState {
        RelayState { phase: self.phase, pending: self.buffer@.skip(self.sent as int) }
    }
}

impl Relay {
    #[verifier::type_invariant]
    spec fn inv(&self) -> bool {
        &&& self.sent <= self.buffer.len()
        &&& relay_wf(self@)
    }

    /// A relay that has not read anything yet.
    pub fn new() -> (relay: Relay)
        ensures
            relay@ == relay_start(),
    {
        let relay = Relay { phase: RelayPhase::Reading, buffer: Vec::new(), sent: 0 };
        assert(relay@.pending =~= Seq::empty());
        relay
    }

    /// What the relay is about to do.
    pub fn phase(&self) -> (phase: RelayPhase)
        ensures
            phase == self@.phase,
            relay_wf(self@),
    {
        proof {
            use_type_invariant(self);
        }
        self.phase
    }

    /// What the caller is to do next.
    pub fn action(&self) -> (action: RelayAction)
        ensures
            action == relay_action(self@),
            relay_wf(self@),
    {
        proof {
            use_type_invariant(self);
        }
        match self.phase {
            RelayPhase::Reading => RelayAction::Read { capacity: RELAY_CAPACITY },
            RelayPhase::Writing => RelayAction::Write,
            RelayPhase::Finished(_) => RelayAction::Stop,
        }
    }

    /// The bytes read that no write has taken yet: what a write is to offer
    /// to the destination.
    pub fn pending(&self) -> (bytes: &[u8])
        ensures
            bytes@ == self@.pending,
            relay_wf(self@),
    {
        proof {
            use_type_invariant(self);
        }
        let bytes = slice_subrange(self.buffer.as_slice(), self.sent, self.buffer.len());
        assert(bytes@ =~= self@.pending);
        bytes
    }

    /// Takes in what the caller reports and says what to do next.
    pub fn advance(&mut self, event: RelayEvent) -> (action: RelayAction)
        ensures
            final(self)@ == relay_next(old(self)@, event),
            action == relay_action(final(self)@),
            relay_wf(final(self)@),
    {
        proof {
            use_type_invariant(&*self);
        }
        match self.phase {
            RelayPhase::Reading => match event {
                RelayEvent::Read(bytes) => {
                    if bytes.len() == 0 {
                        self.phase = RelayPhase::Finished(RelayEnd::EndOfInput);
                    } else {
                        assert(old(self)@.pending + bytes@ =~= bytes@.skip(0));
                        *self = Relay { phase: RelayPhase::Writing, buffer: bytes, sent: 0 };
                    }
                },
                RelayEvent::ReadFailed => {
                    self.phase = RelayPhase::Finished(RelayEnd::ReadFailed);
                },
                _ => {},
            },
            RelayPhase::Writing => match event {
                RelayEvent::Wrote(count) => {
                    let left = self.buffer.len() - self.sent;
                    assert(left == old(self)@.pending.len());
                    if count < left {
                        self.sent = self.sent + count;
                        assert(self@.pending =~= old(self)@.pending.skip(count as int));
                    } else if count == left {
                        *self = Relay { phase: RelayPhase::Reading, buffer: Vec::new(), sent: 0 };
                        assert(self@.pending =~= old(self)@.pending.skip(count as int));
                    }
                },
                RelayEvent::WriteFailed => {
                    self.phase = RelayPhase::Finished(RelayEnd::WriteFailed);
                },
                _ => {},
            },
            RelayPhase::Finished(_) => {},
        }
        self.action()
    }
}

} // verus!
