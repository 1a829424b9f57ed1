//! The per-connection handler, as a state machine.
//!
//! One `Session` stands for one accepted connection, under the
//! persistent-exchange policy: read a request, log it, answer with the fixed
//! greeting, and repeat until the peer disconnects.  The caller performs the
//! blocking reads and writes and feeds their outcomes in as plain values; the
//! session decides every transition and produces every byte that is logged or
//! sent.  A zero-byte read closes the session cleanly; a failed read or write
//! closes it faulted; a closed session never acts again.

use crate::messages::{disconnect_message, disconnect_text, request_log_line, request_log_message,
    response_message, response_text};
use vstd::prelude::*;

verus! {

/// Where a session stands: awaiting the next read, owing a response to the
/// request just read, or closed (cleanly by the peer, or by an I/O fault).
#[derive(Clone, Copy, Debug, PartialEq, Eq, Structural)]
pub enum HandlerState {
    AwaitingRead,
    Responding,
    ClosedClean,
    ClosedFaulted,
}

/// What one blocking read came to, as the caller reports it: bytes arrived,
/// the peer closed its write side (a zero-byte read), or the read failed.
pub enum ReadOutcome {
    Data(Vec<u8>),
    Disconnect,
    Failed,
}

/// What one blocking write came to, as the caller reports it.
#[derive(Clone, Copy, Debug, PartialEq, Eq, Structural)]
pub enum WriteOutcome {
    Sent,
    Failed,
}

/// What the caller must do next: log a line and send a response, log a line
/// only, or nothing.
pub enum Step {
    Exchange { log_line: Vec<u8>, response: Vec<u8> },
    LogOnly { log_line: Vec<u8> },
    Quiet,
}

/// An outcome's kind, stripped of its payload: the transitions of the state
/// machine depend on nothing else.
#[derive(Clone, Copy, Debug, PartialEq, Eq, Structural)]
pub enum EventKind {
    DataRead,
    Disconnected,
    ReadFailed,
    WroteOk,
    WriteFailed,
}

/// The transition relation of the handler.  An event that cannot arise in a
/// state (its reads and writes are never issued there) leaves the state as
/// it is.
pub open spec fn next_state(s: HandlerState, e: EventKind) -> HandlerState {
    match (s, e) {
        (HandlerState::AwaitingRead, EventKind::DataRead) => HandlerState::Responding,
        (HandlerState::AwaitingRead, EventKind::Disconnected) => HandlerState::ClosedClean,
        (HandlerState::AwaitingRead, EventKind::ReadFailed) => HandlerState::ClosedFaulted,
        (HandlerState::Responding, EventKind::WroteOk) => HandlerState::AwaitingRead,
        (HandlerState::Responding, EventKind::WriteFailed) => HandlerState::ClosedFaulted,
        (_, _) => s,
    }
}

/// Where a run of events leads from a state, one transition per event.
pub open spec fn run(s: HandlerState, events: Seq<EventKind>) -> HandlerState
    decreases events.len(),
{
    if events.len() == 0 {
        s
    } else {
        run(next_state(s, events[0]), events.skip(1))
    }
}

/// The events of `n` completed exchanges: each a data read followed by a
/// successful write of the response.
pub open spec fn exchange_trace(n: nat) -> Seq<EventKind>
    decreases n,
{
    if n == 0 {
        Seq::empty()
    } else {
        seq![EventKind::DataRead, EventKind::WroteOk] + exchange_trace((n - 1) as nat)
    }
}

/// Running one trace and then another is running their concatenation.
pub proof fn lemma_run_concat(s: HandlerState, a: Seq<EventKind>, b: Seq<EventKind>)
    ensures
        run(s, a + b) == run(run(s, a), b),
    decreases a.len(),
{
    if a.len() == 0 {
        assert(a + b =~= b);
    } else {
        assert((a + b)[0] == a[0]);
        assert((a + b).skip(1) =~= a.skip(1) + b);
        lemma_run_concat(next_state(s, a[0]), a.skip(1), b);
    }
}

/// Running a single event is one transition.
pub proof fn lemma_run_one(s: HandlerState, e: EventKind)
    ensures
        run(s, seq![e]) == next_state(s, e),
{
    let t = seq![e];
    assert(t[0] == e);
    assert(t.skip(1) =~= Seq::<EventKind>::empty());
    assert(run(next_state(s, e), Seq::<EventKind>::empty()) == next_state(s, e));
}

/// However many exchanges have completed on a connection, the handler is back
/// to awaiting the next read.
pub proof fn lemma_exchanges_return_to_awaiting(n: nat)
    ensures
        run(HandlerState::AwaitingRead, exchange_trace(n)) == HandlerState::AwaitingRead,
    decreases n,
{
    if n != 0 {
        let data = seq![EventKind::DataRead];
        let wrote = seq![EventKind::WroteOk];
        let pair = seq![EventKind::DataRead, EventKind::WroteOk];
        assert(pair =~= data + wrote);
        lemma_run_one(HandlerState::AwaitingRead, EventKind::DataRead);
        lemma_run_one(HandlerState::Responding, EventKind::WroteOk);
        lemma_run_concat(HandlerState::AwaitingRead, data, wrote);
        lemma_run_concat(HandlerState::AwaitingRead, pair, exchange_trace((n - 1) as nat));
        lemma_exchanges_return_to_awaiting((n - 1) as nat);
    }
}

/// After any number of completed exchanges, a zero-byte read closes the
/// session cleanly in that very step; `on_read`'s contract adds that the step
/// it hands back then carries no response.
pub proof fn lemma_disconnect_closes_cleanly(n: nat)
    ensures
        run(HandlerState::AwaitingRead, exchange_trace(n).push(EventKind::Disconnected))
            == HandlerState::ClosedClean,
{
    lemma_exchanges_return_to_awaiting(n);
    let tail = seq![EventKind::Disconnected];
    assert(exchange_trace(n).push(EventKind::Disconnected) =~= exchange_trace(n) + tail);
    lemma_run_concat(HandlerState::AwaitingRead, exchange_trace(n), tail);
    lemma_run_one(HandlerState::AwaitingRead, EventKind::Disconnected);
}

/// A closed session stays closed, whatever events follow: once a disconnect
/// or a fault is seen, nothing more is ever logged or sent.
pub proof fn lemma_closed_is_terminal(s: HandlerState, events: Seq<EventKind>)
    requires
        s is ClosedClean || s is ClosedFaulted,
    ensures
        run(s, events) == s,
    decreases events.len(),
{
    if events.len() != 0 {
        lemma_closed_is_terminal(next_state(s, events[0]), events.skip(1));
    }
}

/// The kind of a read outcome.
pub open spec fn read_event(r: ReadOutcome) -> EventKind {
    match r {
        ReadOutcome::Data(_) => EventKind::DataRead,
        ReadOutcome::Disconnect => EventKind::Disconnected,
        ReadOutcome::Failed => EventKind::ReadFailed,
    }
}

/// The kind of a write outcome.
pub open spec fn write_event(w: WriteOutcome) -> EventKind {
    match w {
        WriteOutcome::Sent => EventKind::WroteOk,
        WriteOutcome::Failed => EventKind::WriteFailed,
    }
}

/// One connection's handler.  It is created awaiting a read and moves only as
/// `next_state` says.
pub struct Session {
    state: HandlerState,
}

impl Session {
    /// The session's current state, for contracts.
    pub closed spec fn st(self) -> HandlerState {
        self.state
    }

    /// A fresh session for a newly accepted connection.
    pub fn new() -> (s: Session)
        ensures
            s.st() == HandlerState::AwaitingRead,
    {
        Session { state: HandlerState::AwaitingRead }
    }

    /// Whether the session awaits a read: the caller may call `on_read` only
    /// then.
    pub fn awaiting_read(&self) -> (b: bool)
        ensures
            b == (self.st() is AwaitingRead),
    {
        match self.state {
            HandlerState::AwaitingRead => true,
            _ => false,
        }
    }

    /// Whether the session owes a response: the caller may call `on_write`
    /// only then.
    pub fn responding(&self) -> (b: bool)
        ensures
            b == (self.st() is Responding),
    {
        match self.state {
            HandlerState::Responding => true,
            _ => false,
        }
    }

    /// Whether the session is closed, cleanly or faulted.
    pub fn closed(&self) -> (b: bool)
        ensures
            b == (self.st() is ClosedClean || self.st() is ClosedFaulted),
    {
        match self.state {
            HandlerState::ClosedClean => true,
            HandlerState::ClosedFaulted => true,
            _ => false,
        }
    }

    /// Takes the outcome of one read.  Data, whatever it holds, is answered
    /// with the request log line and the fixed response; a zero-byte read
    /// closes the session cleanly with the disconnect log line and no
    /// response; a failed read closes it faulted in silence.
    pub fn on_read(&mut self, r: ReadOutcome) -> (step: Step)
        requires
            old(self).st() is AwaitingRead,
        ensures
            final(self).st() == next_state(old(self).st(), read_event(r)),
            match r {
                ReadOutcome::Data(req) => step matches Step::Exchange { log_line, response }
                    && log_line@ == request_log_line(req@) && response@ == response_text(),
                ReadOutcome::Disconnect => step matches Step::LogOnly { log_line } && log_line@
                    == disconnect_text(),
                ReadOutcome::Failed => step is Quiet,
            },
    {
        match r {
            ReadOutcome::Data(req) => {
                self.state = HandlerState::Responding;
                let log_line = request_log_message(req.as_slice());
                let response = response_message();
                Step::Exchange { log_line, response }
            },
            ReadOutcome::Disconnect => {
                self.state = HandlerState::ClosedClean;
                let log_line = disconnect_message();
                Step::LogOnly { log_line }
            },
            ReadOutcome::Failed => {
                self.state = HandlerState::ClosedFaulted;
                Step::Quiet
            },
        }
    }

    /// Takes the outcome of writing the response.  A successful write puts
    /// the session back to awaiting the next read; a failed one closes it
    /// faulted.  Nothing is logged or sent either way.
    pub fn on_write(&mut self, w: WriteOutcome) -> (step: Step)
        requires
            old(self).st() is Responding,
        ensures
            final(self).st() == next_state(old(self).st(), write_event(w)),
            step is Quiet,
    {
        match w {
            WriteOutcome::Sent => {
                self.state = HandlerState::AwaitingRead;
            },
            WriteOutcome::Failed => {
                self.state = HandlerState::ClosedFaulted;
            },
        }
        Step::Quiet
    }
}

} // verus!
