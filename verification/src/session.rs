//! The life of one HTTP connection on one worker slot: which timeout guards
//! each phase, and how the connection advances or closes on what the socket
//! reports. Exceeding any timeout terminates that one connection and
//! nothing else; the worker then returns to accepting.

use vstd::prelude::*;

verus! {

/// Connections are kept alive after a response by default, subject to the
/// configured timeouts.
pub const KEEP_CONNECTIONS_ALIVE: bool = true;

/// The four configurable timeouts of a connection, in milliseconds.
pub struct Timeouts {
    /// Time to begin reading the first request on a fresh connection.
    pub start_read_request_ms: u64,
    /// Time to begin reading a subsequent pipelined request on an
    /// already-used connection.
    pub persistent_start_read_request_ms: u64,
    /// Time to finish reading a request once started.
    pub read_request_ms: u64,
    /// Time to finish writing a response.
    pub write_ms: u64,
}

/// The timeouts the reference build runs with.
pub fn default_timeouts() -> (t: Timeouts)
    ensures
        t.start_read_request_ms == 5000,
        t.persistent_start_read_request_ms == 1000,
        t.read_request_ms == 1000,
        t.write_ms == 1000,
{
    Timeouts {
        start_read_request_ms: 5000,
        persistent_start_read_request_ms: 1000,
        read_request_ms: 1000,
        write_ms: 1000,
    }
}

/// Where one connection stands.
#[derive(Clone, Copy, PartialEq, Eq, Structural, Debug)]
pub enum ConnPhase {
    /// Accepted, no byte of the first request read yet.
    AwaitFirstRequest,
    /// A response has been written; waiting for the next pipelined request.
    AwaitNextRequest,
    /// Bytes of a request have begun arriving.
    ReadingRequest,
    /// A request has been dispatched; its response is being written.
    WritingResponse,
}

/// What the socket reports within a phase's deadline — or that the deadline
/// passed.
#[derive(Clone, Copy, PartialEq, Eq, Structural, Debug)]
pub enum ConnEvent {
    /// The first bytes of a request arrived.
    ReadBegan,
    /// The request was read completely.
    RequestComplete,
    /// The response was written completely.
    WriteComplete,
    /// The peer closed the connection.
    PeerClosed,
    /// The phase's timeout elapsed first.
    TimedOut,
}

/// What becomes of the connection after an event.
#[derive(Clone, Copy, PartialEq, Eq, Structural, Debug)]
pub enum ConnVerdict {
    /// The connection stays open and enters the given phase.
    Proceed(ConnPhase),
    /// The connection is closed; the worker slot returns to accepting.
    Close,
}

/// The timeout guarding each phase.
pub open spec fn spec_phase_timeout(t: Timeouts, phase: ConnPhase) -> u64 {
    match phase {
        ConnPhase::AwaitFirstRequest => t.start_read_request_ms,
        ConnPhase::AwaitNextRequest => t.persistent_start_read_request_ms,
        ConnPhase::ReadingRequest => t.read_request_ms,
        ConnPhase::WritingResponse => t.write_ms,
    }
}

/// Pick the timeout, in milliseconds, that guards a phase.
pub fn phase_timeout(t: &Timeouts, phase: ConnPhase) -> (r: u64)
    ensures
        r == spec_phase_timeout(*t, phase),
{
    match phase {
        ConnPhase::AwaitFirstRequest => t.start_read_request_ms,
        ConnPhase::AwaitNextRequest => t.persistent_start_read_request_ms,
        ConnPhase::ReadingRequest => t.read_request_ms,
        ConnPhase::WritingResponse => t.write_ms,
    }
}

/// Which events the socket can report in a phase.
pub open spec fn event_allowed(phase: ConnPhase, event: ConnEvent) -> bool {
    match event {
        ConnEvent::ReadBegan => phase is AwaitFirstRequest || phase is AwaitNextRequest,
        ConnEvent::RequestComplete => phase is ReadingRequest,
        ConnEvent::WriteComplete => phase is WritingResponse,
        ConnEvent::PeerClosed => true,
        ConnEvent::TimedOut => true,
    }
}

/// How a connection advances: every timeout and every peer close ends it;
/// otherwise it moves through read and write, and after a written response
/// it stays open for the next request exactly when connections are kept
/// alive.
pub open spec fn spec_conn_step(
    phase: ConnPhase,
    event: ConnEvent,
    keep_alive: bool,
) -> ConnVerdict {
    match event {
        ConnEvent::TimedOut => ConnVerdict::Close,
        ConnEvent::PeerClosed => ConnVerdict::Close,
        ConnEvent::ReadBegan => ConnVerdict::Proceed(ConnPhase::ReadingRequest),
        ConnEvent::RequestComplete => ConnVerdict::Proceed(ConnPhase::WritingResponse),
        ConnEvent::WriteComplete => if keep_alive {
            ConnVerdict::Proceed(ConnPhase::AwaitNextRequest)
        } else {
            ConnVerdict::Close
        },
    }
}

/// Advance one connection on what its socket reported. A timeout in any
/// phase closes this connection — and only this one: the verdict concerns
/// the one connection the phase belongs to.
pub fn conn_step(phase: ConnPhase, event: ConnEvent, keep_alive: bool) -> (r: ConnVerdict)
    requires
        event_allowed(phase, event),
    ensures
        r == spec_conn_step(phase, event, keep_alive),
        event is TimedOut ==> r is Close,
{
    match event {
        ConnEvent::TimedOut => ConnVerdict::Close,
        ConnEvent::PeerClosed => ConnVerdict::Close,
        ConnEvent::ReadBegan => ConnVerdict::Proceed(ConnPhase::ReadingRequest),
        ConnEvent::RequestComplete => ConnVerdict::Proceed(ConnPhase::WritingResponse),
        ConnEvent::WriteComplete => if keep_alive {
            ConnVerdict::Proceed(ConnPhase::AwaitNextRequest)
        } else {
            ConnVerdict::Close
        },
    }
}

} // verus!
