//! Decisions of the connection lifecycle: how long to keep polling a socket
//! that nothing listens on yet, which steps an exchange may take, and how a
//! reply is gathered from the chunks read.

use vstd::prelude::*;

verus! {

/// What to do after an attempt to connect found nothing listening.
#[derive(Clone, Copy, Debug, PartialEq, Eq, Structural)]
pub enum ConnectStep {
    /// Try again after this many milliseconds.
    RetryAfter(u64),
    /// The time budget is spent: report that the connection could not be
    /// established.
    GiveUp,
}

/// How a connection is established: an attempt every `interval_ms`
/// milliseconds until one succeeds or `timeout_ms` milliseconds have passed
/// since the first.
#[derive(Clone, Copy, Debug, PartialEq, Eq, Structural)]
pub struct ConnectPolicy {
    pub timeout_ms: u64,
    pub interval_ms: u64,
}

/// The step after a refused attempt made `elapsed_ms` after the first.
pub open spec fn step_after_refusal(p: ConnectPolicy, elapsed_ms: u64) -> ConnectStep {
    if elapsed_ms > p.timeout_ms {
        ConnectStep::GiveUp
    } else {
        ConnectStep::RetryAfter(p.interval_ms)
    }
}

impl ConnectPolicy {
    pub fn new(timeout_ms: u64, interval_ms: u64) -> (r: Self)
        ensures
            r == (ConnectPolicy { timeout_ms, interval_ms }),
    {
        ConnectPolicy { timeout_ms, interval_ms }
    }

    /// Decides, after an attempt that found nothing listening, whether to
    /// poll again or to give up.
    pub fn after_refusal(&self, elapsed_ms: u64) -> (r: ConnectStep)
        ensures
            r == step_after_refusal(*self, elapsed_ms),
    {
        if elapsed_ms > self.timeout_ms {
            ConnectStep::GiveUp
        } else {
            ConnectStep::RetryAfter(self.interval_ms)
        }
    }
}

impl Default for ConnectPolicy {
    /// Five seconds of attempts, ten milliseconds apart.
    fn default() -> (r: Self)
        ensures
            r == (ConnectPolicy { timeout_ms: 5000, interval_ms: 10 }),
    {
        ConnectPolicy::new(5000, 10)
    }
}

/// While the budget lasts the policy keeps polling; once it is spent it
/// gives up, and from then on it never polls again.
pub proof fn lemma_polling_ends(p: ConnectPolicy, elapsed_ms: u64, later_ms: u64)
    requires
        elapsed_ms <= later_ms,
    ensures
        elapsed_ms <= p.timeout_ms ==> step_after_refusal(p, elapsed_ms) == ConnectStep::RetryAfter(
            p.interval_ms,
        ),
        step_after_refusal(p, elapsed_ms) == ConnectStep::GiveUp ==> step_after_refusal(p, later_ms)
            == ConnectStep::GiveUp,
{
}

/// Where a connection stands.
#[derive(Clone, Copy, Debug, PartialEq, Eq, Structural)]
pub enum ConnectionState {
    Disconnected,
    Connecting,
    Connected,
    Sending,
    Receiving,
    Closed,
}

/// What happened to a connection.
#[derive(Clone, Copy, Debug, PartialEq, Eq, Structural)]
pub enum ConnectionEvent {
    /// The connection was asked for.
    Begin,
    /// An attempt to connect succeeded.
    Established,
    /// The time budget for connecting was spent.
    TimedOut,
    /// A caller handed over a whole message to send.
    Send,
    /// The message was written and flushed in full.
    Written,
    /// A read returned no bytes: the reply is complete.
    ReplyComplete,
    /// The transport failed during a write or a read.
    TransportFailed,
    /// The connection was closed.
    Close,
}

/// The state after an event, or `None` where the event cannot happen in
/// that state.
pub open spec fn next_state(s: ConnectionState, e: ConnectionEvent) -> Option<ConnectionState> {
    match (s, e) {
        (ConnectionState::Disconnected, ConnectionEvent::Begin) => Some(
            ConnectionState::Connecting,
        ),
        (ConnectionState::Connecting, ConnectionEvent::Established) => Some(
            ConnectionState::Connected,
        ),
        (ConnectionState::Connecting, ConnectionEvent::TimedOut) => Some(ConnectionState::Closed),
        (ConnectionState::Connected, ConnectionEvent::Send) => Some(ConnectionState::Sending),
        (ConnectionState::Sending, ConnectionEvent::Written) => Some(ConnectionState::Receiving),
        (ConnectionState::Receiving, ConnectionEvent::ReplyComplete) => Some(
            ConnectionState::Connected,
        ),
        (ConnectionState::Sending, ConnectionEvent::TransportFailed) => Some(
            ConnectionState::Connected,
        ),
        (ConnectionState::Receiving, ConnectionEvent::TransportFailed) => Some(
            ConnectionState::Connected,
        ),
        (ConnectionState::Closed, ConnectionEvent::Close) => None,
        (_, ConnectionEvent::Close) => Some(ConnectionState::Closed),
        _ => None,
    }
}

impl ConnectionState {
    /// The state after `event`, or `None` where it cannot happen now.
    pub fn next(self, event: ConnectionEvent) -> (r: Option<ConnectionState>)
        ensures
            r == next_state(self, event),
    {
        match (self, event) {
            (ConnectionState::Disconnected, ConnectionEvent::Begin) => Some(
                ConnectionState::Connecting,
            ),
            (ConnectionState::Connecting, ConnectionEvent::Established) => Some(
                ConnectionState::Connected,
            ),
            (ConnectionState::Connecting, ConnectionEvent::TimedOut) => Some(
                ConnectionState::Closed,
            ),
            (ConnectionState::Connected, ConnectionEvent::Send) => Some(ConnectionState::Sending),
            (ConnectionState::Sending, ConnectionEvent::Written) => Some(
                ConnectionState::Receiving,
            ),
            (ConnectionState::Receiving, ConnectionEvent::ReplyComplete) => Some(
                ConnectionState::Connected,
            ),
            (ConnectionState::Sending, ConnectionEvent::TransportFailed) => Some(
                ConnectionState::Connected,
            ),
            (ConnectionState::Receiving, ConnectionEvent::TransportFailed) => Some(
                ConnectionState::Connected,
            ),
            (ConnectionState::Closed, ConnectionEvent::Close) => None,
            (_, ConnectionEvent::Close) => Some(ConnectionState::Closed),
            _ => None,
        }
    }
}

/// Only a connected connection takes a message to send, so one exchange at
/// most is in flight, and a read never starts before the write is done.
pub proof fn lemma_one_exchange_at_a_time(s: ConnectionState)
    ensures
        next_state(s, ConnectionEvent::Send) is Some ==> s == ConnectionState::Connected,
        next_state(s, ConnectionEvent::ReplyComplete) is Some ==> s == ConnectionState::Receiving,
        next_state(s, ConnectionEvent::Written) is Some ==> s == ConnectionState::Sending,
        s == ConnectionState::Sending || s == ConnectionState::Receiving ==> next_state(
            s,
            ConnectionEvent::TransportFailed,
        ) == Some(ConnectionState::Connected),
{
}

/// A reply gathered from the chunks read off the transport.
#[derive(Debug)]
pub struct Reply {
    bytes: Vec<u8>,
    complete: bool,
}

impl Reply {
    /// The bytes gathered so far.
    pub closed spec fn gathered(&self) -> Seq<u8> {
        self.bytes@
    }

    /// Whether a zero-length read has ended the reply.
    pub closed spec fn is_complete(&self) -> bool {
        self.complete
    }

    /// An empty reply that is still open.
    pub fn new() -> (r: Self)
        ensures
            r.gathered() == Seq::<u8>::empty(),
            !r.is_complete(),
    {
        Reply { bytes: Vec::new(), complete: false }
    }

    /// Takes the bytes of one read; an empty chunk ends the reply. Returns
    /// whether the reply is complete.
    pub fn absorb(&mut self, chunk: &[u8]) -> (r: bool)
        requires
            !old(self).is_complete(),
        ensures
            r == (chunk@.len() == 0),
            r == final(self).is_complete(),
            final(self).gathered() == old(self).gathered() + chunk@,
    {
        if chunk.len() == 0 {
            self.complete = true;
            assert(self.bytes@ =~= old(self).gathered() + chunk@);
            true
        } else {
            self.bytes.extend_from_slice(chunk);
            false
        }
    }

    /// Whether a zero-length read has ended the reply.
    pub fn complete(&self) -> (r: bool)
        ensures
            r == self.is_complete(),
    {
        self.complete
    }

    /// The bytes gathered.
    pub fn into_bytes(self) -> (r: Vec<u8>)
        ensures
            r@ == self.gathered(),
    {
        self.bytes
    }
}

} // verus!
