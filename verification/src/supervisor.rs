//! The connection supervisor: the state machine behind each long-lived
//! stream. One instance owns one logical connection; two run concurrently,
//! one for the admin stream and one for each opened circuit state stream.
//! Reconnects are bounded, parse errors close the stream for good, and a
//! closed supervisor stays closed.

use vstd::prelude::*;

verus! {

/// Whether the client reconnects after a lost connection, by default.
pub const RECONNECT: bool = true;

/// How many consecutive failed reconnection attempts are allowed, by
/// default.
pub const RECONNECT_LIMIT: u64 = 10;

/// How many seconds without a frame count as a stalled connection, by
/// default.
pub const CONNECTION_TIMEOUT: u64 = 60;

/// The lifecycle state of one supervised connection.
#[derive(Clone, Copy, Debug, PartialEq, Eq, Structural)]
pub enum ConnectionState {
    Disconnected,
    Connecting,
    Connected,
    Reconnecting,
    Closed,
}

/// What the transport reports to the supervisor.
#[derive(Clone, Copy, Debug, PartialEq, Eq, Structural)]
pub enum StreamEvent {
    /// The caller asks the supervisor to open its connection.
    StartRequested,
    /// A connection attempt succeeded.
    OpenSucceeded,
    /// A connection attempt failed.
    OpenFailed,
    /// A frame arrived on the open connection.
    FrameReceived,
    /// No frame arrived within the idle timeout.
    IdleTimeout,
    /// The transport failed underneath an open connection.
    TransportError,
    /// The remote sent a frame this client cannot understand.
    ParserError,
    /// The caller asks the supervisor to close for good.
    CloseRequested,
}

/// What the supervisor asks the transport to do in return.
#[derive(Clone, Copy, Debug, PartialEq, Eq, Structural)]
pub enum StreamAction {
    /// Open the first connection.
    Connect,
    /// Hand the frame to the registered message handler.
    DeliverFrame,
    /// Run the open handler, exactly once per establishment.
    RunOnOpen,
    /// Try one reconnection attempt.
    Retry,
    /// Tear the connection down for good.
    Shutdown,
    /// Nothing.
    Ignore,
}

/// One supervised connection: its state and its reconnect accounting.
/// `failed_attempts` counts the attempts issued since the last established
/// connection, the one in flight included.
#[derive(Clone, Copy, Debug, PartialEq, Eq, Structural)]
pub struct ConnectionSupervisor {
    pub state: ConnectionState,
    pub reconnect: bool,
    pub reconnect_limit: u64,
    pub idle_timeout_secs: u64,
    pub failed_attempts: u64,
}

/// The supervisor's transition function: the next supervisor and the action
/// the transport is asked to take.
pub open spec fn spec_step(s: ConnectionSupervisor, event: StreamEvent) -> (
    ConnectionSupervisor,
    StreamAction,
) {
    if s.state is Closed {
        (s, StreamAction::Ignore)
    } else if event is CloseRequested {
        (ConnectionSupervisor { state: ConnectionState::Closed, ..s }, StreamAction::Shutdown)
    } else if event is ParserError {
        (ConnectionSupervisor { state: ConnectionState::Closed, ..s }, StreamAction::Shutdown)
    } else {
        match s.state {
            ConnectionState::Disconnected => {
                if event is StartRequested {
                    (
                        ConnectionSupervisor { state: ConnectionState::Connecting, ..s },
                        StreamAction::Connect,
                    )
                } else {
                    (s, StreamAction::Ignore)
                }
            },
            ConnectionState::Connecting => {
                if event is OpenSucceeded {
                    (
                        ConnectionSupervisor {
                            state: ConnectionState::Connected,
                            failed_attempts: 0,
                            ..s
                        },
                        StreamAction::RunOnOpen,
                    )
                } else if event is OpenFailed {
                    spec_reconnect_or_close(s)
                } else {
                    (s, StreamAction::Ignore)
                }
            },
            ConnectionState::Connected => {
                if event is FrameReceived {
                    (s, StreamAction::DeliverFrame)
                } else if event is IdleTimeout || event is TransportError {
                    spec_reconnect_or_close(s)
                } else {
                    (s, StreamAction::Ignore)
                }
            },
            ConnectionState::Reconnecting => {
                if event is OpenSucceeded {
                    (
                        ConnectionSupervisor {
                            state: ConnectionState::Connected,
                            failed_attempts: 0,
                            ..s
                        },
                        StreamAction::RunOnOpen,
                    )
                } else if event is OpenFailed {
                    spec_reconnect_or_close(s)
                } else {
                    (s, StreamAction::Ignore)
                }
            },
            ConnectionState::Closed => (s, StreamAction::Ignore),
        }
    }
}

/// Issues one more reconnection attempt if policy and budget allow it, and
/// closes for good otherwise.
pub open spec fn spec_reconnect_or_close(s: ConnectionSupervisor) -> (
    ConnectionSupervisor,
    StreamAction,
) {
    if s.reconnect && s.failed_attempts < s.reconnect_limit {
        (
            ConnectionSupervisor {
                state: ConnectionState::Reconnecting,
                failed_attempts: (s.failed_attempts + 1) as u64,
                ..s
            },
            StreamAction::Retry,
        )
    } else {
        (ConnectionSupervisor { state: ConnectionState::Closed, ..s }, StreamAction::Shutdown)
    }
}

/// The supervisor never tracks more issued attempts than its limit allows.
pub open spec fn spec_attempts_bounded(s: ConnectionSupervisor) -> bool {
    s.failed_attempts <= s.reconnect_limit
}

impl ConnectionSupervisor {
    /// A supervisor with the given policy, not yet connected.
    pub fn new(reconnect: bool, reconnect_limit: u64, idle_timeout_secs: u64) -> (s:
        ConnectionSupervisor)
        ensures
            s == (ConnectionSupervisor {
                state: ConnectionState::Disconnected,
                reconnect,
                reconnect_limit,
                idle_timeout_secs,
                failed_attempts: 0,
            }),
    {
        ConnectionSupervisor {
            state: ConnectionState::Disconnected,
            reconnect,
            reconnect_limit,
            idle_timeout_secs,
            failed_attempts: 0,
        }
    }

    /// A supervisor with the daemon's default policy: reconnect up to ten
    /// times, with a sixty-second idle timeout.
    pub fn with_defaults() -> (s: ConnectionSupervisor)
        ensures
            s == (ConnectionSupervisor {
                state: ConnectionState::Disconnected,
                reconnect: RECONNECT,
                reconnect_limit: RECONNECT_LIMIT,
                idle_timeout_secs: CONNECTION_TIMEOUT,
                failed_attempts: 0,
            }),
    {
        ConnectionSupervisor::new(RECONNECT, RECONNECT_LIMIT, CONNECTION_TIMEOUT)
    }

    /// Whether a connection that has not delivered a frame for
    /// `idle_seconds` counts as stalled.
    pub fn is_stalled(&self, idle_seconds: u64) -> (r: bool)
        ensures
            r == (idle_seconds >= self.idle_timeout_secs),
    {
        idle_seconds >= self.idle_timeout_secs
    }

    /// Whether this supervisor has reached its terminal state; a closed
    /// supervisor is distinguishable from one mid-reconnect.
    pub fn is_closed(&self) -> (r: bool)
        ensures
            r == (self.state is Closed),
    {
        match self.state {
            ConnectionState::Closed => true,
            _ => false,
        }
    }

    /// Feeds one transport event through the supervisor and returns the
    /// action the transport must take next.
    pub fn handle_event(&mut self, event: StreamEvent) -> (action: StreamAction)
        requires
            spec_attempts_bounded(*old(self)),
        ensures
            *final(self) == spec_step(*old(self), event).0,
            action == spec_step(*old(self), event).1,
            spec_attempts_bounded(*final(self)),
    {
        if self.is_closed() {
            return StreamAction::Ignore;
        }
        match event {
            StreamEvent::CloseRequested => {
                self.state = ConnectionState::Closed;
                StreamAction::Shutdown
            },
            StreamEvent::ParserError => {
                self.state = ConnectionState::Closed;
                StreamAction::Shutdown
            },
            StreamEvent::StartRequested => {
                match self.state {
                    ConnectionState::Disconnected => {
                        self.state = ConnectionState::Connecting;
                        StreamAction::Connect
                    },
                    _ => StreamAction::Ignore,
                }
            },
            StreamEvent::OpenSucceeded => {
                match self.state {
                    ConnectionState::Connecting | ConnectionState::Reconnecting => {
                        self.state = ConnectionState::Connected;
                        self.failed_attempts = 0;
                        StreamAction::RunOnOpen
                    },
                    _ => StreamAction::Ignore,
                }
            },
            StreamEvent::OpenFailed => {
                match self.state {
                    ConnectionState::Connecting | ConnectionState::Reconnecting => {
                        self.reconnect_or_close()
                    },
                    _ => StreamAction::Ignore,
                }
            },
            StreamEvent::FrameReceived => {
                match self.state {
                    ConnectionState::Connected => StreamAction::DeliverFrame,
                    _ => StreamAction::Ignore,
                }
            },
            StreamEvent::IdleTimeout | StreamEvent::TransportError => {
                match self.state {
                    ConnectionState::Connected => self.reconnect_or_close(),
                    _ => StreamAction::Ignore,
                }
            },
        }
    }

    /// Issues one more reconnection attempt, or closes when the policy
    /// forbids it or the budget is spent.
    fn reconnect_or_close(&mut self) -> (action: StreamAction)
        requires
            spec_attempts_bounded(*old(self)),
        ensures
            *final(self) == spec_reconnect_or_close(*old(self)).0,
            action == spec_reconnect_or_close(*old(self)).1,
            spec_attempts_bounded(*final(self)),
    {
        if self.reconnect && self.failed_attempts < self.reconnect_limit {
            self.state = ConnectionState::Reconnecting;
            self.failed_attempts = self.failed_attempts + 1;
            StreamAction::Retry
        } else {
            self.state = ConnectionState::Closed;
            StreamAction::Shutdown
        }
    }
}

/// How the stream's error handler treats a transport error: a protocol
/// parse error and an exhausted reconnect budget close the connection for
/// good; any other transport error restarts it.
#[derive(Clone, Copy, Debug, PartialEq, Eq, Structural)]
pub enum WsErrorKind {
    ParserError,
    ReconnectError,
    OtherTransportError,
}

/// The error handler's decision.
#[derive(Clone, Copy, Debug, PartialEq, Eq, Structural)]
pub enum ErrorDirective {
    CloseConnection,
    RestartConnection,
}

/// Classifies a stream error: parse errors and reconnect exhaustion close
/// the connection permanently, anything else restarts it.
pub fn on_stream_error(kind: WsErrorKind) -> (d: ErrorDirective)
    ensures
        d == (match kind {
            WsErrorKind::ParserError => ErrorDirective::CloseConnection,
            WsErrorKind::ReconnectError => ErrorDirective::CloseConnection,
            WsErrorKind::OtherTransportError => ErrorDirective::RestartConnection,
        }),
{
    match kind {
        WsErrorKind::ParserError => ErrorDirective::CloseConnection,
        WsErrorKind::ReconnectError => ErrorDirective::CloseConnection,
        WsErrorKind::OtherTransportError => ErrorDirective::RestartConnection,
    }
}

/// Runs a sequence of events through the transition function.
pub open spec fn spec_run(s: ConnectionSupervisor, events: Seq<StreamEvent>) -> ConnectionSupervisor
    decreases events.len(),
{
    if events.len() == 0 {
        s
    } else {
        spec_run(spec_step(s, events[0]).0, events.drop_first())
    }
}

/// How many reconnection attempts a sequence of events makes the
/// supervisor issue.
pub open spec fn spec_retry_count(s: ConnectionSupervisor, events: Seq<StreamEvent>) -> nat
    decreases events.len(),
{
    if events.len() == 0 {
        0
    } else {
        (if spec_step(s, events[0]).1 is Retry {
            1nat
        } else {
            0nat
        }) + spec_retry_count(spec_step(s, events[0]).0, events.drop_first())
    }
}

/// A closed supervisor stays closed, whatever else arrives.
pub proof fn lemma_closed_is_terminal(s: ConnectionSupervisor, events: Seq<StreamEvent>)
    requires
        s.state is Closed,
    ensures
        spec_run(s, events).state is Closed,
        spec_retry_count(s, events) == 0,
    decreases events.len(),
{
    if events.len() > 0 {
        lemma_closed_is_terminal(spec_step(s, events[0]).0, events.drop_first());
    }
}

/// An idle timeout on an open connection triggers exactly one reconnection
/// attempt: the supervisor issues Retry once and waits, attempts at one.
pub proof fn lemma_idle_timeout_single_retry(s: ConnectionSupervisor)
    requires
        s.state is Connected,
        s.reconnect,
        s.failed_attempts == 0,
        s.reconnect_limit >= 1,
    ensures
        spec_step(s, StreamEvent::IdleTimeout).1 is Retry,
        spec_step(s, StreamEvent::IdleTimeout).0.state is Reconnecting,
        spec_step(s, StreamEvent::IdleTimeout).0.failed_attempts == 1,
{
}

/// From a reconnecting supervisor, failures alone exhaust the budget: the
/// remaining attempts are issued, each failure after the last closes the
/// stream, and no attempt is issued once closed.
pub proof fn lemma_failures_exhaust_budget(s: ConnectionSupervisor, events: Seq<StreamEvent>)
    requires
        s.state is Reconnecting,
        s.reconnect,
        1 <= s.failed_attempts <= s.reconnect_limit,
        events.len() == s.reconnect_limit - s.failed_attempts + 1,
        forall|i: int| 0 <= i < events.len() ==> events[i] is OpenFailed,
    ensures
        spec_run(s, events).state is Closed,
        spec_retry_count(s, events) == s.reconnect_limit - s.failed_attempts,
    decreases events.len(),
{
    let (s1, a1) = spec_step(s, events[0]);
    if s.failed_attempts == s.reconnect_limit {
        assert(s1.state is Closed);
        lemma_closed_is_terminal(s1, events.drop_first());
    } else {
        lemma_failures_exhaust_budget(s1, events.drop_first());
    }
}

/// The stalled-stream scenario, end to end: a connected supervisor that
/// times out issues its reconnection attempts, and after the budget's
/// worth of consecutive failures it is closed, having issued exactly
/// `reconnect_limit` attempts and no more.
pub proof fn lemma_stall_then_exhaustion(s: ConnectionSupervisor, events: Seq<StreamEvent>)
    requires
        s.state is Connected,
        s.reconnect,
        s.failed_attempts == 0,
        s.reconnect_limit >= 1,
        events.len() == s.reconnect_limit + 1,
        events[0] is IdleTimeout,
        forall|i: int| 1 <= i < events.len() ==> events[i] is OpenFailed,
    ensures
        spec_run(s, events).state is Closed,
        spec_retry_count(s, events) == s.reconnect_limit,
{
    let (s1, a1) = spec_step(s, events[0]);
    assert(s1.state is Reconnecting && s1.failed_attempts == 1);
    let rest = events.drop_first();
    assert(forall|i: int| 0 <= i < rest.len() ==> rest[i] is OpenFailed);
    lemma_failures_exhaust_budget(s1, rest);
}

} // verus!
