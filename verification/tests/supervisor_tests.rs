use event_listener::supervisor::{
    on_stream_error, ConnectionState, ConnectionSupervisor, ErrorDirective, StreamAction,
    StreamEvent, WsErrorKind, CONNECTION_TIMEOUT, RECONNECT, RECONNECT_LIMIT,
};

#[test]
fn defaults_match_the_documented_policy() {
    assert!(RECONNECT);
    assert_eq!(RECONNECT_LIMIT, 10);
    assert_eq!(CONNECTION_TIMEOUT, 60);
    let s = ConnectionSupervisor::with_defaults();
    assert_eq!(s.state, ConnectionState::Disconnected);
    assert_eq!(s.failed_attempts, 0);
}

#[test]
fn ordinary_lifecycle_delivers_frames() {
    let mut s = ConnectionSupervisor::with_defaults();
    assert_eq!(s.handle_event(StreamEvent::StartRequested), StreamAction::Connect);
    assert_eq!(s.state, ConnectionState::Connecting);
    assert_eq!(s.handle_event(StreamEvent::OpenSucceeded), StreamAction::RunOnOpen);
    assert_eq!(s.state, ConnectionState::Connected);
    assert_eq!(s.handle_event(StreamEvent::FrameReceived), StreamAction::DeliverFrame);
    assert_eq!(s.state, ConnectionState::Connected);
}

#[test]
fn sixty_idle_seconds_stall_the_stream() {
    let s = ConnectionSupervisor::with_defaults();
    assert!(!s.is_stalled(59));
    assert!(s.is_stalled(60));
    assert!(s.is_stalled(61));
}

#[test]
fn stall_triggers_one_reconnect_then_exhaustion_closes() {
    // The stalled-stream scenario: one reconnect attempt on the timeout,
    // and after ten consecutive failures the stream is closed and stays so.
    let mut s = ConnectionSupervisor::with_defaults();
    s.handle_event(StreamEvent::StartRequested);
    s.handle_event(StreamEvent::OpenSucceeded);
    assert_eq!(s.handle_event(StreamEvent::IdleTimeout), StreamAction::Retry);
    assert_eq!(s.state, ConnectionState::Reconnecting);
    assert_eq!(s.failed_attempts, 1);
    let mut retries: u64 = 1;
    for failure in 1..=10 {
        let action = s.handle_event(StreamEvent::OpenFailed);
        if failure < 10 {
            assert_eq!(action, StreamAction::Retry);
            retries += 1;
            assert_eq!(s.state, ConnectionState::Reconnecting);
        } else {
            assert_eq!(action, StreamAction::Shutdown);
            assert_eq!(s.state, ConnectionState::Closed);
        }
    }
    assert_eq!(retries, 10);
    assert!(s.is_closed());
    // Closed is terminal: nothing reopens or retries.
    assert_eq!(s.handle_event(StreamEvent::OpenSucceeded), StreamAction::Ignore);
    assert_eq!(s.handle_event(StreamEvent::StartRequested), StreamAction::Ignore);
    assert_eq!(s.state, ConnectionState::Closed);
}

#[test]
fn reconnect_success_resets_the_budget() {
    let mut s = ConnectionSupervisor::with_defaults();
    s.handle_event(StreamEvent::StartRequested);
    s.handle_event(StreamEvent::OpenSucceeded);
    s.handle_event(StreamEvent::TransportError);
    assert_eq!(s.failed_attempts, 1);
    assert_eq!(s.handle_event(StreamEvent::OpenSucceeded), StreamAction::RunOnOpen);
    assert_eq!(s.failed_attempts, 0);
    assert_eq!(s.state, ConnectionState::Connected);
}

#[test]
fn parser_error_closes_permanently() {
    let mut s = ConnectionSupervisor::with_defaults();
    s.handle_event(StreamEvent::StartRequested);
    s.handle_event(StreamEvent::OpenSucceeded);
    assert_eq!(s.handle_event(StreamEvent::ParserError), StreamAction::Shutdown);
    assert!(s.is_closed());
}

#[test]
fn close_is_idempotent() {
    let mut s = ConnectionSupervisor::with_defaults();
    assert_eq!(s.handle_event(StreamEvent::CloseRequested), StreamAction::Shutdown);
    assert!(s.is_closed());
    assert_eq!(s.handle_event(StreamEvent::CloseRequested), StreamAction::Ignore);
    assert!(s.is_closed());
}

#[test]
fn reconnect_disabled_closes_on_first_trouble() {
    let mut s = ConnectionSupervisor::new(false, 10, 60);
    s.handle_event(StreamEvent::StartRequested);
    s.handle_event(StreamEvent::OpenSucceeded);
    assert_eq!(s.handle_event(StreamEvent::IdleTimeout), StreamAction::Shutdown);
    assert!(s.is_closed());
}

#[test]
fn close_mid_reconnect_aborts_further_attempts() {
    let mut s = ConnectionSupervisor::with_defaults();
    s.handle_event(StreamEvent::StartRequested);
    s.handle_event(StreamEvent::OpenSucceeded);
    s.handle_event(StreamEvent::TransportError);
    assert_eq!(s.state, ConnectionState::Reconnecting);
    assert_eq!(s.handle_event(StreamEvent::CloseRequested), StreamAction::Shutdown);
    assert_eq!(s.handle_event(StreamEvent::OpenFailed), StreamAction::Ignore);
    assert!(s.is_closed());
}

#[test]
fn error_directives_match_the_policy() {
    assert_eq!(on_stream_error(WsErrorKind::ParserError), ErrorDirective::CloseConnection);
    assert_eq!(on_stream_error(WsErrorKind::ReconnectError), ErrorDirective::CloseConnection);
    assert_eq!(
        on_stream_error(WsErrorKind::OtherTransportError),
        ErrorDirective::RestartConnection
    );
}
