use echosrv::datagram_server::{reply_payload, DatagramAction, DatagramEvent, DatagramLoop};
use echosrv::stream_server::{
    CloseReason, Connection, ConnectionAction, ConnectionEvent, ConnectionPhase, ServerAction, ServerEvent,
    StreamServerState,
};

#[test]
fn third_connection_refused_with_limit_two() {
    let mut server = StreamServerState::new(2);
    assert_eq!(server.step(ServerEvent::Accepted), ServerAction::Dispatch);
    assert_eq!(server.step(ServerEvent::Accepted), ServerAction::Dispatch);
    assert_eq!(server.step(ServerEvent::Accepted), ServerAction::Reject);
    assert_eq!(server.active_connections(), 2);

    // Both admitted connections still echo "x".
    for _ in 0..2 {
        let mut conn = Connection::new();
        assert_eq!(conn.step(ConnectionEvent::Read { n: 1 }), ConnectionAction::Write { len: 1 });
        assert_eq!(conn.step(ConnectionEvent::Written), ConnectionAction::Read);
    }
}

#[test]
fn slot_freed_by_closed_connection_is_reused() {
    let mut server = StreamServerState::new(1);
    assert_eq!(server.step(ServerEvent::Accepted), ServerAction::Dispatch);
    assert_eq!(server.step(ServerEvent::Accepted), ServerAction::Reject);
    assert_eq!(server.step(ServerEvent::ConnectionClosed), ServerAction::Continue);
    assert_eq!(server.active_connections(), 0);
    assert_eq!(server.step(ServerEvent::Accepted), ServerAction::Dispatch);
}

#[test]
fn count_never_exceeds_limit_under_many_events() {
    let mut server = StreamServerState::new(3);
    let events = [
        ServerEvent::Accepted,
        ServerEvent::Accepted,
        ServerEvent::AcceptFailed,
        ServerEvent::Accepted,
        ServerEvent::Accepted,
        ServerEvent::ConnectionClosed,
        ServerEvent::Accepted,
        ServerEvent::Accepted,
    ];
    for e in events {
        server.step(e);
        assert!(server.active_connections() <= server.max_connections());
    }
    assert_eq!(server.active_connections(), 3);
}

#[test]
fn zero_limit_refuses_everything() {
    let mut server = StreamServerState::new(0);
    assert_eq!(server.step(ServerEvent::Accepted), ServerAction::Reject);
    assert_eq!(server.active_connections(), 0);
}

#[test]
fn accept_failure_keeps_server_running() {
    let mut server = StreamServerState::new(2);
    assert_eq!(server.step(ServerEvent::AcceptFailed), ServerAction::Continue);
    assert!(server.is_accepting());
}

#[test]
fn no_connection_after_shutdown_while_open_one_completes() {
    let mut server = StreamServerState::new(10);
    assert_eq!(server.step(ServerEvent::Accepted), ServerAction::Dispatch);
    let mut open = Connection::new();

    assert_eq!(server.step(ServerEvent::ShutdownSignal), ServerAction::Stop);
    assert_eq!(server.step(ServerEvent::Accepted), ServerAction::Reject);
    assert_eq!(server.active_connections(), 1);

    // The connection opened before shutdown still echoes its pending "test".
    assert_eq!(open.step(ConnectionEvent::Read { n: 4 }), ConnectionAction::Write { len: 4 });
    assert_eq!(open.step(ConnectionEvent::Written), ConnectionAction::Read);
    assert_eq!(
        open.step(ConnectionEvent::Read { n: 0 }),
        ConnectionAction::Close { reason: CloseReason::PeerClosed }
    );
    assert_eq!(server.step(ServerEvent::ConnectionClosed), ServerAction::Stop);
    assert_eq!(server.active_connections(), 0);
}

#[test]
fn interrupt_stops_accepting() {
    let mut server = StreamServerState::new(10);
    assert_eq!(server.step(ServerEvent::Interrupt), ServerAction::Stop);
    assert!(!server.is_accepting());
    assert_eq!(server.step(ServerEvent::Accepted), ServerAction::Reject);
}

#[test]
fn second_shutdown_changes_nothing() {
    let mut server = StreamServerState::new(4);
    server.step(ServerEvent::Accepted);
    assert_eq!(server.step(ServerEvent::ShutdownSignal), ServerAction::Stop);
    assert_eq!(server.step(ServerEvent::ShutdownSignal), ServerAction::Stop);
    assert_eq!(server.active_connections(), 1);
    assert!(!server.is_accepting());
}

#[test]
fn silent_peer_closed_at_read_deadline() {
    let mut conn = Connection::new();
    assert_eq!(
        conn.step(ConnectionEvent::ReadTimedOut),
        ConnectionAction::Close { reason: CloseReason::TimedOut }
    );
    assert_eq!(conn.phase(), ConnectionPhase::Closed { reason: CloseReason::TimedOut });
}

#[test]
fn connection_failures_close_it() {
    let mut conn = Connection::new();
    assert_eq!(conn.step(ConnectionEvent::ReadFailed), ConnectionAction::Close { reason: CloseReason::Failed });

    let mut conn = Connection::new();
    conn.step(ConnectionEvent::Read { n: 3 });
    assert_eq!(conn.step(ConnectionEvent::WriteTimedOut), ConnectionAction::Close { reason: CloseReason::TimedOut });

    let mut conn = Connection::new();
    conn.step(ConnectionEvent::Read { n: 3 });
    assert_eq!(conn.step(ConnectionEvent::WriteFailed), ConnectionAction::Close { reason: CloseReason::Failed });
}

#[test]
fn closed_connection_stays_closed() {
    let mut conn = Connection::new();
    conn.step(ConnectionEvent::Read { n: 0 });
    assert_eq!(
        conn.step(ConnectionEvent::Read { n: 5 }),
        ConnectionAction::Close { reason: CloseReason::PeerClosed }
    );
}

#[test]
fn datagram_ping_is_answered_with_ping() {
    let mut dloop = DatagramLoop::new();
    let mut buffer = vec![0u8; 1024];
    buffer[..4].copy_from_slice(b"ping");
    assert_eq!(dloop.step(DatagramEvent::Received { n: 4 }), DatagramAction::Reply { len: 4 });
    assert_eq!(reply_payload(&buffer, 4), b"ping".to_vec());
}

#[test]
fn datagram_timeouts_and_errors_are_not_fatal() {
    let mut dloop = DatagramLoop::new();
    assert_eq!(dloop.step(DatagramEvent::ReceiveTimedOut), DatagramAction::Continue);
    assert_eq!(dloop.step(DatagramEvent::ReceiveFailed), DatagramAction::Continue);
    assert!(dloop.is_running());
}

#[test]
fn datagram_loop_silent_after_shutdown() {
    let mut dloop = DatagramLoop::new();
    assert_eq!(dloop.step(DatagramEvent::ShutdownSignal), DatagramAction::Stop);
    assert_eq!(dloop.step(DatagramEvent::Received { n: 4 }), DatagramAction::Stop);
    assert_eq!(dloop.step(DatagramEvent::ShutdownSignal), DatagramAction::Stop);
    assert!(!dloop.is_running());
}

#[test]
fn datagram_empty_reply() {
    assert_eq!(reply_payload(b"abc", 0), Vec::<u8>::new());
}

#[test]
fn shutdown_signal_fires_once() {
    let mut signal = echosrv::shutdown::ShutdownSignal::new();
    assert!(!signal.has_fired());
    assert!(signal.fire());
    assert!(!signal.fire());
    assert!(signal.has_fired());
}
