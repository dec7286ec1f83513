use tcpproxy::{
    close_session, open_session, pump_report, Direction, FailureKind, PumpAction, PumpError,
    ReadOutcome, Relay, Report,
};
use tokio::sync::broadcast::error::TryRecvError;

const UP: Direction = Direction::ClientToUpstream;
const DOWN: Direction = Direction::UpstreamToClient;

fn written(action: PumpAction) -> Vec<u8> {
    match action {
        PumpAction::Write(w) => w,
        _ => panic!("expected a write"),
    }
}

/// Relays one chunk in a direction and returns what went to the other side.
fn relay_chunk(r: &mut Relay, d: Direction, bytes: &[u8]) -> Vec<u8> {
    let w = written(r.on_read(d, ReadOutcome::Bytes(bytes.to_vec())));
    assert!(matches!(r.on_write(d, Ok(())), PumpAction::Read));
    w
}

#[test]
fn ping_hello_session_ends_after_client_closes() {
    let mut r = open_session(Ok(())).unwrap();
    let mut rx_up = r.subscribe();
    let mut rx_down = r.subscribe();
    let to_client = relay_chunk(&mut r, DOWN, b"hello");
    let to_upstream = relay_chunk(&mut r, UP, b"ping");
    assert_eq!(to_client, b"hello");
    assert_eq!(to_upstream, b"ping");
    assert!(!r.is_cancelled());
    assert!(matches!(rx_down.try_recv(), Err(TryRecvError::Empty)));

    // The client half-closes: its pump ends and the signal fires.
    assert!(matches!(r.on_read(UP, ReadOutcome::Bytes(vec![])), PumpAction::Finish));
    assert!(r.is_cancelled());
    assert!(!r.is_finished());
    assert!(matches!(rx_down.try_recv(), Ok(())));
    assert!(matches!(rx_up.try_recv(), Ok(())));

    // The upstream never closes; its pump's read loses to the signal.
    assert!(matches!(r.on_read(DOWN, ReadOutcome::Cancelled), PumpAction::Finish));
    assert!(r.is_finished());
    // The signal fires once, however many pumps end.
    assert!(matches!(rx_down.try_recv(), Err(TryRecvError::Empty)));

    let reports = close_session(r, true);
    assert_eq!(reports.len(), 2);
    assert!(matches!(
        reports[0],
        Report::Transferred { direction: Direction::ClientToUpstream, count: 4 }
    ));
    assert!(matches!(
        reports[1],
        Report::Transferred { direction: Direction::UpstreamToClient, count: 5 }
    ));
}

#[test]
fn unresolvable_target_abandons_only_that_session() {
    let failed = open_session(Err("failed to lookup address information".to_string()));
    match failed {
        Err(Report::UpstreamUnreachable { detail }) => {
            assert_eq!(detail, "failed to lookup address information")
        }
        _ => panic!("the session should be abandoned"),
    }
    // The next client, with a reachable target, is served.
    let mut r = open_session(Ok(())).unwrap();
    assert_eq!(relay_chunk(&mut r, UP, b"ping"), b"ping");
    assert_eq!(relay_chunk(&mut r, DOWN, b"hello"), b"hello");
}

#[test]
fn upstream_reset_ends_cleanly_and_cancels_client_pump() {
    let mut r = open_session(Ok(())).unwrap();
    let mut rx = r.subscribe();
    relay_chunk(&mut r, UP, b"GET");
    let a = r.on_read(DOWN, ReadOutcome::Failed(FailureKind::ConnectionReset, "reset".to_string()));
    assert!(matches!(a, PumpAction::Finish));
    assert!(r.is_cancelled());
    assert!(matches!(rx.try_recv(), Ok(())));
    assert!(matches!(r.on_read(UP, ReadOutcome::Cancelled), PumpAction::Finish));
    let (up, down) = r.into_outcomes();
    assert!(matches!(up, Ok(3)));
    assert!(matches!(down, Ok(0)));
}

#[test]
fn data_ready_with_the_signal_is_still_delivered() {
    let mut r = open_session(Ok(())).unwrap();
    assert!(matches!(r.on_read(UP, ReadOutcome::Bytes(vec![])), PumpAction::Finish));
    // The read won the race: the bytes go out before the pump stops.
    assert_eq!(relay_chunk(&mut r, DOWN, b"late"), b"late");
    assert!(matches!(r.on_read(DOWN, ReadOutcome::Cancelled), PumpAction::Finish));
    let (_, down) = r.into_outcomes();
    assert!(matches!(down, Ok(4)));
}

#[test]
fn pending_write_completes_before_the_signal_is_seen() {
    let mut r = open_session(Ok(())).unwrap();
    let w = written(r.on_read(DOWN, ReadOutcome::Bytes(b"abc".to_vec())));
    assert_eq!(w, b"abc");
    assert!(matches!(r.on_read(UP, ReadOutcome::Bytes(vec![])), PumpAction::Finish));
    assert!(matches!(r.on_write(DOWN, Ok(())), PumpAction::Read));
    assert!(matches!(r.on_read(DOWN, ReadOutcome::Cancelled), PumpAction::Finish));
    let (_, down) = r.into_outcomes();
    assert!(matches!(down, Ok(3)));
}

#[test]
fn sessions_are_independent() {
    let mut a = open_session(Ok(())).unwrap();
    let mut b = open_session(Ok(())).unwrap();
    let mut rx_b = b.subscribe();
    assert!(matches!(
        a.on_read(UP, ReadOutcome::Failed(FailureKind::Other, "boom".to_string())),
        PumpAction::Finish
    ));
    assert!(a.is_cancelled());
    assert!(!b.is_cancelled());
    assert!(matches!(rx_b.try_recv(), Err(TryRecvError::Empty)));
    assert_eq!(relay_chunk(&mut b, UP, b"still"), b"still");
    let c = open_session(Ok(()));
    assert!(c.is_ok());
}

#[test]
fn write_failure_is_reported_always() {
    let mut r = open_session(Ok(())).unwrap();
    r.on_read(DOWN, ReadOutcome::Bytes(b"x".to_vec()));
    assert!(matches!(r.on_write(DOWN, Err("broken pipe".to_string())), PumpAction::Finish));
    assert!(matches!(r.on_read(UP, ReadOutcome::Cancelled), PumpAction::Finish));
    let reports = close_session(r, false);
    assert_eq!(reports.len(), 1);
    match &reports[0] {
        Report::TransferFailed { direction, error: PumpError::Write(d) } => {
            assert_eq!(*direction, Direction::UpstreamToClient);
            assert_eq!(d, "broken pipe");
        }
        other => panic!("unexpected {:?}", other),
    }
}

#[test]
fn counts_are_reported_only_when_verbose() {
    assert!(pump_report(UP, Ok(10), false).is_none());
    assert!(matches!(
        pump_report(UP, Ok(10), true),
        Some(Report::Transferred { direction: Direction::ClientToUpstream, count: 10 })
    ));
    assert!(matches!(
        pump_report(DOWN, Err(PumpError::Read("x".to_string())), false),
        Some(Report::TransferFailed { direction: Direction::UpstreamToClient, .. })
    ));
}

#[test]
fn quiet_clean_session_reports_nothing() {
    let mut r = Relay::new();
    r.on_read(UP, ReadOutcome::Bytes(vec![]));
    r.on_read(DOWN, ReadOutcome::Failed(FailureKind::ConnectionAborted, "aborted".to_string()));
    assert!(r.is_finished());
    assert!(close_session(r, false).is_empty());
}
