//! The client session state machine: frame dispatch and liveness.

use robotix::message::{Action, Command, Location};
use robotix::session::{HeartbeatDirective, InboundFrame, Session, SessionDirective};
use robotix::{CLIENT_TIMEOUT_MS, HEARTBEAT_INTERVAL_MS, MOVEMENT_INTERVAL_MS, STEP_DELAY_MS};

/// A decoded action is wrapped into an operation authored by this
/// operator, stamped with the processing time, and forwarded.
#[test]
fn decoded_action_is_forwarded() {
    let mut session = Session::new(77, 1000);
    let frame = InboundFrame::Text {
        action: Some(Action::Move { payload: Location { x: 1, y: 2, z: 3 } }),
    };
    match session.on_frame(frame, 1500) {
        SessionDirective::Forward { op } => {
            assert_eq!(op.user_id, 77);
            assert_eq!(op.created_at_ms, 1500);
            assert!(matches!(op.action, Action::Move { payload: Location { x: 1, y: 2, z: 3 } }));
        }
        _ => panic!("expected a forward"),
    }
    assert_eq!(session.last_pong_ms, 1000);
}

/// A malformed text frame is dropped; the session stays open.
#[test]
fn malformed_frame_is_dropped() {
    let mut session = Session::new(77, 1000);
    assert!(matches!(
        session.on_frame(InboundFrame::Text { action: None }, 1500),
        SessionDirective::Ignore
    ));
    assert_eq!(session.last_pong_ms, 1000);
}

/// A liveness reply resets the deadline and nothing is forwarded.
#[test]
fn pong_resets_deadline() {
    let mut session = Session::new(77, 1000);
    assert!(matches!(
        session.on_frame(InboundFrame::Pong, 9000),
        SessionDirective::Ignore
    ));
    assert_eq!(session.last_pong_ms, 9000);
}

/// Any other frame kind closes the session.
#[test]
fn other_frame_closes_session() {
    let mut session = Session::new(77, 1000);
    assert!(matches!(
        session.on_frame(InboundFrame::Other, 1500),
        SessionDirective::Close
    ));
}

/// The heartbeat probes a live peer and closes one that has been silent
/// past the 30 s deadline — exactly past it, not at it.
#[test]
fn heartbeat_closes_exactly_past_deadline() {
    let session = Session::new(77, 1000);
    assert_eq!(session.heartbeat_tick(1000 + CLIENT_TIMEOUT_MS), HeartbeatDirective::Ping);
    assert_eq!(session.heartbeat_tick(1000 + CLIENT_TIMEOUT_MS + 1), HeartbeatDirective::Close);
}

/// Forwarding a command batch keeps the batch intact.
#[test]
fn command_batch_forwarded_intact() {
    let mut session = Session::new(3, 0);
    let frame = InboundFrame::Text {
        action: Some(Action::Command { payload: vec![Command::LiftUp, Command::SwingLeft] }),
    };
    match session.on_frame(frame, 40) {
        SessionDirective::Forward { op } => match op.action {
            Action::Command { payload } => {
                assert_eq!(payload.len(), 2);
                assert!(matches!(payload[0], Command::LiftUp));
                assert!(matches!(payload[1], Command::SwingLeft));
            }
            _ => panic!("expected a command batch"),
        },
        _ => panic!("expected a forward"),
    }
}

/// The protocol constants are what the design fixes them to.
#[test]
fn protocol_constants() {
    assert_eq!(MOVEMENT_INTERVAL_MS, 10);
    assert_eq!(STEP_DELAY_MS, 30);
    assert_eq!(HEARTBEAT_INTERVAL_MS, 10_000);
    assert_eq!(CLIENT_TIMEOUT_MS, 30_000);
}
