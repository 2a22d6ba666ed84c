//! The client session state machine: the decisions one connected operator's
//! session takes, separated from the transport that carries them.
//!
//! A session lives between Connected and Closed. While connected it relays
//! decoded operator actions to its controller, answers transport liveness
//! replies by resetting its deadline, and closes on any other frame. A
//! periodic heartbeat tick probes the peer and closes the session once the
//! deadline has passed; closing always detaches the operator from its
//! controller.

use vstd::prelude::*;

use crate::message::{Action, Operation, OperatorId};
use crate::CLIENT_TIMEOUT_MS;

verus! {

/// One operator's session: who they are and when they last proved alive.
#[derive(Clone, Copy, Debug)]
pub struct Session {
    pub operator: OperatorId,
    pub last_pong_ms: i64,
}

/// One inbound transport frame, as the transport layer hands it over: a
/// text frame with its decoded action (or nothing, when the text was
/// malformed), a liveness reply, or any other frame kind.
#[derive(Clone, Debug)]
pub enum InboundFrame {
    Text { action: Option<Action> },
    Pong,
    Other,
}

/// What the session decides about one inbound frame.
#[derive(Clone, Debug)]
pub enum SessionDirective {
    /// Relay this operation to the controller, fire-and-forget.
    Forward { op: Operation },
    /// Drop the frame and stay connected.
    Ignore,
    /// Transition to Closed: detach from the controller.
    Close,
}

/// What the session decides on one heartbeat tick.
#[derive(Clone, Copy, Debug, PartialEq, Eq, Structural)]
pub enum HeartbeatDirective {
    /// Probe the peer for liveness.
    Ping,
    /// The deadline has passed: transition to Closed.
    Close,
}

impl Session {
    /// Opens a session for `operator` at `now_ms`: the liveness deadline
    /// starts counting from now. Entering the connected state also joins
    /// the controller; the runtime performs that with the returned value.
    pub fn new(operator: OperatorId, now_ms: i64) -> (s: Session)
        ensures
            s.operator == operator,
            s.last_pong_ms == now_ms,
    {
        Session { operator, last_pong_ms: now_ms }
    }

    /// One heartbeat tick at `now_ms`: closes the session exactly when
    /// the peer has been silent past the client timeout, and probes it
    /// otherwise.
    pub fn heartbeat_tick(&self, now_ms: i64) -> (d: HeartbeatDirective)
        ensures
            d == HeartbeatDirective::Close <==> now_ms - self.last_pong_ms > CLIENT_TIMEOUT_MS,
            d == HeartbeatDirective::Ping <==> !(now_ms - self.last_pong_ms > CLIENT_TIMEOUT_MS),
    {
        if now_ms as i128 - self.last_pong_ms as i128 > CLIENT_TIMEOUT_MS as i128 {
            HeartbeatDirective::Close
        } else {
            HeartbeatDirective::Ping
        }
    }

    /// One inbound frame at `now_ms`. A decoded action is wrapped into an
    /// operation authored by this operator and forwarded; a malformed
    /// text frame is dropped without closing; a liveness reply resets the
    /// deadline; anything else closes the session.
    pub fn on_frame(&mut self, frame: InboundFrame, now_ms: i64) -> (d: SessionDirective)
        ensures
            final(self).operator == old(self).operator,
            (frame matches InboundFrame::Text { action: Some(a) } ==> *final(self) == *old(self)
                && d == (SessionDirective::Forward {
                op: Operation {
                    user_id: old(self).operator,
                    action: a,
                    created_at_ms: now_ms,
                },
            })),
            (frame matches InboundFrame::Text { action: None } ==> *final(self) == *old(self) && d
                == SessionDirective::Ignore),
            (frame matches InboundFrame::Pong ==> final(self).last_pong_ms == now_ms && d
                == SessionDirective::Ignore),
            (frame matches InboundFrame::Other ==> *final(self) == *old(self) && d
                == SessionDirective::Close),
    {
        match frame {
            InboundFrame::Text { action } => {
                match action {
                    Some(a) => SessionDirective::Forward {
                        op: Operation {
                            user_id: self.operator,
                            action: a,
                            created_at_ms: now_ms,
                        },
                    },
                    None => SessionDirective::Ignore,
                }
            }
            InboundFrame::Pong => {
                self.last_pong_ms = now_ms;
                SessionDirective::Ignore
            }
            InboundFrame::Other => SessionDirective::Close,
        }
    }
}

} // verus!
