//! Messages exchanged between client sessions and crane controllers: the
//! discrete command set, the continuous motion target, the action payloads,
//! and the operation envelope that every broadcast carries.

use vstd::prelude::*;

use crate::models::{CraneDimensions, CraneState};

verus! {

/// Identifier of one connected operator.
pub type OperatorId = u128;

/// One of the fixed discrete motion commands an operator can issue. Each
/// command moves exactly one field of the pose by a fixed step.
#[derive(Clone, Copy, Debug, PartialEq, Eq, Hash, Structural)]
pub enum Command {
    LiftUp,
    LiftDown,
    SwingLeft,
    SwingRight,
    ElbowLeft,
    ElbowRight,
    WristLeft,
    WristRight,
    GripperOpen,
    GripperClose,
}

/// A 3D target point for continuous motion, in millimeters. `y` is
/// vertical, `z` is forward/backward.
#[derive(Clone, Copy, Debug, PartialEq, Eq, Structural)]
pub struct Location {
    pub x: i64,
    pub y: i64,
    pub z: i64,
}

/// Failure of the kinematics solver.
#[derive(Clone, Copy, Debug, PartialEq, Eq, Structural)]
pub enum KinematicError {
    /// The planar triangle inequality has no solution for the requested
    /// point: it lies beyond the fully extended arm or inside the circle
    /// the folded arm cannot enter.
    Unreachable,
}

impl KinematicError {
    /// A human-readable description of the failure.
    pub fn message(&self) -> (res: String)
        ensures
            res@ == "the provided location is not reachable"@,
    {
        "the provided location is not reachable".to_owned()
    }
}

/// Tagged payload of an operation. `Join`, `Leave` and `Update` are
/// server-authored; `Move` and `Command` are operator-authored.
#[derive(Clone, Debug)]
#[allow(inconsistent_fields)]
pub enum Action {
    Join { payload: OperatorId },
    Leave { payload: OperatorId },
    Move { payload: Location },
    Command { payload: Vec<Command> },
    Update { payload: CraneState },
}

/// Envelope around an [`Action`]: who issued it and when. The timestamp is
/// in milliseconds since the Unix epoch.
#[derive(Clone, Debug)]
pub struct Operation {
    pub user_id: OperatorId,
    pub action: Action,
    pub created_at_ms: i64,
}

/// Relies on `chrono::Utc::now` and `chrono::DateTime::timestamp_millis`:
/// the current wall-clock time as whole milliseconds since the Unix epoch.
/// `Utc::now` aborts if the system clock is set before the epoch, so a
/// returned value is never negative.
#[verifier::external_body]
pub fn current_millis() -> (r: i64)
    ensures
        0 <= r,
{
    chrono::Utc::now().timestamp_millis()
}

impl Operation {
    /// Wraps an action in an envelope stamped with the current wall-clock
    /// time.
    pub fn new(user_id: OperatorId, action: Action) -> (res: Self)
        ensures
            res.user_id == user_id,
            res.action == action,
            0 <= res.created_at_ms,
    {
        Operation { user_id, action, created_at_ms: current_millis() }
    }

    /// Wraps an action in an envelope with an explicit timestamp, as a
    /// controller does when it answers an input it processed at `now_ms`.
    pub fn at(user_id: OperatorId, action: Action, now_ms: i64) -> (res: Self)
        ensures
            res == (Operation { user_id, action, created_at_ms: now_ms }),
    {
        Operation { user_id, action, created_at_ms: now_ms }
    }
}

/// Request that an operator leave a controller.
#[derive(Clone, Copy, Debug, PartialEq, Eq, Structural)]
pub struct Disconnect {
    pub user: OperatorId,
}

/// Snapshot of one controller: identifier, current pose, and geometry.
#[derive(Clone, Debug)]
pub struct RobotCraneInfo {
    pub id: String,
    pub state: CraneState,
    pub dimensions: CraneDimensions,
}

/// Request for a [`RobotCraneInfo`] snapshot.
#[derive(Clone, Copy, Debug, PartialEq, Eq, Structural)]
pub struct RobotCraneInfoRequest;

} // verus!
