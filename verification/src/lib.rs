//! A verified control core for remotely operated robotic crane manipulators.
//!
//! Several operators observe and jointly drive a small fleet of cranes. Each
//! crane is owned by a sequential controller that applies rate-limited
//! discrete commands, solves inverse kinematics for continuous motion
//! targets, animates transitions as a timed sequence of intermediate poses,
//! and emits one broadcast operation per state change. A registry keeps at
//! most one controller per crane identifier.

use vstd::prelude::*;

pub mod config;
pub mod crane;
pub mod errors;
pub mod interpolate;
pub mod kinematics;
pub mod message;
pub mod models;
pub mod registry;
pub mod session;
pub mod trig;

verus! {

/// Minimum interval in milliseconds between repeated applications of the
/// same discrete command.
pub const MOVEMENT_INTERVAL_MS: i64 = 10;

/// Delay in milliseconds between consecutive interpolation steps of an
/// animated motion.
pub const STEP_DELAY_MS: i64 = 30;

/// Interval in milliseconds between liveness probes sent to an operator.
pub const HEARTBEAT_INTERVAL_MS: i64 = 10000;

/// An operator that has not answered a liveness probe for this many
/// milliseconds is considered gone.
pub const CLIENT_TIMEOUT_MS: i64 = 30000;

} // verus!
