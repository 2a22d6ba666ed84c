//! Discrete command processing: fixed steps, clamping, wrapping, and the
//! rate limit under bursts.

use robotix::crane::Crane;
use robotix::message::Command;
use robotix::models::{CraneDimensions, CraneLimits, CraneState};

fn fresh_crane() -> Crane {
    Crane::new(
        String::from("robotix.v1"),
        CraneDimensions::default(),
        CraneLimits::default(),
    )
}

/// One lift-up from the rest pose raises the lift by exactly 5 mm.
#[test]
fn lift_up_steps_by_five() {
    let mut crane = fresh_crane();
    let state = crane.process_commands(&vec![Command::LiftUp], 0);
    assert_eq!(
        state,
        CraneState { swing_deg: 0, lift_mm: 105, elbow_deg: 0, wrist_deg: 0, gripper_mm: 90 }
    );
}

/// Repeated lift-ups raise the lift 5 mm at a time until the limit, and
/// clamp there: the pose never exceeds lift_max.
#[test]
fn lift_up_repeats_until_clamped() {
    let mut crane = fresh_crane();
    let mut now: i64 = 0;
    let mut expected: i64 = 100;
    for _ in 0..350 {
        now += 10;
        let state = crane.process_commands(&vec![Command::LiftUp], now);
        expected = (expected + 5).min(1800);
        assert_eq!(state.lift_mm, expected);
    }
    assert_eq!(crane.process_commands(&Vec::new(), now).lift_mm, 1800);
}

/// A burst of the same command faster than 10 ms apart changes state at
/// most once per 10 ms window.
#[test]
fn burst_changes_state_once_per_window() {
    let mut crane = fresh_crane();
    let s1 = crane.process_commands(&vec![Command::SwingRight], 1000);
    assert_eq!(s1.swing_deg, 1);
    let s2 = crane.process_commands(&vec![Command::SwingRight], 1004);
    assert_eq!(s2.swing_deg, 1);
    let s3 = crane.process_commands(&vec![Command::SwingRight], 1009);
    assert_eq!(s3.swing_deg, 1);
    let s4 = crane.process_commands(&vec![Command::SwingRight], 1010);
    assert_eq!(s4.swing_deg, 2);
}

/// Two identical commands inside one batch execute once: the second sees
/// a ledger entry stamped an instant ago.
#[test]
fn duplicate_in_one_batch_executes_once() {
    let mut crane = fresh_crane();
    let state = crane.process_commands(&vec![Command::GripperOpen, Command::GripperOpen], 0);
    assert_eq!(state.gripper_mm, 92);
}

/// The swing axis always wraps modulo 360, in both directions.
#[test]
fn swing_wraps_modulo_360() {
    let mut crane = fresh_crane();
    let left = crane.process_commands(&vec![Command::SwingLeft], 0);
    assert_eq!(left.swing_deg, 359);
    let right = crane.process_commands(&vec![Command::SwingRight], 10);
    assert_eq!(right.swing_deg, 0);
}

/// With the default zero/zero elbow limits the elbow is a free-rotation
/// axis and wraps into [0, 360).
#[test]
fn unbounded_elbow_wraps() {
    let mut crane = fresh_crane();
    let state = crane.process_commands(&vec![Command::ElbowRight], 0);
    assert_eq!(state.elbow_deg, 359);
    let state = crane.process_commands(&vec![Command::ElbowLeft], 10);
    assert_eq!(state.elbow_deg, 0);
}

/// A bounded elbow clamps at its limits instead of wrapping.
#[test]
fn bounded_elbow_clamps() {
    let mut limits = CraneLimits::default();
    limits.elbow_min = 10;
    limits.elbow_max = 12;
    let mut crane = Crane::new(String::from("c"), CraneDimensions::default(), limits);
    crane.state.elbow_deg = 11;
    let state = crane.process_commands(&vec![Command::ElbowLeft], 0);
    assert_eq!(state.elbow_deg, 12);
    let state = crane.process_commands(&vec![Command::ElbowLeft], 10);
    assert_eq!(state.elbow_deg, 12);
    let state = crane.process_commands(&vec![Command::ElbowRight], 20);
    assert_eq!(state.elbow_deg, 11);
    let state = crane.process_commands(&vec![Command::ElbowRight], 30);
    assert_eq!(state.elbow_deg, 10);
    let state = crane.process_commands(&vec![Command::ElbowRight], 40);
    assert_eq!(state.elbow_deg, 10);
}

/// The gripper closes by 2 mm steps and clamps at its minimum.
#[test]
fn gripper_close_clamps_at_min() {
    let mut crane = fresh_crane();
    crane.state.gripper_mm = 3;
    let state = crane.process_commands(&vec![Command::GripperClose], 0);
    assert_eq!(state.gripper_mm, 1);
    let state = crane.process_commands(&vec![Command::GripperClose], 10);
    assert_eq!(state.gripper_mm, 0);
    let state = crane.process_commands(&vec![Command::GripperClose], 20);
    assert_eq!(state.gripper_mm, 0);
}

/// Every pose a command batch produces from a pose within well-formed
/// limits stays within them: bounded axes clamped, free axes in [0, 360).
#[test]
fn batches_keep_state_within_limits() {
    let limits = CraneLimits::default();
    let mut crane = Crane::new(String::from("c"), CraneDimensions::default(), limits);
    crane.state = CraneState { swing_deg: 0, lift_mm: 200, elbow_deg: 0, wrist_deg: 0, gripper_mm: 90 };
    assert!(limits.contains_state(&crane.state));
    let batches = vec![
        vec![Command::LiftDown, Command::SwingLeft, Command::ElbowRight],
        vec![Command::WristRight, Command::GripperOpen],
        vec![Command::LiftUp, Command::LiftDown],
        vec![Command::SwingLeft, Command::WristLeft, Command::GripperClose],
    ];
    let mut now: i64 = 0;
    for batch in &batches {
        now += 10;
        let state = crane.process_commands(batch, now);
        assert!(limits.contains_state(&state), "left the limits at t = {}", now);
    }
}

/// Commands touch exactly one field each: a mixed batch moves each field
/// independently.
#[test]
fn commands_act_on_independent_fields() {
    let mut crane = fresh_crane();
    let state = crane.process_commands(
        &vec![Command::LiftUp, Command::SwingRight, Command::WristLeft, Command::GripperClose],
        0,
    );
    assert_eq!(
        state,
        CraneState { swing_deg: 1, lift_mm: 105, elbow_deg: 0, wrist_deg: 1, gripper_mm: 88 }
    );
}

/// A pose written by an animation commit can hold a negative swing; a
/// further swing step then reduces modulo 360 with the dividend's sign
/// rather than wrapping into [0, 360). This is why the within-limits
/// guarantee asks for a pose within limits to start from.
#[test]
fn swing_from_negative_pose_stays_negative() {
    let mut crane = fresh_crane();
    crane.state.swing_deg = -90;
    let state = crane.process_commands(&vec![Command::SwingRight], 0);
    assert_eq!(state.swing_deg, -89);
    let state = crane.process_commands(&vec![Command::SwingLeft], 10);
    assert_eq!(state.swing_deg, 270);
}
