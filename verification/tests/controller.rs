//! The controller as a whole: membership, operation handling, animation
//! plans, and scheduled commits.

use robotix::crane::{Crane, CraneEffects};
use robotix::interpolate::{interpolation_plan, plan_steps_exec};
use robotix::message::{Action, Command, Disconnect, Location, Operation, RobotCraneInfoRequest};
use robotix::models::{CraneDimensions, CraneLimits, CraneState};

fn fresh_crane() -> Crane {
    Crane::new(
        String::from("robotix.v1"),
        CraneDimensions::default(),
        CraneLimits::default(),
    )
}

/// A join registers the operator and yields the join broadcast; a re-join
/// is idempotent.
#[test]
fn join_registers_once() {
    let mut crane = fresh_crane();
    let op = crane.join(42, 1000);
    assert_eq!(op.user_id, 42);
    assert_eq!(op.created_at_ms, 1000);
    assert!(matches!(op.action, Action::Join { payload: 42 }));
    assert_eq!(crane.members.len(), 1);
    crane.join(42, 2000);
    assert_eq!(crane.members.len(), 1);
    crane.join(7, 3000);
    assert_eq!(crane.members.len(), 2);
}

/// A join followed by two leaves for the same operator: the first leave
/// broadcasts the departure, the second is a complete no-op.
#[test]
fn second_leave_is_a_no_op() {
    let mut crane = fresh_crane();
    crane.join(42, 0);
    let first = crane.leave(Disconnect { user: 42 }, 10);
    let op = first.expect("first leave must broadcast");
    assert!(matches!(op.action, Action::Leave { payload: 42 }));
    assert_eq!(crane.members.len(), 0);
    let second = crane.leave(Disconnect { user: 42 }, 20);
    assert!(second.is_none());
    assert_eq!(crane.members.len(), 0);
}

/// A leave for an operator that never joined broadcasts nothing.
#[test]
fn leave_of_unknown_operator_is_silent() {
    let mut crane = fresh_crane();
    crane.join(1, 0);
    assert!(crane.leave(Disconnect { user: 99 }, 10).is_none());
    assert_eq!(crane.members.len(), 1);
}

/// A command operation executes immediately and answers with exactly one
/// update broadcast carrying the resulting pose.
#[test]
fn handle_command_broadcasts_one_update() {
    let mut crane = fresh_crane();
    let msg = Operation { user_id: 5, action: Action::Command { payload: vec![Command::LiftUp] }, created_at_ms: 0 };
    let eff: CraneEffects = crane.handle(&msg, 0);
    assert_eq!(eff.scheduled.len(), 0);
    assert_eq!(eff.broadcasts.len(), 1);
    let out = &eff.broadcasts[0];
    assert_eq!(out.user_id, 5);
    assert_eq!(out.created_at_ms, 0);
    match &out.action {
        Action::Update { payload } => {
            assert_eq!(payload.lift_mm, 105);
            assert_eq!(*payload, crane.state);
        }
        _ => panic!("expected an update broadcast"),
    }
}

/// A reachable move does not touch the pose: it schedules the whole
/// animation instead, one update per step, and the final scheduled step
/// exactly equals the solved target.
#[test]
fn handle_move_schedules_animation() {
    let mut crane = fresh_crane();
    let before = crane.state;
    let msg = Operation {
        user_id: 9,
        action: Action::Move { payload: Location { x: 1320, y: 0, z: 0 } },
        created_at_ms: 50,
    };
    let eff = crane.handle(&msg, 50);
    assert_eq!(crane.state, before);
    assert_eq!(eff.broadcasts.len(), 0);
    // Displacement from {0,100,0,0,90} to {0,200,0,-90,90} is 190, so the
    // plan has 10 + round(190 / 10) = 29 steps.
    assert_eq!(eff.scheduled.len(), 29);
    let goal = CraneState { swing_deg: 0, lift_mm: 200, elbow_deg: 0, wrist_deg: -90, gripper_mm: 90 };
    match &eff.scheduled[28].action {
        Action::Update { payload } => assert_eq!(*payload, goal),
        _ => panic!("expected an update"),
    }
    for op in &eff.scheduled {
        assert_eq!(op.user_id, 9);
        assert_eq!(op.created_at_ms, 50);
        assert!(matches!(op.action, Action::Update { .. }));
    }
}

/// An unreachable move changes nothing: no broadcast, no schedule, no
/// state change.
#[test]
fn handle_unreachable_move_changes_nothing() {
    let mut crane = fresh_crane();
    let before = crane.state;
    let msg = Operation {
        user_id: 9,
        action: Action::Move { payload: Location { x: 1471, y: 0, z: 0 } },
        created_at_ms: 0,
    };
    let eff = crane.handle(&msg, 0);
    assert_eq!(crane.state, before);
    assert_eq!(eff.broadcasts.len(), 0);
    assert_eq!(eff.scheduled.len(), 0);
}

/// Server-authored actions arriving as operator input are ignored.
#[test]
fn handle_ignores_server_authored_actions() {
    let mut crane = fresh_crane();
    let before = crane.state;
    for action in [
        Action::Join { payload: 1 },
        Action::Leave { payload: 1 },
        Action::Update { payload: before },
    ] {
        let eff = crane.handle(&Operation { user_id: 1, action, created_at_ms: 0 }, 0);
        assert_eq!(eff.broadcasts.len(), 0);
        assert_eq!(eff.scheduled.len(), 0);
        assert_eq!(crane.state, before);
    }
}

/// Committing a scheduled step overwrites the authoritative pose.
#[test]
fn commit_step_overwrites_pose() {
    let mut crane = fresh_crane();
    let step = CraneState { swing_deg: 3, lift_mm: 140, elbow_deg: 1, wrist_deg: -31, gripper_mm: 90 };
    crane.commit_step(step);
    assert_eq!(crane.state, step);
}

/// The snapshot mirrors the controller without touching it.
#[test]
fn info_snapshots_controller() {
    let crane = fresh_crane();
    let info = crane.info();
    assert_eq!(info.id, "robotix.v1");
    assert_eq!(info.state, crane.state);
    assert_eq!(info.dimensions, crane.dimensions);
    let _ = RobotCraneInfoRequest;
}

/// The interpolation plan has its promised length and always ends exactly
/// on the target, regardless of rounding along the way.
#[test]
fn plan_ends_exactly_on_target() {
    let a = CraneState::default();
    let b = CraneState { swing_deg: 57, lift_mm: 1234, elbow_deg: -171, wrist_deg: -88, gripper_mm: 13 };
    // Displacement: 57 + 1134 + 171 + 88 + 77 = 1527; 10 + round(152.7) = 163.
    let n = plan_steps_exec(&a, &b);
    assert_eq!(n, 163);
    let plan = interpolation_plan(&a, &b);
    assert_eq!(plan.len(), 163);
    assert_eq!(*plan.last().unwrap(), b);
    // A tiny move still gets the 10-step floor.
    let c = CraneState { lift_mm: 101, ..a };
    let small = interpolation_plan(&a, &c);
    assert_eq!(small.len(), 10);
    assert_eq!(*small.last().unwrap(), c);
    // A zero-length move keeps the pose at every step.
    let idle = interpolation_plan(&a, &a);
    assert_eq!(idle.len(), 10);
    for step in &idle {
        assert_eq!(*step, a);
    }
}

/// Interpolated steps move monotonically between the endpoints for a
/// single-field move, 5 mm of lift per step here.
#[test]
fn plan_steps_are_between_endpoints() {
    let a = CraneState::default();
    let b = CraneState { lift_mm: 1090, ..a };
    // Displacement 990: 10 + round(99.0) = 109 steps.
    let plan = interpolation_plan(&a, &b);
    assert_eq!(plan.len(), 109);
    let mut prev = a.lift_mm;
    for step in &plan {
        assert!(step.lift_mm >= prev);
        assert!(step.lift_mm <= b.lift_mm);
        prev = step.lift_mm;
    }
    assert_eq!(prev, 1090);
}
