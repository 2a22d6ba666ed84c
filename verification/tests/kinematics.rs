//! The kinematics solver on concrete targets: exact solved poses,
//! determinism, and the reachability boundary.

use robotix::kinematics::solve;
use robotix::message::{KinematicError, Location};
use robotix::models::{CraneDimensions, CraneLimits, CraneState};

fn default_setup() -> (CraneDimensions, CraneLimits) {
    (CraneDimensions::default(), CraneLimits::default())
}

/// Fully extended along the x axis: exactly at upperArm + lowerArm
/// (790 + 530 = 1320 mm), the target is reachable, not `Unreachable`,
/// and the elbow lands on its fully extended canonical coordinate.
#[test]
fn extended_boundary_is_reachable() {
    let (dims, limits) = default_setup();
    let target = Location { x: 1320, y: 0, z: 0 };
    let solved = solve(&dims, &limits, 90, &target).expect("boundary must be reachable");
    assert_eq!(
        solved,
        CraneState { swing_deg: 0, lift_mm: 200, elbow_deg: 0, wrist_deg: -90, gripper_mm: 90 }
    );
}

/// The folded boundary |upperArm - lowerArm| = 260 mm is also accepted.
#[test]
fn folded_boundary_is_reachable() {
    let (dims, limits) = default_setup();
    let target = Location { x: 260, y: 0, z: 0 };
    let solved = solve(&dims, &limits, 90, &target).expect("boundary must be reachable");
    assert_eq!(
        solved,
        CraneState {
            swing_deg: -180,
            lift_mm: 200,
            elbow_deg: -180,
            wrist_deg: 0,
            gripper_mm: 90,
        }
    );
}

/// A target one millimeter inside the folded boundary has no planar
/// triangle solution.
#[test]
fn inside_folded_boundary_is_unreachable() {
    let (dims, limits) = default_setup();
    let target = Location { x: 259, y: 0, z: 0 };
    assert!(matches!(
        solve(&dims, &limits, 90, &target),
        Err(KinematicError::Unreachable)
    ));
    let origin = Location { x: 0, y: 0, z: 0 };
    assert!(matches!(
        solve(&dims, &limits, 90, &origin),
        Err(KinematicError::Unreachable)
    ));
}

/// A target beyond upperArm + lowerArm + wristExtension (1320 + 150 mm)
/// is rejected as unreachable.
#[test]
fn beyond_full_extension_is_unreachable() {
    let (dims, limits) = default_setup();
    let target = Location { x: 1471, y: 0, z: 0 };
    assert!(matches!(
        solve(&dims, &limits, 90, &target),
        Err(KinematicError::Unreachable)
    ));
}

/// A target straight ahead on the z axis: swing turns towards it, the
/// elbow folds, the wrist compensates to keep the gripper level.
#[test]
fn forward_target_solved_exactly() {
    let (dims, limits) = default_setup();
    let target = Location { x: 0, y: 0, z: 1000 };
    let solved = solve(&dims, &limits, 90, &target).expect("within reach");
    assert_eq!(
        solved,
        CraneState {
            swing_deg: 118,
            lift_mm: 200,
            elbow_deg: -83,
            wrist_deg: -48,
            gripper_mm: 90,
        }
    );
}

/// A target in the rear-left quadrant: the extension sign flips and both
/// swing and elbow come out negative.
#[test]
fn rear_quadrant_target_solved_exactly() {
    let (dims, limits) = default_setup();
    let target = Location { x: -800, y: 300, z: -600 };
    let solved = solve(&dims, &limits, 90, &target).expect("within reach");
    assert_eq!(
        solved,
        CraneState {
            swing_deg: -114,
            lift_mm: 380,
            elbow_deg: -83,
            wrist_deg: -48,
            gripper_mm: 90,
        }
    );
}

/// A high target clamps the lift to its upper limit; the gripper opening
/// is always carried through unchanged.
#[test]
fn lift_clamps_and_gripper_carries_through() {
    let (dims, limits) = default_setup();
    let target = Location { x: 500, y: 2500, z: 500 };
    let solved = solve(&dims, &limits, 17, &target).expect("within reach");
    assert_eq!(
        solved,
        CraneState {
            swing_deg: 93,
            lift_mm: 1800,
            elbow_deg: -119,
            wrist_deg: -30,
            gripper_mm: 17,
        }
    );
}

/// Identical inputs always yield the identical outcome, reachable or not.
#[test]
fn solve_is_deterministic() {
    let (dims, limits) = default_setup();
    for target in [
        Location { x: 933, y: 0, z: 933 },
        Location { x: 1471, y: 0, z: 0 },
        Location { x: -800, y: 300, z: -600 },
    ] {
        let first = solve(&dims, &limits, 90, &target);
        let second = solve(&dims, &limits, 90, &target);
        match (first, second) {
            (Ok(a), Ok(b)) => assert_eq!(a, b),
            (Err(KinematicError::Unreachable), Err(KinematicError::Unreachable)) => {}
            _ => panic!("same input gave different outcomes"),
        }
    }
}

/// Every accepted point strictly between the two boundaries stays
/// accepted along a sweep of the x axis.
#[test]
fn sweep_between_boundaries_is_accepted() {
    let (dims, limits) = default_setup();
    for x in [261, 400, 700, 933, 1100, 1319] {
        let target = Location { x, y: 0, z: 0 };
        assert!(solve(&dims, &limits, 90, &target).is_ok(), "x = {} must be reachable", x);
    }
    for x in [1321, 1400, 5000] {
        let target = Location { x, y: 0, z: 0 };
        assert!(solve(&dims, &limits, 90, &target).is_err(), "x = {} must be out of reach", x);
    }
}
