//! Data model defaults, validity checks, errors and the operation
//! envelope.

use robotix::errors::ServerError;
use robotix::message::{Action, KinematicError, Operation};
use robotix::models::{CraneDetails, CraneDimensions, CraneLimits, CraneState};

/// The rest pose every controller starts from.
#[test]
fn default_state_is_rest_pose() {
    assert_eq!(
        CraneState::default(),
        CraneState { swing_deg: 0, lift_mm: 100, elbow_deg: 0, wrist_deg: 0, gripper_mm: 90 }
    );
}

/// The hard-coded default geometry, in millimeters.
#[test]
fn default_dimensions_in_millimeters() {
    let dims = CraneDimensions::default();
    assert_eq!(dims.base_height, 100);
    assert_eq!(dims.upper_arm_length, 750);
    assert_eq!(dims.upper_arm_thickness, 40);
    assert_eq!(dims.lower_arm_length, 500);
    assert_eq!(dims.lower_arm_thickness, 30);
    assert_eq!(dims.column_height, 2000);
    assert_eq!(dims.wrist_extension_length, 150);
    assert_eq!(dims.gripper_max_open, 100);
    assert!(dims.check_wf());
}

/// The hard-coded default limits: lift and gripper bounded, elbow and
/// wrist unbounded free-rotation axes.
#[test]
fn default_limits() {
    let limits = CraneLimits::default();
    assert_eq!((limits.lift_min, limits.lift_max), (200, 1800));
    assert_eq!((limits.gripper_min, limits.gripper_max), (0, 200));
    assert_eq!((limits.elbow_min, limits.elbow_max), (0, 0));
    assert_eq!((limits.wrist_min, limits.wrist_max), (0, 0));
    assert_eq!((limits.swing_min, limits.swing_max), (0, 360));
    assert!(limits.check_wf());
}

/// Geometry with a non-positive arm or an absurd length is rejected by
/// the validity check.
#[test]
fn invalid_dimensions_rejected() {
    let mut dims = CraneDimensions::default();
    dims.upper_arm_length = 0;
    dims.upper_arm_thickness = 0;
    assert!(!dims.check_wf());
    let mut dims = CraneDimensions::default();
    dims.lower_arm_length = 2_000_000;
    assert!(!dims.check_wf());
}

/// Mixed zero/non-zero rotational limits are not well formed: the code
/// would wrap in one direction and clamp in the other.
#[test]
fn mixed_zero_limits_rejected() {
    let mut limits = CraneLimits::default();
    limits.elbow_max = 90;
    assert!(!limits.check_wf());
    limits.elbow_min = 1;
    assert!(limits.check_wf());
}

/// Pose containment distinguishes bounded from free-rotation axes.
#[test]
fn contains_state_checks_axes() {
    let limits = CraneLimits::default();
    let good = CraneState { swing_deg: 359, lift_mm: 200, elbow_deg: 0, wrist_deg: 359, gripper_mm: 200 };
    assert!(limits.contains_state(&good));
    let low_lift = CraneState { lift_mm: 199, ..good };
    assert!(!limits.contains_state(&low_lift));
    let negative_wrist = CraneState { wrist_deg: -1, ..good };
    assert!(!limits.contains_state(&negative_wrist));
}

/// The default client-facing snapshot.
#[test]
fn default_details() {
    let details = CraneDetails::default();
    assert_eq!(details.id, "robotix.v1");
    assert_eq!(details.state, CraneState::default());
    assert_eq!(details.dimensions, CraneDimensions::default());
}

/// The operation envelope stamps the wall clock: never before the epoch,
/// and the payload is carried unchanged.
#[test]
fn operation_new_stamps_wall_clock() {
    let op = Operation::new(11, Action::Join { payload: 11 });
    assert_eq!(op.user_id, 11);
    assert!(op.created_at_ms >= 0);
    assert!(matches!(op.action, Action::Join { payload: 11 }));
    let later = Operation::new(11, Action::Leave { payload: 11 });
    assert!(later.created_at_ms >= op.created_at_ms);
}

/// Each error surfaces with its own HTTP status code and message.
#[test]
fn server_error_status_codes() {
    assert_eq!(ServerError::RobotIdInvalid.status_code(), 400);
    assert_eq!(ServerError::RobotNotFound(String::from("r2")).status_code(), 404);
    assert_eq!(ServerError::SystemFailure(String::from("boom")).status_code(), 500);
}

/// Error messages name the failing identifier or detail.
#[test]
fn server_error_messages() {
    assert_eq!(
        ServerError::RobotIdInvalid.message(),
        "the provided id is not a valid robot id"
    );
    assert_eq!(
        ServerError::RobotNotFound(String::from("r2")).message(),
        "the robot with id `r2` was not found"
    );
    assert_eq!(
        ServerError::SystemFailure(String::from("boom")).message(),
        "the server encountered an unexpected error: `boom`"
    );
}

/// The solver's failure describes itself.
#[test]
fn kinematic_error_message() {
    assert_eq!(
        KinematicError::Unreachable.message(),
        "the provided location is not reachable"
    );
}

/// The process configuration record carries the settings through intact.
#[test]
fn arguments_carry_settings() {
    let settings = robotix::config::Settings {
        host: String::from("127.0.0.1"),
        port: 8080,
        log_level: String::from("info"),
        cors_allow_origin: String::from("http://localhost:3000"),
        robot_config_dir: String::from("config"),
    };
    let args = robotix::config::Arguments {
        command: robotix::config::Commands::Start(settings),
    };
    match args.command {
        robotix::config::Commands::Start(s) => {
            assert_eq!(s.host, "127.0.0.1");
            assert_eq!(s.port, 8080);
            assert_eq!(s.robot_config_dir, "config");
        }
    }
}
