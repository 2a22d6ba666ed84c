//! Core data records of one crane: its pose, its fixed geometry, and the
//! per-axis bounds on its pose.
//!
//! All lengths are integral millimeters and all angles are integral degrees,
//! so every record is exact and every computation on them is exact integer
//! arithmetic.

use vstd::prelude::*;

verus! {

/// The five-field pose of one crane. Angles are in degrees, lengths in
/// millimeters.
#[derive(Clone, Copy, Debug, PartialEq, Eq, Structural)]
pub struct CraneState {
    pub swing_deg: i64,
    pub lift_mm: i64,
    pub elbow_deg: i64,
    pub wrist_deg: i64,
    pub gripper_mm: i64,
}

impl Default for CraneState {
    /// The rest pose every controller starts from.
    fn default() -> (res: Self)
        ensures
            res == CraneState::initial(),
    {
        CraneState { swing_deg: 0, lift_mm: 100, elbow_deg: 0, wrist_deg: 0, gripper_mm: 90 }
    }
}

impl CraneState {
    /// The rest pose as a spec-level constant.
    pub open spec fn initial() -> CraneState {
        CraneState { swing_deg: 0, lift_mm: 100, elbow_deg: 0, wrist_deg: 0, gripper_mm: 90 }
    }
}

/// Immutable geometry of one crane, fixed at controller creation. Every
/// field is a length in millimeters.
#[derive(Clone, Copy, Debug, PartialEq, Eq, Structural)]
pub struct CraneDimensions {
    pub base_height: i64,
    pub base_radius_top: i64,
    pub base_radius_bottom: i64,

    pub column_height: i64,
    pub column_width: i64,
    pub column_thickness: i64,

    pub upper_arm_length: i64,
    pub upper_arm_width: i64,
    pub upper_arm_thickness: i64,

    pub lower_arm_length: i64,
    pub lower_arm_width: i64,
    pub lower_arm_thickness: i64,

    pub swing_joint_radius: i64,
    pub swing_joint_height: i64,

    pub lift_joint_height: i64,
    pub lift_joint_radius: i64,

    pub elbow_joint_radius: i64,
    pub elbow_joint_height: i64,

    pub wrist_joint_radius: i64,
    pub wrist_joint_height: i64,

    pub gripper_length: i64,
    pub gripper_width: i64,
    pub gripper_thickness: i64,

    pub gripper_max_open: i64,
    pub wrist_extension_length: i64,
}

/// Largest length, in millimeters, a geometry field may hold. One kilometer
/// is far beyond any physical crane and keeps all intermediate products of
/// the kinematics solver inside 128-bit arithmetic.
pub const MAX_DIMENSION_MM: i64 = 1000000;

impl CraneDimensions {
    /// Geometry a solver can work with: the two arm links have positive
    /// length and every field lies within the physical bound.
    pub open spec fn wf(self) -> bool {
        &&& 0 <= self.base_height <= MAX_DIMENSION_MM
        &&& 0 < self.upper_arm_length + self.upper_arm_thickness
        &&& 0 < self.lower_arm_length + self.lower_arm_thickness
        &&& 0 <= self.upper_arm_length <= MAX_DIMENSION_MM
        &&& 0 <= self.upper_arm_thickness <= MAX_DIMENSION_MM
        &&& 0 <= self.lower_arm_length <= MAX_DIMENSION_MM
        &&& 0 <= self.lower_arm_thickness <= MAX_DIMENSION_MM
        &&& 0 <= self.elbow_joint_height <= MAX_DIMENSION_MM
        &&& 0 <= self.wrist_joint_height <= MAX_DIMENSION_MM
        &&& 0 <= self.gripper_thickness <= MAX_DIMENSION_MM
    }

    /// Evaluates [`CraneDimensions::wf`] at run time, for callers that
    /// must validate loaded geometry before solving against it.
    pub fn check_wf(&self) -> (r: bool)
        ensures
            r == self.wf(),
    {
        0 <= self.base_height && self.base_height <= MAX_DIMENSION_MM
            && 0 < self.upper_arm_length as i128 + self.upper_arm_thickness as i128
            && 0 < self.lower_arm_length as i128 + self.lower_arm_thickness as i128
            && 0 <= self.upper_arm_length && self.upper_arm_length <= MAX_DIMENSION_MM
            && 0 <= self.upper_arm_thickness && self.upper_arm_thickness <= MAX_DIMENSION_MM
            && 0 <= self.lower_arm_length && self.lower_arm_length <= MAX_DIMENSION_MM
            && 0 <= self.lower_arm_thickness && self.lower_arm_thickness <= MAX_DIMENSION_MM
            && 0 <= self.elbow_joint_height && self.elbow_joint_height <= MAX_DIMENSION_MM
            && 0 <= self.wrist_joint_height && self.wrist_joint_height <= MAX_DIMENSION_MM
            && 0 <= self.gripper_thickness && self.gripper_thickness <= MAX_DIMENSION_MM
    }

    /// Effective upper-arm link length used by the planar solve.
    pub open spec fn upper_arm_mm(self) -> int {
        self.upper_arm_length + self.upper_arm_thickness
    }

    /// Effective lower-arm link length used by the planar solve.
    pub open spec fn lower_arm_mm(self) -> int {
        self.lower_arm_length + self.lower_arm_thickness
    }

    /// Fixed vertical offset between the lift carriage and the gripper tip.
    pub open spec fn vertical_offset_mm(self) -> int {
        self.wrist_joint_height + self.lower_arm_thickness + self.elbow_joint_height
            + self.upper_arm_thickness + self.gripper_thickness
    }
}

impl Default for CraneDimensions {
    /// The hard-coded default geometry used when the store has no record
    /// for a crane.
    fn default() -> (res: Self)
        ensures
            res == CraneDimensions::initial(),
            res.wf(),
    {
        CraneDimensions {
            base_height: 100,
            base_radius_bottom: 350,
            base_radius_top: 250,

            column_height: 2000,
            column_width: 180,
            column_thickness: 50,

            upper_arm_length: 750,
            upper_arm_width: 180,
            upper_arm_thickness: 40,

            lower_arm_length: 500,
            lower_arm_width: 120,
            lower_arm_thickness: 30,

            swing_joint_height: 100,
            swing_joint_radius: 130,

            lift_joint_height: 80,
            lift_joint_radius: 90,

            elbow_joint_radius: 80,
            elbow_joint_height: 40,

            wrist_joint_radius: 70,
            wrist_joint_height: 20,

            gripper_length: 200,
            gripper_width: 80,
            gripper_thickness: 50,

            gripper_max_open: 100,
            wrist_extension_length: 150,
        }
    }
}

impl CraneDimensions {
    /// The default geometry as a spec-level constant.
    pub open spec fn initial() -> CraneDimensions {
        CraneDimensions {
            base_height: 100,
            base_radius_bottom: 350,
            base_radius_top: 250,
            column_height: 2000,
            column_width: 180,
            column_thickness: 50,
            upper_arm_length: 750,
            upper_arm_width: 180,
            upper_arm_thickness: 40,
            lower_arm_length: 500,
            lower_arm_width: 120,
            lower_arm_thickness: 30,
            swing_joint_height: 100,
            swing_joint_radius: 130,
            lift_joint_height: 80,
            lift_joint_radius: 90,
            elbow_joint_radius: 80,
            elbow_joint_height: 40,
            wrist_joint_radius: 70,
            wrist_joint_height: 20,
            gripper_length: 200,
            gripper_width: 80,
            gripper_thickness: 50,
            gripper_max_open: 100,
            wrist_extension_length: 150,
        }
    }
}

/// Per-axis min/max bounds on a crane pose. A zero/zero pair on a
/// rotational axis means the axis is unbounded and wraps modulo 360
/// degrees.
#[derive(Clone, Copy, Debug, PartialEq, Eq, Structural)]
pub struct CraneLimits {
    pub swing_min: i64,
    pub swing_max: i64,
    pub lift_min: i64,
    pub lift_max: i64,
    pub elbow_min: i64,
    pub elbow_max: i64,
    pub wrist_min: i64,
    pub wrist_max: i64,
    pub gripper_min: i64,
    pub gripper_max: i64,
}

impl Default for CraneLimits {
    /// The hard-coded default limits used when the store has no record for
    /// a crane. Elbow and wrist are unbounded free-rotation axes.
    fn default() -> (res: Self)
        ensures
            res == CraneLimits::initial(),
            res.wf(),
    {
        CraneLimits {
            swing_min: 0,
            swing_max: 360,
            lift_min: 200,
            lift_max: 1800,
            elbow_min: 0,
            elbow_max: 0,
            wrist_min: 0,
            wrist_max: 0,
            gripper_min: 0,
            gripper_max: 200,
        }
    }
}

impl CraneLimits {
    /// The default limits as a spec-level constant.
    pub open spec fn initial() -> CraneLimits {
        CraneLimits {
            swing_min: 0,
            swing_max: 360,
            lift_min: 200,
            lift_max: 1800,
            elbow_min: 0,
            elbow_max: 0,
            wrist_min: 0,
            wrist_max: 0,
            gripper_min: 0,
            gripper_max: 200,
        }
    }

    /// Whether the elbow axis is an unbounded free-rotation axis.
    pub open spec fn elbow_unbounded(self) -> bool {
        self.elbow_min == 0 && self.elbow_max == 0
    }

    /// Whether the wrist axis is an unbounded free-rotation axis.
    pub open spec fn wrist_unbounded(self) -> bool {
        self.wrist_min == 0 && self.wrist_max == 0
    }

    /// Limits a controller can clamp against: each bounded axis has min at
    /// most max, and each rotational axis is either bounded on both sides
    /// or unbounded on both sides.
    pub open spec fn wf(self) -> bool {
        &&& self.lift_min <= self.lift_max
        &&& self.gripper_min <= self.gripper_max
        &&& (self.elbow_min == 0) == (self.elbow_max == 0)
        &&& self.elbow_min <= self.elbow_max
        &&& (self.wrist_min == 0) == (self.wrist_max == 0)
        &&& self.wrist_min <= self.wrist_max
    }

    /// Evaluates [`CraneLimits::wf`] at run time, for callers that must
    /// validate loaded limits before clamping against them.
    pub fn check_wf(&self) -> (r: bool)
        ensures
            r == self.wf(),
    {
        self.lift_min <= self.lift_max && self.gripper_min <= self.gripper_max && ((self.elbow_min
            == 0) == (self.elbow_max == 0)) && self.elbow_min <= self.elbow_max && ((self.wrist_min
            == 0) == (self.wrist_max == 0)) && self.wrist_min <= self.wrist_max
    }

    /// Evaluates [`CraneLimits::state_within`] at run time.
    pub fn contains_state(&self, s: &CraneState) -> (r: bool)
        ensures
            r == self.state_within(*s),
    {
        let elbow_ok: bool = if self.elbow_min == 0 && self.elbow_max == 0 {
            0 <= s.elbow_deg && s.elbow_deg < 360
        } else {
            self.elbow_min <= s.elbow_deg && s.elbow_deg <= self.elbow_max
        };
        let wrist_ok: bool = if self.wrist_min == 0 && self.wrist_max == 0 {
            0 <= s.wrist_deg && s.wrist_deg < 360
        } else {
            self.wrist_min <= s.wrist_deg && s.wrist_deg <= self.wrist_max
        };
        0 <= s.swing_deg && s.swing_deg < 360 && self.lift_min <= s.lift_mm && s.lift_mm
            <= self.lift_max && elbow_ok && wrist_ok && self.gripper_min <= s.gripper_mm
            && s.gripper_mm <= self.gripper_max
    }

    /// Whether a pose lies within these limits: each bounded axis is inside
    /// its min/max pair, each unbounded rotational axis has been wrapped
    /// into [0, 360). The swing axis always wraps.
    pub open spec fn state_within(self, s: CraneState) -> bool {
        &&& 0 <= s.swing_deg < 360
        &&& self.lift_min <= s.lift_mm <= self.lift_max
        &&& if self.elbow_unbounded() {
            0 <= s.elbow_deg < 360
        } else {
            self.elbow_min <= s.elbow_deg <= self.elbow_max
        }
        &&& if self.wrist_unbounded() {
            0 <= s.wrist_deg < 360
        } else {
            self.wrist_min <= s.wrist_deg <= self.wrist_max
        }
        &&& self.gripper_min <= s.gripper_mm <= self.gripper_max
    }
}

/// Client-facing snapshot of one crane: identifier, pose, and geometry.
#[derive(Clone, Debug)]
pub struct CraneDetails {
    pub id: String,
    pub state: CraneState,
    pub dimensions: CraneDimensions,
}

impl Default for CraneDetails {
    fn default() -> (res: Self)
        ensures
            res.id@ == "robotix.v1"@,
            res.state == CraneState::initial(),
            res.dimensions == CraneDimensions::initial(),
    {
        CraneDetails {
            id: "robotix.v1".to_owned(),
            state: CraneState::default(),
            dimensions: CraneDimensions::default(),
        }
    }
}

} // verus!
