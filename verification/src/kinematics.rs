//! The inverse kinematics solver: a pure function from a 3D target point
//! to the joint pose that reaches it, or `Unreachable` when the planar
//! triangle inequality has no solution.
//!
//! The solve is a decoupled three-stage approximation. The lift is an
//! independent linear actuator, solved by clamping the vertical offset into
//! the lift limits. Swing, elbow and wrist solve a 2-link planar arm in the
//! horizontal plane: the swing is the base yaw towards the target corrected
//! for the lower arm's fixed forward offset, the elbow comes from the law
//! of cosines, and the wrist keeps the gripper level. All angles are
//! whole degrees, wrapped into the canonical `[-180, 180)` range; the
//! gripper opening is carried through unchanged.

use vstd::prelude::*;
use vstd::math::abs;

use crate::message::{KinematicError, Location};
use crate::models::{CraneDimensions, CraneLimits, CraneState};
use crate::trig::{acos_deg, acos_deg_exec, atan_deg, atan_deg_exec, wrap_deg, wrap_deg_exec};

verus! {

/// Squared planar distance from the base axis to the target, in square
/// millimeters.
pub open spec fn planar_radius_sq(t: Location) -> int {
    t.x * t.x + t.z * t.z
}

/// Whether the planar triangle inequality rules the target out: the planar
/// radius exceeds the fully extended arm, or falls short of the circle the
/// folded arm cannot enter. Both sides are compared squared, so the test
/// is exact.
pub open spec fn out_of_reach(d: CraneDimensions, t: Location) -> bool {
    let a = d.upper_arm_mm();
    let b = d.lower_arm_mm();
    planar_radius_sq(t) > (a + b) * (a + b) || planar_radius_sq(t) < (a - b) * (a - b)
}

/// A value clamped into `[lo, hi]`.
pub open spec fn clamp(v: int, lo: int, hi: int) -> int {
    if v < lo {
        lo
    } else if v > hi {
        hi
    } else {
        v
    }
}

/// The solved lift: the target height plus the fixed joint offsets, less
/// the base height, clamped into the lift limits.
pub open spec fn solved_lift(d: CraneDimensions, l: CraneLimits, t: Location) -> int {
    clamp(t.y + d.vertical_offset_mm() - d.base_height, l.lift_min as int, l.lift_max as int)
}

/// Full-plane arctangent in whole degrees, in `[-180, 180]`: the quadrant
/// of `(x, z)` applied to the first-quadrant arctangent of the magnitudes.
pub open spec fn atan2_deg(z: int, x: int) -> int {
    let q = atan_deg(abs(z) as int, abs(x) as int);
    if x >= 0 && z >= 0 {
        q
    } else if x < 0 && z >= 0 {
        180 - q
    } else if x >= 0 {
        -q
    } else {
        q - 180
    }
}

/// The solved swing: base yaw towards the target, with the horizontal
/// reference shifted by the lower arm's fixed forward extension, whose
/// sign flips across the `x < 0` boundary.
pub open spec fn solved_swing(d: CraneDimensions, t: Location) -> int {
    let ext = if t.x < 0 {
        -d.lower_arm_mm()
    } else {
        d.lower_arm_mm()
    };
    wrap_deg(atan2_deg(t.z as int, t.x - ext))
}

/// The interior elbow angle from the law of cosines, in whole degrees in
/// `[0, 180]`: 180 means the arm is fully extended, 0 fully folded.
pub open spec fn elbow_interior_deg(d: CraneDimensions, t: Location) -> int {
    let a = d.upper_arm_mm();
    let b = d.lower_arm_mm();
    acos_deg(a * a + b * b - planar_radius_sq(t), 2 * (a * b))
}

/// The solved elbow joint coordinate: the interior angle signed by the
/// target's quadrant and shifted so that a fully extended arm reads 0,
/// wrapped into `[-180, 180)`.
pub open spec fn solved_elbow(d: CraneDimensions, t: Location) -> int {
    let interior = elbow_interior_deg(d, t);
    let signed = if t.x < 0 {
        -interior
    } else {
        interior
    };
    wrap_deg(
        if t.z >= 0 {
            180 + signed
        } else {
            180 - signed
        },
    )
}

/// The solved wrist angle, chosen to keep the gripper level: half the
/// angular difference between the level direction and the interior elbow
/// angle, truncated towards zero.
pub open spec fn solved_wrist(d: CraneDimensions, t: Location) -> int {
    -(elbow_interior_deg(d, t) / 2)
}

/// The whole pose a successful solve returns: each joint at its solved
/// value, the gripper carried through unchanged.
pub open spec fn solved_state(
    d: CraneDimensions,
    l: CraneLimits,
    gripper_mm: i64,
    t: Location,
) -> CraneState {
    CraneState {
        swing_deg: solved_swing(d, t) as i64,
        lift_mm: solved_lift(d, l, t) as i64,
        elbow_deg: solved_elbow(d, t) as i64,
        wrist_deg: solved_wrist(d, t) as i64,
        gripper_mm: gripper_mm,
    }
}

/// Everything [`solve`] promises of its result `r`: `Unreachable` exactly
/// on targets that fail the triangle inequality, and otherwise each joint
/// pinned to its solved value with the gripper carried through unchanged.
pub open spec fn solve_post(
    d: CraneDimensions,
    l: CraneLimits,
    gripper_mm: i64,
    t: Location,
    r: Result<CraneState, KinematicError>,
) -> bool {
    &&& (r is Err <==> out_of_reach(d, t))
    &&& (r is Err ==> r == Err::<CraneState, KinematicError>(KinematicError::Unreachable))
    &&& (r is Ok ==> {
        let s = r->Ok_0;
        &&& s.swing_deg == solved_swing(d, t)
        &&& s.lift_mm == solved_lift(d, l, t)
        &&& s.elbow_deg == solved_elbow(d, t)
        &&& s.wrist_deg == solved_wrist(d, t)
        &&& s.gripper_mm == gripper_mm
        &&& s == solved_state(d, l, gripper_mm, t)
    })
}

/// Solves the inverse kinematics for `target`, carrying the current
/// gripper opening through unchanged. Pure: the result depends only on
/// the arguments.
pub fn solve(
    dimensions: &CraneDimensions,
    limits: &CraneLimits,
    gripper_mm: i64,
    target: &Location,
) -> (r: Result<CraneState, KinematicError>)
    requires
        dimensions.wf(),
        limits.lift_min <= limits.lift_max,
    ensures
        solve_post(*dimensions, *limits, gripper_mm, *target, r),
{
    let a: i64 = dimensions.upper_arm_length + dimensions.upper_arm_thickness;
    let b: i64 = dimensions.lower_arm_length + dimensions.lower_arm_thickness;

    let x: i128 = target.x as i128;
    let z: i128 = target.z as i128;
    let ax: u128 = if x < 0 {
        (-x) as u128
    } else {
        x as u128
    };
    let az: u128 = if z < 0 {
        (-z) as u128
    } else {
        z as u128
    };
    proof {
        assert(ax * ax == target.x * target.x && az * az == target.z * target.z
            && ax * ax + az * az < 340282366920938463463374607431768211455)
            by (nonlinear_arith)
            requires
                ax == abs(target.x as int),
                az == abs(target.z as int),
                ax <= 0x8000000000000000,
                az <= 0x8000000000000000,
        ;
    }
    let rr: u128 = ax * ax + az * az;
    let sum: u128 = (a + b) as u128;
    let diff: i64 = a - b;
    let dm: u128 = if diff < 0 {
        (-(diff as i128)) as u128
    } else {
        diff as u128
    };
    proof {
        assert(dm * dm == (a - b) * (a - b) && dm * dm <= 16000000000000)
            by (nonlinear_arith)
            requires
                dm == abs(a - b),
                dm <= 4000000,
        ;
        assert(sum * sum <= 16000000000000) by (nonlinear_arith)
            requires
                sum <= 4000000,
        ;
    }
    if rr > sum * sum || rr < dm * dm {
        return Err(KinematicError::Unreachable);
    }

    // Lift: independent linear actuator, clamped into its limits.
    let off: i64 = dimensions.wrist_joint_height + dimensions.lower_arm_thickness
        + dimensions.elbow_joint_height + dimensions.upper_arm_thickness
        + dimensions.gripper_thickness;
    let dy: i128 = target.y as i128 + off as i128 - dimensions.base_height as i128;
    let lift_mm: i64 = if dy < limits.lift_min as i128 {
        limits.lift_min
    } else if dy > limits.lift_max as i128 {
        limits.lift_max
    } else {
        dy as i64
    };

    // Swing: base yaw against the extension-shifted horizontal reference.
    let ext: i128 = if target.x < 0 {
        -(b as i128)
    } else {
        b as i128
    };
    let xa: i128 = x - ext;
    let axa: u128 = if xa < 0 {
        (-xa) as u128
    } else {
        xa as u128
    };
    let q: u32 = atan_deg_exec(az, axa);
    let at2: i64 = if xa >= 0 && z >= 0 {
        q as i64
    } else if xa < 0 && z >= 0 {
        180 - q as i64
    } else if xa >= 0 {
        -(q as i64)
    } else {
        q as i64 - 180
    };
    let swing_deg: i64 = wrap_deg_exec(at2);

    // Elbow: law of cosines over the planar triangle, exact in integers
    // because the radius enters squared.
    proof {
        assert(0 < (a as int) * (b as int) <= 4000000000000
            && 0 <= (a as int) * (a as int) <= 4000000000000
            && 0 <= (b as int) * (b as int) <= 4000000000000) by (nonlinear_arith)
            requires
                0 < a <= 2000000,
                0 < b <= 2000000,
        ;
    }
    let a2: i128 = (a as i128) * (a as i128);
    let b2: i128 = (b as i128) * (b as i128);
    let ab: i128 = (a as i128) * (b as i128);
    let num: i128 = a2 + b2 - (rr as i128);
    let den: i128 = 2 * ab;
    let interior: u32 = acos_deg_exec(num, den);
    let signed: i64 = if target.x < 0 {
        -(interior as i64)
    } else {
        interior as i64
    };
    let e0: i64 = if target.z >= 0 {
        180 + signed
    } else {
        180 - signed
    };
    let elbow_deg: i64 = wrap_deg_exec(e0);

    // Wrist: keep the gripper level.
    let wrist_deg: i64 = -((interior / 2) as i64);

    Ok(
        CraneState {
            swing_deg,
            lift_mm,
            elbow_deg,
            wrist_deg,
            gripper_mm,
        },
    )
}

/// The solver is deterministic: its contract pins exactly one result for
/// each (dimensions, limits, gripper, target) input, so any two results
/// that both satisfy it are equal.
pub proof fn lemma_solve_deterministic(
    d: CraneDimensions,
    l: CraneLimits,
    gripper_mm: i64,
    t: Location,
    r1: Result<CraneState, KinematicError>,
    r2: Result<CraneState, KinematicError>,
)
    requires
        solve_post(d, l, gripper_mm, t, r1),
        solve_post(d, l, gripper_mm, t, r2),
    ensures
        r1 == r2,
{
    if r1 is Ok {
        assert(r1->Ok_0 == r2->Ok_0);
    }
}

/// The solver rejects exactly the targets outside the planar annulus: it
/// fails if and only if the squared planar radius exceeds the squared
/// extended arm length or falls below the squared folded arm length, and
/// every point between the two bounds, boundaries included, is accepted.
pub proof fn lemma_solve_reachability(
    d: CraneDimensions,
    l: CraneLimits,
    gripper_mm: i64,
    t: Location,
    r: Result<CraneState, KinematicError>,
)
    requires
        solve_post(d, l, gripper_mm, t, r),
    ensures
        r is Err <==> (planar_radius_sq(t) > (d.upper_arm_mm() + d.lower_arm_mm()) * (
        d.upper_arm_mm() + d.lower_arm_mm()) || planar_radius_sq(t) < (d.upper_arm_mm()
            - d.lower_arm_mm()) * (d.upper_arm_mm() - d.lower_arm_mm())),
        r is Err ==> r == Err::<CraneState, KinematicError>(KinematicError::Unreachable),
{
}

} // verus!
