//! The motion interpolator: a timed sequence of intermediate poses between
//! the current state and a solved target state.
//!
//! The step count is a floor of 10 plus one step per 10 units of total
//! displacement, so tiny moves still animate smoothly and large ones take
//! proportionally longer. Every step is recomputed from the original
//! endpoint pair — never from the previous step — so rounding drift cannot
//! accumulate, and the final step lands exactly on the target.

use vstd::prelude::*;
use vstd::arithmetic::div_mod::{
    lemma_div_is_ordered, lemma_div_multiples_vanish_fancy, lemma_fundamental_div_mod,
    lemma_hoist_over_denominator, lemma_mod_bound,
};
use vstd::arithmetic::mul::lemma_mul_inequality;
use vstd::math::abs;

use crate::models::CraneState;

verus! {

/// Division rounded to the nearest integer, halves away from zero, for a
/// positive divisor.
pub open spec fn round_div(num: int, den: int) -> int
    recommends
        0 < den,
{
    if num >= 0 {
        (2 * num + den) / (2 * den)
    } else {
        -((2 * (-num) + den) / (2 * den))
    }
}

/// Total motion size between two poses: the per-field absolute differences
/// summed without unit conversion, a cheap proxy for perceived motion
/// size.
pub open spec fn total_displacement(a: CraneState, b: CraneState) -> int {
    abs(b.swing_deg - a.swing_deg) + abs(b.lift_mm - a.lift_mm) + abs(
        b.elbow_deg - a.elbow_deg,
    ) + abs(b.wrist_deg - a.wrist_deg) + abs(b.gripper_mm - a.gripper_mm) as int
}

/// Number of interpolation steps between two poses: a floor of 10 plus one
/// step per 10 units of displacement, rounded to the nearest whole step.
pub open spec fn plan_steps(a: CraneState, b: CraneState) -> int {
    10 + (total_displacement(a, b) + 5) / 10
}

/// One field at step `i` of `n`: linear interpolation from the original
/// endpoints, rounded to the nearest integer at this step alone.
pub open spec fn lerp(from: int, to: int, i: int, n: int) -> int
    recommends
        0 < n,
{
    from + round_div((to - from) * i, n)
}

/// The whole pose committed at step `i` of the plan from `a` to `b`.
pub open spec fn step_state(a: CraneState, b: CraneState, i: int) -> CraneState {
    let n = plan_steps(a, b);
    CraneState {
        swing_deg: lerp(a.swing_deg as int, b.swing_deg as int, i, n) as i64,
        lift_mm: lerp(a.lift_mm as int, b.lift_mm as int, i, n) as i64,
        elbow_deg: lerp(a.elbow_deg as int, b.elbow_deg as int, i, n) as i64,
        wrist_deg: lerp(a.wrist_deg as int, b.wrist_deg as int, i, n) as i64,
        gripper_mm: lerp(a.gripper_mm as int, b.gripper_mm as int, i, n) as i64,
    }
}

/// Rounding a value that is an exact multiple of the divisor changes
/// nothing: `round_div(d * n, n) == d`.
proof fn lemma_round_div_exact(d: int, n: int)
    requires
        0 < n,
    ensures
        round_div(d * n, n) == d,
{
    if d >= 0 {
        assert(2 * (d * n) + n == (2 * n) * d + n) by (nonlinear_arith);
        lemma_div_multiples_vanish_fancy(d, n, 2 * n);
    } else {
        assert(d * n < 0) by (nonlinear_arith)
            requires
                d < 0,
                0 < n,
        ;
        assert(2 * (-(d * n)) + n == (2 * n) * (-d) + n) by (nonlinear_arith);
        lemma_div_multiples_vanish_fancy(-d, n, 2 * n);
    }
}

/// The final committed step of a plan always exactly equals the target
/// pose, regardless of the step count or of any rounding along the way:
/// every field of `step_state` at step `plan_steps(a, b)` is the target's
/// field.
pub proof fn lemma_final_step_exact(a: CraneState, b: CraneState)
    ensures
        step_state(a, b, plan_steps(a, b)) == b,
{
    let n = plan_steps(a, b);
    lemma_round_div_exact(b.swing_deg - a.swing_deg, n);
    lemma_round_div_exact(b.lift_mm - a.lift_mm, n);
    lemma_round_div_exact(b.elbow_deg - a.elbow_deg, n);
    lemma_round_div_exact(b.wrist_deg - a.wrist_deg, n);
    lemma_round_div_exact(b.gripper_mm - a.gripper_mm, n);
}

/// Splits a rounded division of `dmv * i` by `n` along `dmv`'s own
/// quotient and remainder by `n`, and bounds the result by `dmv` itself
/// for `i <= n`. This is the shape the executable interpolation uses to
/// stay inside 128-bit arithmetic.
proof fn lemma_round_div_split(dmv: int, i: int, n: int)
    requires
        0 < n,
        0 <= i <= n,
        0 <= dmv,
    ensures
        ({
            let q = dmv / n;
            let rm = dmv % n;
            let part = (2 * (rm * i) + n) / (2 * n);
            &&& round_div(dmv * i, n) == q * i + part
            &&& part <= rm
            &&& q * i + part <= dmv
        }),
{
    let q = dmv / n;
    let rm = dmv % n;
    let part = (2 * (rm * i) + n) / (2 * n);
    lemma_fundamental_div_mod(dmv, n);
    lemma_mod_bound(dmv, n);
    assert(0 <= q) by {
        lemma_div_is_ordered(0, dmv, n);
    }
    assert(dmv * i >= 0) by (nonlinear_arith)
        requires
            dmv >= 0,
            i >= 0,
    ;
    assert(2 * (dmv * i) + n == (2 * (rm * i) + n) + (q * i) * (2 * n)) by (nonlinear_arith)
        requires
            dmv == n * q + rm,
    ;
    lemma_hoist_over_denominator(2 * (rm * i) + n, q * i, (2 * n) as nat);
    assert(round_div(dmv * i, n) == q * i + part);

    // part <= rm: the dividend stays below (rm + 1) whole divisors.
    assert(2 * (rm * i) + n <= rm * (2 * n) + (2 * n - 1)) by (nonlinear_arith)
        requires
            0 <= rm,
            0 <= i <= n,
            0 < n,
    ;
    assert((rm * (2 * n) + (2 * n - 1)) == ((2 * n) * rm + (2 * n - 1))) by (nonlinear_arith);
    lemma_div_multiples_vanish_fancy(rm, 2 * n - 1, 2 * n);
    lemma_div_is_ordered(2 * (rm * i) + n, (2 * n) * rm + (2 * n - 1), 2 * n);

    // q * i + part <= q * n + rm == dmv.
    lemma_mul_inequality(i, n, q);
    assert(q * i == i * q && q * n == n * q) by (nonlinear_arith);
}

/// The magnitude of one pose field's difference, exact in 128 bits.
fn abs_diff(from: i64, to: i64) -> (r: u128)
    ensures
        r == abs(to - from),
{
    if to >= from {
        (to as i128 - from as i128) as u128
    } else {
        (from as i128 - to as i128) as u128
    }
}

/// Computes [`plan_steps`].
pub fn plan_steps_exec(a: &CraneState, b: &CraneState) -> (n: u128)
    ensures
        n == plan_steps(*a, *b),
        10 <= n <= 0x8000000000000010,
{
    let t: u128 = abs_diff(a.swing_deg, b.swing_deg) + abs_diff(a.lift_mm, b.lift_mm) + abs_diff(
        a.elbow_deg,
        b.elbow_deg,
    ) + abs_diff(a.wrist_deg, b.wrist_deg) + abs_diff(a.gripper_mm, b.gripper_mm);
    10 + (t + 5) / 10
}

/// One interpolated field value at step `i` of `n`.
fn lerp_exec(from: i64, to: i64, i: u128, n: u128) -> (r: i64)
    requires
        1 <= i <= n,
        n <= 0x8000000000000010,
    ensures
        r == lerp(from as int, to as int, i as int, n as int),
{
    let delta: i128 = to as i128 - from as i128;
    let dm: u128 = if delta < 0 {
        (-delta) as u128
    } else {
        delta as u128
    };
    let q: u128 = dm / n;
    let rm: u128 = dm % n;
    proof {
        lemma_round_div_split(dm as int, i as int, n as int);
        lemma_fundamental_div_mod(dm as int, n as int);
        lemma_mod_bound(dm as int, n as int);
        assert(rm * i <= 170000000000000000000000000000000000000 && 2 * (rm * i)
            <= 340000000000000000000000000000000000000 && q * i <= dm) by (nonlinear_arith)
            requires
                rm < n,
                1 <= i <= n,
                n <= 0x8000000000000010,
                0 <= q,
                dm as int == n as int * (q as int) + rm,
                dm <= 0xffffffffffffffff,
        ;
    }
    let part: u128 = (2 * (rm * i) + n) / (2 * n);
    let mag: u128 = q * i + part;
    proof {
        if delta >= 0 {
            assert(dm == to - from);
            assert((to - from) * i >= 0) by (nonlinear_arith)
                requires
                    to - from >= 0,
                    i >= 1,
            ;
        } else {
            assert(dm == -(to - from));
            assert((to - from) * i < 0 && (to - from) * i == -((dm as int) * i))
                by (nonlinear_arith)
                requires
                    dm == -(to - from),
                    to - from < 0,
                    i >= 1,
            ;
        }
    }
    let v: i128 = if delta >= 0 {
        from as i128 + mag as i128
    } else {
        from as i128 - mag as i128
    };
    v as i64
}

/// The whole pose committed at step `i` of an `n`-step plan.
fn step_state_exec(a: &CraneState, b: &CraneState, i: u128, n: u128) -> (r: CraneState)
    requires
        1 <= i <= n,
        n == plan_steps(*a, *b),
        n <= 0x8000000000000010,
    ensures
        r == step_state(*a, *b, i as int),
{
    CraneState {
        swing_deg: lerp_exec(a.swing_deg, b.swing_deg, i, n),
        lift_mm: lerp_exec(a.lift_mm, b.lift_mm, i, n),
        elbow_deg: lerp_exec(a.elbow_deg, b.elbow_deg, i, n),
        wrist_deg: lerp_exec(a.wrist_deg, b.wrist_deg, i, n),
        gripper_mm: lerp_exec(a.gripper_mm, b.gripper_mm, i, n),
    }
}

/// The full interpolation plan from `current` to `target`: the poses to
/// commit, in order, one per step. The last entry always exactly equals
/// the target.
pub fn interpolation_plan(current: &CraneState, target: &CraneState) -> (plan: Vec<CraneState>)
    ensures
        plan@.len() == plan_steps(*current, *target),
        forall|k: int|
            0 <= k < plan@.len() ==> plan@[k] == step_state(*current, *target, k + 1),
        plan@.len() > 0,
        plan@[plan@.len() - 1] == *target,
{
    let n: u128 = plan_steps_exec(current, target);
    let mut plan: Vec<CraneState> = Vec::new();
    let mut i: u128 = 1;
    while i <= n
        invariant
            1 <= i <= n + 1,
            n == plan_steps(*current, *target),
            n <= 0x8000000000000010,
            plan@.len() == i - 1,
            forall|k: int|
                0 <= k < plan@.len() ==> plan@[k] == step_state(*current, *target, k + 1),
        decreases n + 1 - i,
    {
        let s = step_state_exec(current, target, i, n);
        plan.push(s);
        i = i + 1;
    }
    proof {
        lemma_final_step_exact(*current, *target);
    }
    plan
}

} // verus!
