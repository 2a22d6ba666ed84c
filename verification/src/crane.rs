//! The per-robot controller: the sole owner and sole writer of one crane's
//! pose. It applies rate-limited discrete commands with joint-limit
//! clamping, solves continuous motion targets through the kinematics
//! solver, turns successful solves into interpolation plans, and answers
//! every processed input with the operations to broadcast.
//!
//! The controller is a plain sequential state machine: the surrounding
//! runtime owns one queue per controller and feeds it one message at a
//! time, which is what gives each robot a single consistent order of
//! state changes.

use vstd::prelude::*;
use vstd::arithmetic::div_mod::{lemma_fundamental_div_mod_converse, lemma_mod_bound};
use vstd::math::{max, min};

use crate::interpolate::{interpolation_plan, plan_steps, step_state};
use crate::kinematics::{out_of_reach, solve, solve_post, solved_state};
use crate::message::{
    Action, Command, Disconnect, KinematicError, Location, Operation, OperatorId, RobotCraneInfo,
};
use crate::models::{CraneDimensions, CraneLimits, CraneState};
use crate::MOVEMENT_INTERVAL_MS;

verus! {

/// Identifier of one crane.
pub type ID = String;

/// The rate-limit ledger: for each discrete command, the timestamp in
/// milliseconds of its last execution, if any.
#[derive(Clone, Copy, Debug)]
pub struct RateLedger {
    pub lift_up: Option<i64>,
    pub lift_down: Option<i64>,
    pub swing_left: Option<i64>,
    pub swing_right: Option<i64>,
    pub elbow_left: Option<i64>,
    pub elbow_right: Option<i64>,
    pub wrist_left: Option<i64>,
    pub wrist_right: Option<i64>,
    pub gripper_open: Option<i64>,
    pub gripper_close: Option<i64>,
}

impl RateLedger {
    /// The ledger with no command executed yet.
    pub open spec fn empty() -> RateLedger {
        RateLedger {
            lift_up: None,
            lift_down: None,
            swing_left: None,
            swing_right: None,
            elbow_left: None,
            elbow_right: None,
            wrist_left: None,
            wrist_right: None,
            gripper_open: None,
            gripper_close: None,
        }
    }

    /// The ledger entry of one command.
    pub open spec fn entry(self, c: Command) -> Option<i64> {
        match c {
            Command::LiftUp => self.lift_up,
            Command::LiftDown => self.lift_down,
            Command::SwingLeft => self.swing_left,
            Command::SwingRight => self.swing_right,
            Command::ElbowLeft => self.elbow_left,
            Command::ElbowRight => self.elbow_right,
            Command::WristLeft => self.wrist_left,
            Command::WristRight => self.wrist_right,
            Command::GripperOpen => self.gripper_open,
            Command::GripperClose => self.gripper_close,
        }
    }

    /// The ledger with one command's entry set to `t`.
    pub open spec fn with_entry(self, c: Command, t: i64) -> RateLedger {
        match c {
            Command::LiftUp => RateLedger { lift_up: Some(t), ..self },
            Command::LiftDown => RateLedger { lift_down: Some(t), ..self },
            Command::SwingLeft => RateLedger { swing_left: Some(t), ..self },
            Command::SwingRight => RateLedger { swing_right: Some(t), ..self },
            Command::ElbowLeft => RateLedger { elbow_left: Some(t), ..self },
            Command::ElbowRight => RateLedger { elbow_right: Some(t), ..self },
            Command::WristLeft => RateLedger { wrist_left: Some(t), ..self },
            Command::WristRight => RateLedger { wrist_right: Some(t), ..self },
            Command::GripperOpen => RateLedger { gripper_open: Some(t), ..self },
            Command::GripperClose => RateLedger { gripper_close: Some(t), ..self },
        }
    }

    /// Builds the empty ledger.
    pub fn new() -> (r: RateLedger)
        ensures
            r == RateLedger::empty(),
    {
        RateLedger {
            lift_up: None,
            lift_down: None,
            swing_left: None,
            swing_right: None,
            elbow_left: None,
            elbow_right: None,
            wrist_left: None,
            wrist_right: None,
            gripper_open: None,
            gripper_close: None,
        }
    }
}

/// Whether a command may execute at `now`: its ledger entry is absent, or
/// at least the minimum interval old.
pub open spec fn command_allowed(led: RateLedger, c: Command, now: i64) -> bool {
    match led.entry(c) {
        None => true,
        Some(last) => now - last >= MOVEMENT_INTERVAL_MS,
    }
}

/// An angle stepped past a bound and reduced modulo 360 with the sign of
/// the dividend, as a free-rotation axis moves.
pub open spec fn trunc_mod_360(v: int) -> int {
    if v >= 0 {
        v % 360
    } else {
        -((-v) % 360)
    }
}

/// An angle reduced modulo 360 into `[0, 360)`.
pub open spec fn euclid_mod_360(v: int) -> int {
    v % 360
}

/// The pose after one discrete command executes, before any rate-limit
/// consideration: a fixed per-command delta on exactly one field, clamped
/// to that axis's limits, or wrapped modulo 360 where the axis is a
/// free-rotation axis. The swing axis always wraps.
pub open spec fn command_applied(s: CraneState, l: CraneLimits, c: Command) -> CraneState {
    match c {
        Command::LiftUp => CraneState {
            lift_mm: min(s.lift_mm + 5, l.lift_max as int) as i64,
            ..s
        },
        Command::LiftDown => CraneState {
            lift_mm: max(s.lift_mm - 5, l.lift_min as int) as i64,
            ..s
        },
        Command::SwingRight => CraneState {
            swing_deg: trunc_mod_360(s.swing_deg + 1) as i64,
            ..s
        },
        Command::SwingLeft => CraneState {
            swing_deg: euclid_mod_360(s.swing_deg - 1) as i64,
            ..s
        },
        Command::ElbowLeft => CraneState {
            elbow_deg: if l.elbow_max == 0 {
                trunc_mod_360(s.elbow_deg + 1) as i64
            } else {
                min(s.elbow_deg + 1, l.elbow_max as int) as i64
            },
            ..s
        },
        Command::ElbowRight => CraneState {
            elbow_deg: if l.elbow_min == 0 {
                euclid_mod_360(s.elbow_deg - 1) as i64
            } else {
                max(s.elbow_deg - 1, l.elbow_min as int) as i64
            },
            ..s
        },
        Command::WristLeft => CraneState {
            wrist_deg: if l.wrist_max == 0 {
                trunc_mod_360(s.wrist_deg + 1) as i64
            } else {
                min(s.wrist_deg + 1, l.wrist_max as int) as i64
            },
            ..s
        },
        Command::WristRight => CraneState {
            wrist_deg: if l.wrist_min == 0 {
                euclid_mod_360(s.wrist_deg - 1) as i64
            } else {
                max(s.wrist_deg - 1, l.wrist_min as int) as i64
            },
            ..s
        },
        Command::GripperOpen => CraneState {
            gripper_mm: min(s.gripper_mm + 2, l.gripper_max as int) as i64,
            ..s
        },
        Command::GripperClose => CraneState {
            gripper_mm: max(s.gripper_mm - 2, l.gripper_min as int) as i64,
            ..s
        },
    }
}

/// One command evaluated against the ledger at `now`: it executes and
/// stamps the ledger when allowed, and is silently skipped otherwise.
pub open spec fn apply_command(
    s: CraneState,
    led: RateLedger,
    l: CraneLimits,
    c: Command,
    now: i64,
) -> (CraneState, RateLedger) {
    if command_allowed(led, c, now) {
        (command_applied(s, l, c), led.with_entry(c, now))
    } else {
        (s, led)
    }
}

/// A whole batch of commands evaluated in order at one instant `now`.
pub open spec fn apply_commands_seq(
    s: CraneState,
    led: RateLedger,
    l: CraneLimits,
    cmds: Seq<Command>,
    now: i64,
) -> (CraneState, RateLedger)
    decreases cmds.len(),
{
    if cmds.len() == 0 {
        (s, led)
    } else {
        let first = apply_command(s, led, l, cmds[0], now);
        apply_commands_seq(first.0, first.1, l, cmds.skip(1), now)
    }
}

/// One command never moves a pose out of well-formed limits: clamping
/// keeps bounded axes inside their min/max pair, and wrapping keeps
/// free-rotation axes inside `[0, 360)`.
pub proof fn lemma_command_applied_within(s: CraneState, l: CraneLimits, c: Command)
    requires
        l.wf(),
        l.state_within(s),
    ensures
        l.state_within(command_applied(s, l, c)),
{
    lemma_mod_bound(s.swing_deg + 1, 360);
    lemma_mod_bound(s.swing_deg - 1, 360);
    lemma_mod_bound(s.elbow_deg + 1, 360);
    lemma_mod_bound(s.elbow_deg - 1, 360);
    lemma_mod_bound(s.wrist_deg + 1, 360);
    lemma_mod_bound(s.wrist_deg - 1, 360);
}

/// Every pose a batch of commands produces lies within well-formed
/// limits: each bounded axis inside its min/max pair, each free-rotation
/// axis wrapped into `[0, 360)`.
pub proof fn lemma_commands_respect_limits(
    s: CraneState,
    led: RateLedger,
    l: CraneLimits,
    cmds: Seq<Command>,
    now: i64,
)
    requires
        l.wf(),
        l.state_within(s),
    ensures
        l.state_within(apply_commands_seq(s, led, l, cmds, now).0),
    decreases cmds.len(),
{
    if cmds.len() > 0 {
        let first = apply_command(s, led, l, cmds[0], now);
        if command_allowed(led, cmds[0], now) {
            lemma_command_applied_within(s, l, cmds[0]);
        }
        lemma_commands_respect_limits(first.0, first.1, l, cmds.skip(1), now);
    }
}

/// Rate limiting makes bursts idempotent: once a command executes at
/// `t1`, re-evaluating the same command at any `t2` less than the
/// minimum interval later changes neither the pose nor the ledger.
pub proof fn lemma_rate_limit_burst(
    s: CraneState,
    led: RateLedger,
    l: CraneLimits,
    c: Command,
    t1: i64,
    t2: i64,
)
    requires
        command_allowed(led, c, t1),
        t2 - t1 < MOVEMENT_INTERVAL_MS,
    ensures
        ({
            let first = apply_command(s, led, l, c, t1);
            apply_command(first.0, first.1, l, c, t2) == first
        }),
{
}

/// Index of the first occurrence of `user` among the attached operators,
/// or -1 when the operator is not attached.
pub open spec fn find_member(m: Seq<OperatorId>, user: OperatorId) -> int
    decreases m.len(),
{
    if m.len() == 0 {
        -1
    } else if m[0] == user {
        0
    } else {
        let r = find_member(m.skip(1), user);
        if r < 0 {
            -1
        } else {
            r + 1
        }
    }
}

/// No operator appears twice.
pub open spec fn unique_members(m: Seq<OperatorId>) -> bool {
    forall|i: int, j: int| 0 <= i < j < m.len() ==> m[i] != m[j]
}

/// The attached operators after a join: a re-join leaves the set
/// unchanged (the channel is overwritten, not duplicated), a fresh
/// operator is appended.
pub open spec fn members_after_join(m: Seq<OperatorId>, user: OperatorId) -> Seq<OperatorId> {
    if m.contains(user) {
        m
    } else {
        m.push(user)
    }
}

/// The attached operators after a leave: the first occurrence is removed;
/// an unknown operator leaves the set unchanged.
pub open spec fn members_after_leave(m: Seq<OperatorId>, user: OperatorId) -> Seq<OperatorId> {
    let i = find_member(m, user);
    if i < 0 {
        m
    } else {
        m.remove(i)
    }
}

/// Whether a leave for `user` broadcasts a departure: exactly when the
/// operator was attached.
pub open spec fn leave_broadcasts(m: Seq<OperatorId>, user: OperatorId) -> bool {
    find_member(m, user) >= 0
}

/// What `find_member` finds: a non-negative result exactly when the
/// operator is attached, and then it is the smallest index holding the
/// operator.
pub proof fn lemma_find_member_props(m: Seq<OperatorId>, user: OperatorId)
    ensures
        find_member(m, user) >= 0 <==> m.contains(user),
        find_member(m, user) >= 0 ==> 0 <= find_member(m, user) < m.len() && m[find_member(
            m,
            user,
        )] == user && (forall|k: int| 0 <= k < find_member(m, user) ==> m[k] != user),
    decreases m.len(),
{
    if m.len() > 0 && m[0] != user {
        let tail = m.skip(1);
        lemma_find_member_props(tail, user);
        assert forall|k: int| 0 <= k < tail.len() implies tail[k] == m[k + 1] by {}
        if find_member(m, user) >= 0 {
            let fi = find_member(m, user);
            assert(fi == find_member(tail, user) + 1);
            assert forall|k: int| 0 <= k < fi implies m[k] != user by {
                if k > 0 {
                    assert(tail[k - 1] == m[k]);
                    assert(tail[k - 1] != user);
                }
            }
        }
        if m.contains(user) {
            let w = choose|w: int| 0 <= w < m.len() && m[w] == user;
            assert(tail[w - 1] == user);
            assert(tail.contains(user));
        }
        if tail.contains(user) {
            let w = choose|w: int| 0 <= w < tail.len() && tail[w] == user;
            assert(m[w + 1] == user);
            assert(m.contains(user));
        }
    }
}

/// A join followed by two leaves for the same operator: the first leave
/// detaches the operator and broadcasts one departure; the second finds
/// nothing, broadcasts nothing, and leaves the set unchanged.
pub proof fn lemma_second_leave_no_op(m: Seq<OperatorId>, user: OperatorId)
    requires
        unique_members(m),
    ensures
        ({
            let joined = members_after_join(m, user);
            let after_first = members_after_leave(joined, user);
            &&& leave_broadcasts(joined, user)
            &&& !leave_broadcasts(after_first, user)
            &&& members_after_leave(after_first, user) == after_first
        }),
{
    let joined = members_after_join(m, user);
    assert(unique_members(joined)) by {
        if !m.contains(user) {
            assert forall|i: int, j: int| 0 <= i < j < joined.len() implies joined[i]
                != joined[j] by {
                if j == joined.len() - 1 {
                    assert(joined[i] == m[i]);
                    assert(!m.contains(user));
                    assert(m[i] != user) by {
                        if m[i] == user {
                            assert(m.contains(user));
                        }
                    }
                }
            }
        }
    }
    assert(joined.contains(user)) by {
        if !m.contains(user) {
            assert(joined[joined.len() - 1] == user);
        }
    }
    lemma_find_member_props(joined, user);
    let i = find_member(joined, user);
    let after_first = joined.remove(i);
    assert(!after_first.contains(user)) by {
        if after_first.contains(user) {
            let w = choose|w: int| 0 <= w < after_first.len() && after_first[w] == user;
            if w < i {
                assert(joined[w] == user);
            } else {
                assert(joined[w + 1] == user);
            }
        }
    }
    lemma_find_member_props(after_first, user);
}

/// The authoritative per-robot state machine: identifier, current pose,
/// fixed geometry and limits, the set of attached operators, and the
/// rate-limit ledger. Exactly one controller exists per robot; it is the
/// only writer of its pose.
#[derive(Clone, Debug)]
pub struct Crane {
    pub id: ID,
    pub state: CraneState,
    pub dimensions: CraneDimensions,
    pub limits: CraneLimits,
    pub members: Vec<OperatorId>,
    pub last_update: RateLedger,
}

impl Crane {
    /// No operator is attached twice.
    pub open spec fn members_unique(self) -> bool {
        unique_members(self.members@)
    }

    /// A freshly created controller: the rest pose, no operators, an
    /// empty ledger.
    pub fn new(id: ID, dimensions: CraneDimensions, limits: CraneLimits) -> (c: Crane)
        ensures
            c.id@ == id@,
            c.state == CraneState::initial(),
            c.dimensions == dimensions,
            c.limits == limits,
            c.members@.len() == 0,
            c.last_update == RateLedger::empty(),
            c.members_unique(),
    {
        Crane {
            id,
            state: CraneState::default(),
            dimensions,
            limits,
            members: Vec::new(),
            last_update: RateLedger::new(),
        }
    }

    /// Checks one command against the rate-limit ledger at `now_ms`,
    /// stamping the ledger exactly when the command may execute.
    fn can_move(&mut self, cmd: &Command, now_ms: i64) -> (r: bool)
        ensures
            r == command_allowed(old(self).last_update, *cmd, now_ms),
            r ==> final(self).last_update == old(self).last_update.with_entry(*cmd, now_ms),
            !r ==> final(self).last_update == old(self).last_update,
            final(self).id == old(self).id,
            final(self).state == old(self).state,
            final(self).dimensions == old(self).dimensions,
            final(self).limits == old(self).limits,
            final(self).members == old(self).members,
    {
        let entry: Option<i64> = match cmd {
            Command::LiftUp => self.last_update.lift_up,
            Command::LiftDown => self.last_update.lift_down,
            Command::SwingLeft => self.last_update.swing_left,
            Command::SwingRight => self.last_update.swing_right,
            Command::ElbowLeft => self.last_update.elbow_left,
            Command::ElbowRight => self.last_update.elbow_right,
            Command::WristLeft => self.last_update.wrist_left,
            Command::WristRight => self.last_update.wrist_right,
            Command::GripperOpen => self.last_update.gripper_open,
            Command::GripperClose => self.last_update.gripper_close,
        };
        let ok: bool = match entry {
            None => true,
            Some(last) => now_ms as i128 - last as i128 >= MOVEMENT_INTERVAL_MS as i128,
        };
        if ok {
            match cmd {
                Command::LiftUp => self.last_update.lift_up = Some(now_ms),
                Command::LiftDown => self.last_update.lift_down = Some(now_ms),
                Command::SwingLeft => self.last_update.swing_left = Some(now_ms),
                Command::SwingRight => self.last_update.swing_right = Some(now_ms),
                Command::ElbowLeft => self.last_update.elbow_left = Some(now_ms),
                Command::ElbowRight => self.last_update.elbow_right = Some(now_ms),
                Command::WristLeft => self.last_update.wrist_left = Some(now_ms),
                Command::WristRight => self.last_update.wrist_right = Some(now_ms),
                Command::GripperOpen => self.last_update.gripper_open = Some(now_ms),
                Command::GripperClose => self.last_update.gripper_close = Some(now_ms),
            }
        }
        ok
    }

    /// Applies a batch of discrete commands at `now_ms`: each command
    /// whose ledger entry is absent or old enough moves its field by the
    /// fixed step and stamps the ledger; the rest are silently skipped.
    /// Returns the resulting pose. Commands never move a pose that was
    /// within well-formed limits out of them.
    pub fn process_commands(&mut self, commands: &Vec<Command>, now_ms: i64) -> (r: CraneState)
        ensures
            ({
                let after = apply_commands_seq(
                    old(self).state,
                    old(self).last_update,
                    old(self).limits,
                    commands@,
                    now_ms,
                );
                final(self).state == after.0 && final(self).last_update == after.1
            }),
            r == final(self).state,
            final(self).id == old(self).id,
            final(self).dimensions == old(self).dimensions,
            final(self).limits == old(self).limits,
            final(self).members == old(self).members,
            old(self).limits.wf() && old(self).limits.state_within(old(self).state)
                ==> final(self).limits.state_within(final(self).state),
    {
        let ghost s0 = self.state;
        let ghost led0 = self.last_update;
        let ghost l = self.limits;
        proof {
            assert(commands@.skip(0) =~= commands@);
        }
        let mut k: usize = 0;
        while k < commands.len()
            invariant
                k <= commands.len(),
                self.limits == l,
                apply_commands_seq(self.state, self.last_update, l, commands@.skip(k as int), now_ms)
                    == apply_commands_seq(s0, led0, l, commands@, now_ms),
                self.id == old(self).id,
                self.dimensions == old(self).dimensions,
                self.members == old(self).members,
                s0 == old(self).state,
                led0 == old(self).last_update,
                l == old(self).limits,
            decreases commands.len() - k,
        {
            let cmd = commands[k];
            proof {
                assert(commands@.skip(k as int)[0] == commands@[k as int]);
                assert(commands@.skip(k as int).skip(1) =~= commands@.skip(k as int + 1));
            }
            if self.can_move(&cmd, now_ms) {
                self.apply_step(&cmd);
            }
            k = k + 1;
        }
        proof {
            assert(commands@.skip(commands@.len() as int) =~= Seq::<Command>::empty());
            if old(self).limits.wf() && old(self).limits.state_within(old(self).state) {
                lemma_commands_respect_limits(s0, led0, l, commands@, now_ms);
            }
        }
        self.state
    }

    /// Moves one field by its command's fixed step, clamped or wrapped.
    fn apply_step(&mut self, cmd: &Command)
        ensures
            final(self).state == command_applied(old(self).state, old(self).limits, *cmd),
            final(self).id == old(self).id,
            final(self).dimensions == old(self).dimensions,
            final(self).limits == old(self).limits,
            final(self).members == old(self).members,
            final(self).last_update == old(self).last_update,
    {
        match cmd {
            Command::LiftUp => {
                let v: i128 = self.state.lift_mm as i128 + 5;
                self.state.lift_mm = if v > self.limits.lift_max as i128 {
                    self.limits.lift_max
                } else {
                    v as i64
                };
            }
            Command::LiftDown => {
                let v: i128 = self.state.lift_mm as i128 - 5;
                self.state.lift_mm = if v < self.limits.lift_min as i128 {
                    self.limits.lift_min
                } else {
                    v as i64
                };
            }
            Command::SwingRight => {
                self.state.swing_deg = trunc_mod_360_exec(self.state.swing_deg as i128 + 1);
            }
            Command::SwingLeft => {
                self.state.swing_deg = euclid_mod_360_exec(self.state.swing_deg as i128 - 1);
            }
            Command::ElbowLeft => {
                if self.limits.elbow_max == 0 {
                    self.state.elbow_deg = trunc_mod_360_exec(self.state.elbow_deg as i128 + 1);
                } else {
                    let v: i128 = self.state.elbow_deg as i128 + 1;
                    self.state.elbow_deg = if v > self.limits.elbow_max as i128 {
                        self.limits.elbow_max
                    } else {
                        v as i64
                    };
                }
            }
            Command::ElbowRight => {
                if self.limits.elbow_min == 0 {
                    self.state.elbow_deg = euclid_mod_360_exec(self.state.elbow_deg as i128 - 1);
                } else {
                    let v: i128 = self.state.elbow_deg as i128 - 1;
                    self.state.elbow_deg = if v < self.limits.elbow_min as i128 {
                        self.limits.elbow_min
                    } else {
                        v as i64
                    };
                }
            }
            Command::WristLeft => {
                if self.limits.wrist_max == 0 {
                    self.state.wrist_deg = trunc_mod_360_exec(self.state.wrist_deg as i128 + 1);
                } else {
                    let v: i128 = self.state.wrist_deg as i128 + 1;
                    self.state.wrist_deg = if v > self.limits.wrist_max as i128 {
                        self.limits.wrist_max
                    } else {
                        v as i64
                    };
                }
            }
            Command::WristRight => {
                if self.limits.wrist_min == 0 {
                    self.state.wrist_deg = euclid_mod_360_exec(self.state.wrist_deg as i128 - 1);
                } else {
                    let v: i128 = self.state.wrist_deg as i128 - 1;
                    self.state.wrist_deg = if v < self.limits.wrist_min as i128 {
                        self.limits.wrist_min
                    } else {
                        v as i64
                    };
                }
            }
            Command::GripperOpen => {
                let v: i128 = self.state.gripper_mm as i128 + 2;
                self.state.gripper_mm = if v > self.limits.gripper_max as i128 {
                    self.limits.gripper_max
                } else {
                    v as i64
                };
            }
            Command::GripperClose => {
                let v: i128 = self.state.gripper_mm as i128 - 2;
                self.state.gripper_mm = if v < self.limits.gripper_min as i128 {
                    self.limits.gripper_min
                } else {
                    v as i64
                };
            }
        }
    }

    /// Attaches an operator and returns the join operation to broadcast
    /// to every attached operator, the new one included. A re-join is
    /// idempotent: the operator set does not grow. The previous pose is
    /// not resent; a fresh joiner requests current state separately.
    pub fn join(&mut self, user: OperatorId, now_ms: i64) -> (op: Operation)
        ensures
            final(self).members@ == members_after_join(old(self).members@, user),
            final(self).members@.contains(user),
            old(self).members_unique() ==> final(self).members_unique(),
            final(self).id == old(self).id,
            final(self).state == old(self).state,
            final(self).dimensions == old(self).dimensions,
            final(self).limits == old(self).limits,
            final(self).last_update == old(self).last_update,
            op == (Operation {
                user_id: user,
                action: Action::Join { payload: user },
                created_at_ms: now_ms,
            }),
    {
        let mut i: usize = 0;
        let mut found: bool = false;
        while i < self.members.len() && !found
            invariant
                i <= self.members@.len(),
                found ==> self.members@.contains(user),
                !found ==> forall|k: int| 0 <= k < i ==> self.members@[k] != user,
                self.id == old(self).id,
                self.state == old(self).state,
                self.dimensions == old(self).dimensions,
                self.limits == old(self).limits,
                self.last_update == old(self).last_update,
                self.members@ == old(self).members@,
            decreases self.members@.len() - i,
        {
            if self.members[i] == user {
                found = true;
            }
            i = i + 1;
        }
        if !found {
            proof {
                assert(!self.members@.contains(user)) by {
                    if self.members@.contains(user) {
                        let w = choose|w: int|
                            0 <= w < self.members@.len() && self.members@[w] == user;
                        assert(self.members@[w] != user);
                    }
                }
            }
            self.members.push(user);
            proof {
                assert(self.members@[self.members@.len() - 1] == user);
                assert forall|a: int, b: int|
                    0 <= a < b < self.members@.len() && unique_members(
                        old(self).members@,
                    ) implies self.members@[a] != self.members@[b] by {
                    if b == self.members@.len() - 1 {
                        assert(self.members@[a] == old(self).members@[a]);
                        if old(self).members@[a] == user {
                            assert(old(self).members@.contains(user));
                        }
                    }
                }
            }
        }
        Operation::at(user, Action::Join { payload: user }, now_ms)
    }

    /// Detaches an operator. Returns the leave operation to broadcast
    /// when the operator was attached, and nothing — a complete no-op —
    /// when it was not, so repeated leaves cannot duplicate broadcasts.
    pub fn leave(&mut self, msg: Disconnect, now_ms: i64) -> (op: Option<Operation>)
        ensures
            final(self).members@ == members_after_leave(old(self).members@, msg.user),
            op is Some <==> old(self).members@.contains(msg.user),
            op is Some <==> leave_broadcasts(old(self).members@, msg.user),
            op is Some ==> op->0 == (Operation {
                user_id: msg.user,
                action: Action::Leave { payload: msg.user },
                created_at_ms: now_ms,
            }),
            old(self).members_unique() ==> !final(self).members@.contains(msg.user),
            old(self).members_unique() ==> final(self).members_unique(),
            final(self).id == old(self).id,
            final(self).state == old(self).state,
            final(self).dimensions == old(self).dimensions,
            final(self).limits == old(self).limits,
            final(self).last_update == old(self).last_update,
    {
        let user = msg.user;
        proof {
            lemma_find_member_props(self.members@, user);
        }
        let ghost m0 = self.members@;
        let mut i: usize = 0;
        while i < self.members.len()
            invariant
                i <= self.members@.len(),
                self.members@ == m0,
                m0 == old(self).members@,
                user == msg.user,
                forall|k: int| 0 <= k < i ==> self.members@[k] != user,
                self.id == old(self).id,
                self.state == old(self).state,
                self.dimensions == old(self).dimensions,
                self.limits == old(self).limits,
                self.last_update == old(self).last_update,
            decreases self.members@.len() - i,
        {
            if self.members[i] == user {
                proof {
                    assert(m0.contains(user));
                    lemma_find_member_props(m0, user);
                    let fi = find_member(m0, user);
                    assert(fi == i) by {
                        if fi < i {
                            assert(m0[fi] != user);
                        }
                        if fi > i {
                            assert(m0[i as int] != user);
                        }
                    }
                }
                self.members.remove(i);
                proof {
                    let after = self.members@;
                    assert(after == members_after_leave(m0, user));
                    if unique_members(m0) {
                        assert(!after.contains(user)) by {
                            if after.contains(user) {
                                let w = choose|w: int|
                                    0 <= w < after.len() && after[w] == user;
                                if w < i {
                                    assert(m0[w] == user);
                                } else {
                                    assert(m0[w + 1] == user);
                                }
                            }
                        }
                        assert(unique_members(after)) by {
                            assert forall|a: int, b: int|
                                0 <= a < b < after.len() implies after[a] != after[b] by {
                                if a < i && b < i {
                                    assert(after[a] == m0[a] && after[b] == m0[b]);
                                } else if a < i {
                                    assert(after[a] == m0[a] && after[b] == m0[b + 1]);
                                } else {
                                    assert(after[a] == m0[a + 1] && after[b] == m0[b + 1]);
                                }
                            }
                        }
                    }
                }
                return Some(Operation::at(user, Action::Leave { payload: user }, now_ms));
            }
            i = i + 1;
        }
        proof {
            assert(!m0.contains(user)) by {
                if m0.contains(user) {
                    let w = choose|w: int| 0 <= w < m0.len() && m0[w] == user;
                    assert(m0[w] != user);
                }
            }
            lemma_find_member_props(m0, user);
        }
        None
    }

    /// Solves the inverse kinematics against this controller's geometry
    /// and limits, carrying the current gripper opening through.
    pub fn calculate_inverse_kinematics(&self, target: &Location) -> (r: Result<
        CraneState,
        KinematicError,
    >)
        requires
            self.dimensions.wf(),
            self.limits.lift_min <= self.limits.lift_max,
        ensures
            solve_post(self.dimensions, self.limits, self.state.gripper_mm, *target, r),
    {
        solve(&self.dimensions, &self.limits, self.state.gripper_mm, target)
    }

    /// Processes one operator-authored operation at `now_ms` and returns
    /// the effects the runtime must perform: the operations to broadcast
    /// now, and the scheduled interpolation updates to commit later, the
    /// `k`-th after `(k + 1)` step delays.
    ///
    /// A command batch mutates the pose immediately and answers with one
    /// update broadcast. A reachable move target starts an animation: the
    /// pose itself is untouched until each scheduled commit fires. An
    /// unreachable target changes nothing and broadcasts nothing. Inputs
    /// that only the server may author (join, leave, update) are ignored
    /// here.
    ///
    /// Scheduled commits of an earlier plan are deliberately not
    /// cancelled when a newer move or command arrives: a late-firing old
    /// step may overwrite a newer pose. That race is preserved, known,
    /// and bounded by the plan length.
    pub fn handle(&mut self, msg: &Operation, now_ms: i64) -> (eff: CraneEffects)
        requires
            old(self).dimensions.wf(),
            old(self).limits.lift_min <= old(self).limits.lift_max,
        ensures
            final(self).id == old(self).id,
            final(self).dimensions == old(self).dimensions,
            final(self).limits == old(self).limits,
            final(self).members == old(self).members,
            (msg.action matches Action::Command { payload: cmds } ==> {
                let after = apply_commands_seq(
                    old(self).state,
                    old(self).last_update,
                    old(self).limits,
                    cmds@,
                    now_ms,
                );
                &&& final(self).state == after.0
                &&& final(self).last_update == after.1
                &&& eff.scheduled@.len() == 0
                &&& eff.broadcasts@.len() == 1
                &&& eff.broadcasts@[0] == (Operation {
                    user_id: msg.user_id,
                    action: Action::Update { payload: after.0 },
                    created_at_ms: now_ms,
                })
            }),
            (msg.action matches Action::Move { payload: target } ==> {
                &&& final(self).state == old(self).state
                &&& final(self).last_update == old(self).last_update
                &&& eff.broadcasts@.len() == 0
                &&& (out_of_reach(old(self).dimensions, target) ==> eff.scheduled@.len() == 0)
                &&& (!out_of_reach(old(self).dimensions, target) ==> {
                    let goal = solved_state(
                        old(self).dimensions,
                        old(self).limits,
                        old(self).state.gripper_mm,
                        target,
                    );
                    &&& eff.scheduled@.len() == plan_steps(old(self).state, goal)
                    &&& eff.scheduled@.len() > 0
                    &&& (forall|k: int|
                        0 <= k < eff.scheduled@.len() ==> eff.scheduled@[k] == (Operation {
                            user_id: msg.user_id,
                            action: Action::Update {
                                payload: step_state(old(self).state, goal, k + 1),
                            },
                            created_at_ms: now_ms,
                        }))
                    &&& eff.scheduled@[eff.scheduled@.len() - 1].action == (Action::Update {
                        payload: goal,
                    })
                })
            }),
            (!(msg.action matches Action::Command { payload: c }) && !(msg.action
                matches Action::Move { payload: t }) ==> final(self).state == old(self).state
                && final(self).last_update == old(self).last_update && eff.broadcasts@.len() == 0
                && eff.scheduled@.len() == 0),
    {
        match &msg.action {
            Action::Command { payload } => {
                let st = self.process_commands(payload, now_ms);
                let mut broadcasts: Vec<Operation> = Vec::new();
                broadcasts.push(Operation::at(msg.user_id, Action::Update { payload: st }, now_ms));
                CraneEffects { broadcasts, scheduled: Vec::new() }
            }
            Action::Move { payload } => {
                match self.calculate_inverse_kinematics(payload) {
                    Ok(goal) => {
                        let plan = interpolation_plan(&self.state, &goal);
                        let mut scheduled: Vec<Operation> = Vec::new();
                        let mut k: usize = 0;
                        while k < plan.len()
                            invariant
                                k <= plan@.len(),
                                scheduled@.len() == k,
                                forall|j: int|
                                    0 <= j < k ==> scheduled@[j] == (Operation {
                                        user_id: msg.user_id,
                                        action: Action::Update { payload: plan@[j] },
                                        created_at_ms: now_ms,
                                    }),
                            decreases plan@.len() - k,
                        {
                            scheduled.push(
                                Operation::at(
                                    msg.user_id,
                                    Action::Update { payload: plan[k] },
                                    now_ms,
                                ),
                            );
                            k = k + 1;
                        }
                        CraneEffects { broadcasts: Vec::new(), scheduled }
                    }
                    Err(_) => CraneEffects { broadcasts: Vec::new(), scheduled: Vec::new() },
                }
            }
            _ => CraneEffects { broadcasts: Vec::new(), scheduled: Vec::new() },
        }
    }

    /// Commits one scheduled interpolation step: overwrites the
    /// authoritative pose with the step's precomputed value. The runtime
    /// broadcasts the step's update operation alongside.
    pub fn commit_step(&mut self, state: CraneState)
        ensures
            final(self).state == state,
            final(self).id == old(self).id,
            final(self).dimensions == old(self).dimensions,
            final(self).limits == old(self).limits,
            final(self).members == old(self).members,
            final(self).last_update == old(self).last_update,
    {
        self.state = state;
    }

    /// An identical, independently owned controller value.
    pub fn duplicate(&self) -> (c: Crane)
        ensures
            c.id@ == self.id@,
            c.state == self.state,
            c.dimensions == self.dimensions,
            c.limits == self.limits,
            c.members@ == self.members@,
            c.last_update == self.last_update,
    {
        let mut members: Vec<OperatorId> = Vec::new();
        let mut k: usize = 0;
        proof {
            assert(self.members@.take(0) =~= Seq::<OperatorId>::empty());
        }
        while k < self.members.len()
            invariant
                k <= self.members@.len(),
                members@ == self.members@.take(k as int),
            decreases self.members@.len() - k,
        {
            members.push(self.members[k]);
            proof {
                assert(self.members@.take(k as int).push(self.members@[k as int])
                    =~= self.members@.take(k as int + 1));
            }
            k = k + 1;
        }
        proof {
            assert(self.members@.take(self.members@.len() as int) =~= self.members@);
        }
        Crane {
            id: self.id.clone(),
            state: self.state,
            dimensions: self.dimensions,
            limits: self.limits,
            members,
            last_update: self.last_update,
        }
    }

    /// A side-effect-free snapshot of this controller.
    pub fn info(&self) -> (r: RobotCraneInfo)
        ensures
            r.id@ == self.id@,
            r.state == self.state,
            r.dimensions == self.dimensions,
    {
        RobotCraneInfo { id: self.id.clone(), state: self.state, dimensions: self.dimensions }
    }
}

/// What a controller hands back to the runtime after processing one
/// operation: the operations to broadcast immediately, and the scheduled
/// interpolation updates to commit later, in order.
pub struct CraneEffects {
    pub broadcasts: Vec<Operation>,
    pub scheduled: Vec<Operation>,
}

/// Reduces an angle modulo 360 with the sign of the dividend.
fn trunc_mod_360_exec(v: i128) -> (r: i64)
    requires
        -0x10000000000000000 <= v <= 0x10000000000000000,
    ensures
        r == trunc_mod_360(v as int),
{
    if v >= 0 {
        ((v as u128) % 360) as i64
    } else {
        -((((-v) as u128) % 360) as i64)
    }
}

/// Reduces an angle modulo 360 into `[0, 360)`.
fn euclid_mod_360_exec(v: i128) -> (r: i64)
    requires
        -0x10000000000000000 <= v <= 0x10000000000000000,
    ensures
        r == euclid_mod_360(v as int),
        0 <= r < 360,
{
    if v >= 0 {
        ((v as u128) % 360) as i64
    } else {
        let t: i64 = ((((-v) as u128) % 360) as i64);
        let r: i64 = if t == 0 {
            0
        } else {
            360 - t
        };
        proof {
            let vi = v as int;
            let q = (-vi) / 360;
            lemma_mod_bound(-vi, 360);
            vstd::arithmetic::div_mod::lemma_fundamental_div_mod(-vi, 360);
            if t == 0 {
                lemma_fundamental_div_mod_converse(vi, 360, -q, 0);
            } else {
                lemma_fundamental_div_mod_converse(vi, 360, -q - 1, 360 - t);
            }
        }
        r
    }
}

} // verus!
