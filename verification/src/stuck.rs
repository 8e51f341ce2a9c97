//! Stuck detection for the simulated robot: when the body stays within a few
//! centimetres for a run of ticks while it is told to move (or while it is
//! boxed in), a stuck event starts and a recovery is attempted; the event ends
//! when the body gets clear. Traps are told apart by where they happen.

use vstd::prelude::*;
use crate::actions::{ActionPrimitive, ArenaConfig};
use crate::body::BodySense;
use crate::now::RangeSense;
use crate::selection::is_motion;

verus! {

/// Ticks of low displacement after which the body counts as stuck.
pub const STUCK_LOW_DISPLACEMENT_TICKS: u64 = 6;

/// Displacement, in millimetres along either axis, that counts as moving.
pub const STUCK_DISPLACEMENT_MM: i64 = 50;

/// Nearest range, in millimetres, below which the body is boxed in.
pub const BOXED_IN_RANGE_MM: u32 = 300;

/// Distance, in millimetres, from an arena wall within which the body is by that wall.
pub const WALL_MARGIN_MM: i64 = 400;

/// Distance, in millimetres along either axis, within which a new trap is the previous one.
pub const TRAP_ANCHOR_RADIUS_MM: i64 = 150;

/// Recovery attempts beyond which the simulation is due for a reset.
pub const MAX_RECOVERY_ATTEMPTS: u64 = 3;

/// Where a trap is.
#[derive(Clone, Copy, Debug, PartialEq, Eq, Structural)]
pub enum TrapKind {
    Open,
    Wall,
    Corner,
    Column,
}

/// A point on the floor, in millimetres.
#[derive(Clone, Copy, Debug, PartialEq, Eq, Structural)]
pub struct Spot {
    pub x_mm: i64,
    pub y_mm: i64,
}

/// Named values an extension of the runtime publishes with a snapshot.
pub struct ExtensionSense {
    pub schema_version: u32,
    pub name: String,
    pub values: Vec<i64>,
}

/// One tick of the simulated world.
pub struct WorldSnapshot {
    pub body: BodySense,
    pub range: RangeSense,
    /// The arena the body moves in, when the simulator reports it.
    pub arena: Option<ArenaConfig>,
    pub extensions: Vec<ExtensionSense>,
}

impl Default for WorldSnapshot {
    fn default() -> (r: WorldSnapshot)
        ensures
            r.body == crate::body::default_body(),
            r.range.nearest_mm is None,
            r.range.beams_mm@.len() == 0,
            r.arena is None,
            r.extensions@.len() == 0,
    {
        WorldSnapshot {
            body: BodySense::default(),
            range: RangeSense { nearest_mm: None, beams_mm: Vec::new() },
            arena: None,
            extensions: Vec::new(),
        }
    }
}

/// What the stuck detector reports.
#[derive(Clone, Copy, Debug, PartialEq, Eq, Structural)]
pub struct StuckStatus {
    pub active: bool,
    pub corner_trap: bool,
    pub trap_kind: TrapKind,
    pub stuck_ticks: u64,
    pub event_started: bool,
    pub recovery_attempts: u64,
    pub duration_ticks: u64,
    pub reset_due: bool,
    pub recovered: bool,
    pub repeated_trap_count: u64,
    pub dead_battery: bool,
}

/// Follows the body tick by tick and runs stuck events.
#[derive(Clone, Copy, Debug, PartialEq, Eq, Structural)]
pub struct StuckRecoveryController {
    /// Position, in millimetres, where the current run of low displacement began.
    pub run_origin: Option<Spot>,
    /// Ticks of the current run of low displacement (at most the stuck threshold).
    pub stuck_ticks: u64,
    /// Whether a stuck event is under way.
    pub active: bool,
    /// Whether the event began at the last tick.
    pub event_started: bool,
    /// Whether the last event ended with the body clear.
    pub recovered: bool,
    pub dead_battery: bool,
    pub corner_trap: bool,
    pub trap_kind: TrapKind,
    /// Ticks the current (or last) event lasted.
    pub duration_ticks: u64,
    pub recovery_attempts: u64,
    /// Events that began where the previous one had.
    pub repeated_trap_count: u64,
    pub reset_due: bool,
    /// Where the last event began, in millimetres.
    pub trap_anchor: Option<Spot>,
    /// Nearest range, in millimetres, when the last recovery finished.
    pub clearance_mm: Option<u32>,
    /// Nearest range at the last tick.
    pub last_nearest_mm: Option<u32>,
}

/// The detector before any tick.
pub open spec fn fresh_detector() -> StuckRecoveryController {
    StuckRecoveryController {
        run_origin: None,
        stuck_ticks: 0,
        active: false,
        event_started: false,
        recovered: false,
        dead_battery: false,
        corner_trap: false,
        trap_kind: TrapKind::Open,
        duration_ticks: 0,
        recovery_attempts: 0,
        repeated_trap_count: 0,
        reset_due: false,
        trap_anchor: None,
        clearance_mm: None,
        last_nearest_mm: None,
    }
}

impl Default for StuckRecoveryController {
    fn default() -> (r: StuckRecoveryController)
        ensures
            r == fresh_detector(),
    {
        StuckRecoveryController {
            run_origin: None,
            stuck_ticks: 0,
            active: false,
            event_started: false,
            recovered: false,
            dead_battery: false,
            corner_trap: false,
            trap_kind: TrapKind::Open,
            duration_ticks: 0,
            recovery_attempts: 0,
            repeated_trap_count: 0,
            reset_due: false,
            trap_anchor: None,
            clearance_mm: None,
            last_nearest_mm: None,
        }
    }
}

pub open spec fn abs_diff(a: i64, b: i64) -> int {
    if a >= b {
        a - b
    } else {
        b - a
    }
}

/// Whether `a` is at least `limit` millimetres from `b` along some axis.
pub open spec fn apart(a: Spot, b: Spot, limit: i64) -> bool {
    abs_diff(a.x_mm, b.x_mm) >= limit || abs_diff(a.y_mm, b.y_mm) >= limit
}

pub open spec fn position(s: WorldSnapshot) -> Spot {
    Spot { x_mm: s.body.odometry.x_mm, y_mm: s.body.odometry.y_mm }
}

pub open spec fn boxed_in(s: WorldSnapshot) -> bool {
    match s.range.nearest_mm {
        Some(d) => d < BOXED_IN_RANGE_MM,
        None => false,
    }
}

/// Whether a coordinate lies within the wall margin of `0` or of `extent`.
pub open spec fn by_wall(v: i64, extent: u32) -> bool {
    v < WALL_MARGIN_MM || v > extent - WALL_MARGIN_MM
}

/// Where the body is trapped: by two walls, by one, or, away from the walls,
/// boxed in by a column; in the open otherwise.
pub open spec fn trap_kind_of(s: WorldSnapshot) -> TrapKind {
    let x = s.body.odometry.x_mm;
    let y = s.body.odometry.y_mm;
    match s.arena {
        Some(a) => if by_wall(x, a.width_mm) && by_wall(y, a.height_mm) {
            TrapKind::Corner
        } else if by_wall(x, a.width_mm) || by_wall(y, a.height_mm) {
            TrapKind::Wall
        } else if boxed_in(s) {
            TrapKind::Column
        } else {
            TrapKind::Open
        },
        None => if boxed_in(s) {
            TrapKind::Column
        } else {
            TrapKind::Open
        },
    }
}

pub open spec fn bump(n: u64) -> u64 {
    if n < u64::MAX {
        (n + 1) as u64
    } else {
        n
    }
}

pub open spec fn commands_motion(a: Option<ActionPrimitive>) -> bool {
    match a {
        Some(x) => is_motion(x),
        None => false,
    }
}

/// The detector after tick `s`, at which the body was told to do `a`.
///
/// A body with a flat battery is never stuck. During an event every tick
/// lengthens it, and the event ends, recovered, once the body is clear of
/// where the run began. Otherwise a tick at which the body stays near where
/// the run began, while it is told to move or is boxed in, extends the run;
/// any other tick starts a new run here. A run that reaches the threshold
/// starts an event: one more recovery attempt, anchored here, repeated when
/// the previous event began nearby, and due for a reset after too many.
pub open spec fn stuck_next(
    c: StuckRecoveryController,
    s: WorldSnapshot,
    a: Option<ActionPrimitive>,
) -> StuckRecoveryController {
    let pos = position(s);
    let c1 = StuckRecoveryController {
        last_nearest_mm: s.range.nearest_mm,
        event_started: false,
        dead_battery: false,
        ..c
    };
    if s.body.battery_permille == 0 {
        StuckRecoveryController {
            dead_battery: true,
            active: false,
            run_origin: Some(pos),
            stuck_ticks: 0,
            ..c1
        }
    } else if c.active {
        let cleared = match c.run_origin {
            Some(o) => apart(pos, o, STUCK_DISPLACEMENT_MM),
            None => true,
        };
        if cleared {
            StuckRecoveryController {
                active: false,
                recovered: true,
                duration_ticks: bump(c.duration_ticks),
                run_origin: Some(pos),
                stuck_ticks: 0,
                ..c1
            }
        } else {
            StuckRecoveryController { duration_ticks: bump(c.duration_ticks), ..c1 }
        }
    } else {
        let continuing = match c.run_origin {
            Some(o) => (commands_motion(a) || boxed_in(s)) && !apart(pos, o, STUCK_DISPLACEMENT_MM),
            None => false,
        };
        let ticks: u64 = if continuing {
            if c.stuck_ticks < STUCK_LOW_DISPLACEMENT_TICKS {
                (c.stuck_ticks + 1) as u64
            } else {
                STUCK_LOW_DISPLACEMENT_TICKS
            }
        } else {
            0
        };
        let origin = if continuing {
            c.run_origin
        } else {
            Some(pos)
        };
        if ticks == STUCK_LOW_DISPLACEMENT_TICKS {
            let kind = trap_kind_of(s);
            let repeated = match c.trap_anchor {
                Some(an) => !apart(pos, an, TRAP_ANCHOR_RADIUS_MM),
                None => false,
            };
            let attempts = bump(c.recovery_attempts);
            StuckRecoveryController {
                run_origin: origin,
                stuck_ticks: ticks,
                active: true,
                event_started: true,
                recovered: false,
                duration_ticks: 1,
                recovery_attempts: attempts,
                repeated_trap_count: if repeated {
                    bump(c.repeated_trap_count)
                } else {
                    c.repeated_trap_count
                },
                trap_anchor: Some(pos),
                trap_kind: kind,
                corner_trap: kind == TrapKind::Corner,
                reset_due: attempts > MAX_RECOVERY_ATTEMPTS,
                ..c1
            }
        } else {
            StuckRecoveryController { run_origin: origin, stuck_ticks: ticks, ..c1 }
        }
    }
}

pub open spec fn flag(b: bool) -> i64 {
    if b {
        1
    } else {
        0
    }
}

pub open spec fn clamp_i64(v: int) -> i64 {
    if v > i64::MAX {
        i64::MAX
    } else {
        v as i64
    }
}

pub open spec fn trap_code(k: TrapKind) -> i64 {
    match k {
        TrapKind::Open => 0,
        TrapKind::Wall => 1,
        TrapKind::Corner => 2,
        TrapKind::Column => 3,
    }
}

/// The values of the stuck extension, at a tick length of `tick_ms`:
/// active, corner trap, stuck ticks, event duration in milliseconds, event
/// started, trap kind (open, wall, corner, column as 0 to 3), trap anchored,
/// recovered, flat battery, reset due, clearance in millimetres (-1 when
/// unknown), recovery attempts and repeated traps.
pub open spec fn stuck_values(c: StuckRecoveryController, tick_ms: u64) -> Seq<i64> {
    seq![
        flag(c.active),
        flag(c.corner_trap),
        clamp_i64(c.stuck_ticks as int),
        clamp_i64(c.duration_ticks * tick_ms),
        flag(c.event_started),
        trap_code(c.trap_kind),
        flag(c.trap_anchor is Some),
        flag(c.recovered),
        flag(c.dead_battery),
        flag(c.reset_due),
        match c.clearance_mm {
            Some(d) => d as i64,
            None => -1i64,
        },
        clamp_i64(c.recovery_attempts as int),
        clamp_i64(c.repeated_trap_count as int),
    ]
}

fn abs_diff_of(a: i64, b: i64) -> (r: u64)
    ensures
        r == abs_diff(a, b),
{
    if a >= b {
        ((a as i128) - (b as i128)) as u64
    } else {
        ((b as i128) - (a as i128)) as u64
    }
}

fn apart_of(a: Spot, b: Spot, limit: i64) -> (r: bool)
    requires
        limit >= 0,
    ensures
        r == apart(a, b, limit),
{
    abs_diff_of(a.x_mm, b.x_mm) >= limit as u64 || abs_diff_of(a.y_mm, b.y_mm) >= limit as u64
}

fn boxed_in_of(s: &WorldSnapshot) -> (r: bool)
    ensures
        r == boxed_in(*s),
{
    match s.range.nearest_mm {
        Some(d) => d < BOXED_IN_RANGE_MM,
        None => false,
    }
}

fn by_wall_of(v: i64, extent: u32) -> (r: bool)
    ensures
        r == by_wall(v, extent),
{
    v < WALL_MARGIN_MM || v > (extent as i64) - WALL_MARGIN_MM
}

fn trap_kind_at(s: &WorldSnapshot) -> (r: TrapKind)
    ensures
        r == trap_kind_of(*s),
{
    let x = s.body.odometry.x_mm;
    let y = s.body.odometry.y_mm;
    match s.arena {
        Some(a) => {
            let bx = by_wall_of(x, a.width_mm);
            let by = by_wall_of(y, a.height_mm);
            if bx && by {
                TrapKind::Corner
            } else if bx || by {
                TrapKind::Wall
            } else if boxed_in_of(s) {
                TrapKind::Column
            } else {
                TrapKind::Open
            }
        },
        None => if boxed_in_of(s) {
            TrapKind::Column
        } else {
            TrapKind::Open
        },
    }
}

fn bump_of(n: u64) -> (r: u64)
    ensures
        r == bump(n),
{
    if n < u64::MAX {
        n + 1
    } else {
        n
    }
}

fn commands_motion_of(a: Option<&ActionPrimitive>) -> (r: bool)
    ensures
        r == commands_motion(match a {
            Some(x) => Some(*x),
            None => None,
        }),
{
    match a {
        Some(x) => match x {
            ActionPrimitive::Go { .. } => true,
            ActionPrimitive::Turn { .. } => true,
            ActionPrimitive::Drive { .. } => true,
            ActionPrimitive::Explore { .. } => true,
            ActionPrimitive::Approach { .. } => true,
            ActionPrimitive::Dock => true,
            _ => false,
        },
        None => false,
    }
}

fn clamp_of(v: u64) -> (r: i64)
    ensures
        r == clamp_i64(v as int),
{
    if v > i64::MAX as u64 {
        i64::MAX
    } else {
        v as i64
    }
}

fn flag_of(b: bool) -> (r: i64)
    ensures
        r == flag(b),
{
    if b {
        1
    } else {
        0
    }
}

fn duration_ms_of(ticks: u64, tick_ms: u64) -> (r: i64)
    ensures
        r == clamp_i64(ticks * tick_ms),
{
    let d = ticks as u128;
    let t = tick_ms as u128;
    assert(d * t <= 0xffff_ffff_ffff_ffffu128 * 0xffff_ffff_ffff_ffffu128) by (nonlinear_arith)
        requires
            d <= 0xffff_ffff_ffff_ffffu128,
            t <= 0xffff_ffff_ffff_ffffu128,
    ;
    let product: u128 = d * t;
    if product > i64::MAX as u128 {
        i64::MAX
    } else {
        product as i64
    }
}

impl StuckRecoveryController {
    /// Takes in one tick of the world, at which the body was told to do `action`.
    pub fn observe(&mut self, snapshot: &WorldSnapshot, action: Option<&ActionPrimitive>)
        ensures
            *final(self) == stuck_next(*old(self), *snapshot, match action {
                Some(x) => Some(*x),
                None => None,
            }),
    {
        let pos = Spot { x_mm: snapshot.body.odometry.x_mm, y_mm: snapshot.body.odometry.y_mm };
        self.last_nearest_mm = snapshot.range.nearest_mm;
        self.event_started = false;
        self.dead_battery = false;
        if snapshot.body.battery_permille == 0 {
            self.dead_battery = true;
            self.active = false;
            self.run_origin = Some(pos);
            self.stuck_ticks = 0;
            return;
        }
        if self.active {
            let cleared = match self.run_origin {
                Some(o) => apart_of(pos, o, STUCK_DISPLACEMENT_MM),
                None => true,
            };
            self.duration_ticks = bump_of(self.duration_ticks);
            if cleared {
                self.active = false;
                self.recovered = true;
                self.run_origin = Some(pos);
                self.stuck_ticks = 0;
            }
            return;
        }
        let continuing = match self.run_origin {
            Some(o) => (commands_motion_of(action) || boxed_in_of(snapshot)) && !apart_of(
                pos,
                o,
                STUCK_DISPLACEMENT_MM,
            ),
            None => false,
        };
        let ticks: u64 = if continuing {
            if self.stuck_ticks < STUCK_LOW_DISPLACEMENT_TICKS {
                self.stuck_ticks + 1
            } else {
                STUCK_LOW_DISPLACEMENT_TICKS
            }
        } else {
            0
        };
        if !continuing {
            self.run_origin = Some(pos);
        }
        self.stuck_ticks = ticks;
        if ticks == STUCK_LOW_DISPLACEMENT_TICKS {
            let kind = trap_kind_at(snapshot);
            let repeated = match self.trap_anchor {
                Some(an) => !apart_of(pos, an, TRAP_ANCHOR_RADIUS_MM),
                None => false,
            };
            let attempts = bump_of(self.recovery_attempts);
            self.active = true;
            self.event_started = true;
            self.recovered = false;
            self.duration_ticks = 1;
            self.recovery_attempts = attempts;
            if repeated {
                self.repeated_trap_count = bump_of(self.repeated_trap_count);
            }
            self.trap_anchor = Some(pos);
            self.trap_kind = kind;
            self.corner_trap = kind == TrapKind::Corner;
            self.reset_due = attempts > MAX_RECOVERY_ATTEMPTS;
        }
    }

    /// Ends the current event as recovered: the body is clear, the run of low
    /// displacement starts afresh at the next tick, and the clearance is the
    /// last nearest range.
    pub fn finish_recovery_success(&mut self)
        ensures
            *final(self) == (StuckRecoveryController {
                active: false,
                event_started: false,
                recovered: true,
                run_origin: None,
                stuck_ticks: 0,
                clearance_mm: old(self).last_nearest_mm,
                ..*old(self)
            }),
    {
        self.active = false;
        self.event_started = false;
        self.recovered = true;
        self.run_origin = None;
        self.stuck_ticks = 0;
        self.clearance_mm = self.last_nearest_mm;
    }

    /// The detector's report.
    pub fn status(&self) -> (r: StuckStatus)
        ensures
            r == (StuckStatus {
                active: self.active,
                corner_trap: self.corner_trap,
                trap_kind: self.trap_kind,
                stuck_ticks: self.stuck_ticks,
                event_started: self.event_started,
                recovery_attempts: self.recovery_attempts,
                duration_ticks: self.duration_ticks,
                reset_due: self.reset_due,
                recovered: self.recovered,
                repeated_trap_count: self.repeated_trap_count,
                dead_battery: self.dead_battery,
            }),
    {
        StuckStatus {
            active: self.active,
            corner_trap: self.corner_trap,
            trap_kind: self.trap_kind,
            stuck_ticks: self.stuck_ticks,
            event_started: self.event_started,
            recovery_attempts: self.recovery_attempts,
            duration_ticks: self.duration_ticks,
            reset_due: self.reset_due,
            recovered: self.recovered,
            repeated_trap_count: self.repeated_trap_count,
            dead_battery: self.dead_battery,
        }
    }

    /// The stuck extension published at a tick length of `tick_ms`.
    pub fn extension(&self, tick_ms: u64) -> (r: ExtensionSense)
        ensures
            r.schema_version == 1,
            r.name@ == "sim.stuck"@,
            r.values@ == stuck_values(*self, tick_ms),
    {
        let duration_ms = duration_ms_of(self.duration_ticks, tick_ms);
        let mut values: Vec<i64> = Vec::new();
        values.push(flag_of(self.active));
        values.push(flag_of(self.corner_trap));
        values.push(clamp_of(self.stuck_ticks));
        values.push(duration_ms);
        values.push(flag_of(self.event_started));
        values.push(
            match self.trap_kind {
                TrapKind::Open => 0,
                TrapKind::Wall => 1,
                TrapKind::Corner => 2,
                TrapKind::Column => 3,
            },
        );
        values.push(flag_of(self.trap_anchor.is_some()));
        values.push(flag_of(self.recovered));
        values.push(flag_of(self.dead_battery));
        values.push(flag_of(self.reset_due));
        values.push(
            match self.clearance_mm {
                Some(d) => d as i64,
                None => -1,
            },
        );
        values.push(clamp_of(self.recovery_attempts));
        values.push(clamp_of(self.repeated_trap_count));
        assert(values@ =~= stuck_values(*self, tick_ms));
        ExtensionSense { schema_version: 1, name: "sim.stuck".to_owned(), values }
    }

    /// Appends the stuck extension to `snapshot`.
    pub fn annotate_snapshot(&self, snapshot: &mut WorldSnapshot, tick_ms: u64)
        ensures
            final(snapshot).body == old(snapshot).body,
            final(snapshot).arena == old(snapshot).arena,
            final(snapshot).range.nearest_mm == old(snapshot).range.nearest_mm,
            final(snapshot).range.beams_mm@ == old(snapshot).range.beams_mm@,
            final(snapshot).extensions@.len() == old(snapshot).extensions@.len() + 1,
            forall|i: int|
                0 <= i < old(snapshot).extensions@.len() ==> #[trigger] final(snapshot).extensions@[i]
                    == old(snapshot).extensions@[i],
            final(snapshot).extensions@.last().schema_version == 1,
            final(snapshot).extensions@.last().name@ == "sim.stuck"@,
            final(snapshot).extensions@.last().values@ == stuck_values(*self, tick_ms),
    {
        let e = self.extension(tick_ms);
        snapshot.extensions.push(e);
    }
}

/// A body with a flat battery never has a stuck event under way.
pub proof fn lemma_flat_battery_never_stuck(
    c: StuckRecoveryController,
    s: WorldSnapshot,
    a: Option<ActionPrimitive>,
)
    requires
        s.body.battery_permille == 0,
    ensures
        stuck_next(c, s, a).dead_battery,
        !stuck_next(c, s, a).active,
        !stuck_next(c, s, a).event_started,
{
}

/// An event starts only when none is under way and a full run of low
/// displacement has been seen; recovery attempts and repeated traps never
/// decrease, and a reset falls due only with too many attempts.
pub proof fn lemma_events_follow_full_runs(
    c: StuckRecoveryController,
    s: WorldSnapshot,
    a: Option<ActionPrimitive>,
)
    ensures
        stuck_next(c, s, a).event_started ==> !c.active && stuck_next(c, s, a).stuck_ticks
            == STUCK_LOW_DISPLACEMENT_TICKS && stuck_next(c, s, a).active,
        stuck_next(c, s, a).recovery_attempts >= c.recovery_attempts,
        stuck_next(c, s, a).repeated_trap_count >= c.repeated_trap_count,
        stuck_next(c, s, a).reset_due != c.reset_due ==> stuck_next(c, s, a).event_started,
        stuck_next(c, s, a).event_started ==> (stuck_next(c, s, a).reset_due
            <==> stuck_next(c, s, a).recovery_attempts > MAX_RECOVERY_ATTEMPTS),
        stuck_next(c, s, a).stuck_ticks <= STUCK_LOW_DISPLACEMENT_TICKS || stuck_next(
            c,
            s,
            a,
        ).stuck_ticks == c.stuck_ticks,
{
}

/// A body told to move (go, turn, drive, explore, approach or dock) that stays
/// within the displacement margin of where its run began extends the run,
/// however far the nearest obstacle is; the tick that completes the run
/// starts a stuck event with one more recovery attempt.
pub proof fn lemma_commanded_stall_extends_the_run(
    c: StuckRecoveryController,
    s: WorldSnapshot,
    a: Option<ActionPrimitive>,
)
    requires
        !c.active,
        s.body.battery_permille > 0,
        c.run_origin is Some,
        -STUCK_DISPLACEMENT_MM < s.body.odometry.x_mm - c.run_origin->0.x_mm < STUCK_DISPLACEMENT_MM,
        -STUCK_DISPLACEMENT_MM < s.body.odometry.y_mm - c.run_origin->0.y_mm < STUCK_DISPLACEMENT_MM,
        a matches Some(x) && (x is Go || x is Turn || x is Drive || x is Explore || x is Approach
            || x is Dock),
    ensures
        stuck_next(c, s, a).stuck_ticks == (if c.stuck_ticks < STUCK_LOW_DISPLACEMENT_TICKS {
            c.stuck_ticks + 1
        } else {
            STUCK_LOW_DISPLACEMENT_TICKS as int
        }),
        stuck_next(c, s, a).run_origin == c.run_origin,
        c.stuck_ticks + 1 >= STUCK_LOW_DISPLACEMENT_TICKS ==> {
            &&& stuck_next(c, s, a).active
            &&& stuck_next(c, s, a).event_started
            &&& stuck_next(c, s, a).duration_ticks == 1
            &&& (c.recovery_attempts < u64::MAX ==> stuck_next(c, s, a).recovery_attempts
                == c.recovery_attempts + 1)
        },
{
}

/// During an event, a tick at which the body is clear of where the run began
/// (by the displacement margin along some axis) ends the event as recovered,
/// and a tick at which it is not keeps the event going one tick longer.
pub proof fn lemma_getting_clear_ends_the_event(
    c: StuckRecoveryController,
    s: WorldSnapshot,
    a: Option<ActionPrimitive>,
)
    requires
        c.active,
        s.body.battery_permille > 0,
        c.run_origin is Some,
        c.duration_ticks < u64::MAX,
    ensures
        (s.body.odometry.x_mm - c.run_origin->0.x_mm >= STUCK_DISPLACEMENT_MM
            || c.run_origin->0.x_mm - s.body.odometry.x_mm >= STUCK_DISPLACEMENT_MM
            || s.body.odometry.y_mm - c.run_origin->0.y_mm >= STUCK_DISPLACEMENT_MM
            || c.run_origin->0.y_mm - s.body.odometry.y_mm >= STUCK_DISPLACEMENT_MM) ==> {
            &&& !stuck_next(c, s, a).active
            &&& stuck_next(c, s, a).recovered
            &&& stuck_next(c, s, a).stuck_ticks == 0
        },
        (-STUCK_DISPLACEMENT_MM < s.body.odometry.x_mm - c.run_origin->0.x_mm < STUCK_DISPLACEMENT_MM
            && -STUCK_DISPLACEMENT_MM < s.body.odometry.y_mm - c.run_origin->0.y_mm
            < STUCK_DISPLACEMENT_MM) ==> stuck_next(c, s, a).active,
        stuck_next(c, s, a).duration_ticks == c.duration_ticks + 1,
        stuck_next(c, s, a).recovery_attempts == c.recovery_attempts,
{
}

/// In a known arena, a trap within the wall margin of two walls is a corner,
/// of exactly one wall a wall trap; away from the walls it is a column when
/// something is within the boxed-in range, and open otherwise.
pub proof fn lemma_trap_kinds_follow_the_walls(s: WorldSnapshot)
    requires
        s.arena is Some,
    ensures
        ({
            let a = s.arena->0;
            let x = s.body.odometry.x_mm;
            let y = s.body.odometry.y_mm;
            let near_x = x < 400 || x > a.width_mm - 400;
            let near_y = y < 400 || y > a.height_mm - 400;
            let boxed = s.range.nearest_mm matches Some(d) && d < 300;
            &&& (near_x && near_y) ==> trap_kind_of(s) == TrapKind::Corner
            &&& (near_x != near_y) ==> trap_kind_of(s) == TrapKind::Wall
            &&& (!near_x && !near_y && boxed) ==> trap_kind_of(s) == TrapKind::Column
            &&& (!near_x && !near_y && !boxed) ==> trap_kind_of(s) == TrapKind::Open
        }),
{
}

} // verus!
