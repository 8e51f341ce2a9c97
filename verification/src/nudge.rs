//! Idle nudges: when the body has sat still for a while, the runtime gives it
//! a small prod (a short forward creep, or a turn toward open space when
//! something is close ahead), never while the body is in danger and never
//! twice within a cool-down.

use vstd::prelude::*;
use crate::actions::{ActionPrimitive, TurnDir};
use crate::body::{any_cliff, Pose2Mm};
use crate::now::Now;

verus! {

/// When and how the runtime nudges an idle body.
#[derive(Clone, Copy, Debug, PartialEq, Eq, Structural)]
pub struct NudgePolicy {
    /// Stillness, in milliseconds, after which a nudge is due.
    pub idle_after_ms: u64,
    /// Least time between two nudges.
    pub cooldown_ms: u64,
    /// Nearest obstacle distance, in millimetres, below which no forward nudge is given.
    pub forward_clearance_mm: u32,
    /// Battery level, in thousandths, at or below which the body is not nudged.
    pub critical_battery_permille: u32,
    pub forward_intensity_permille: i32,
    pub turn_intensity_permille: i32,
    pub duration_ms: u64,
}

impl NudgePolicy {
    /// The policy for the simulated robot.
    pub fn virtual_default() -> (r: NudgePolicy)
        ensures
            r == virtual_policy(),
    {
        NudgePolicy {
            idle_after_ms: 3_000,
            cooldown_ms: 10_000,
            forward_clearance_mm: 350,
            critical_battery_permille: 100,
            forward_intensity_permille: 120,
            turn_intensity_permille: 250,
            duration_ms: 500,
        }
    }
}

/// The policy for the simulated robot.
pub open spec fn virtual_policy() -> NudgePolicy {
    NudgePolicy {
        idle_after_ms: 3_000,
        cooldown_ms: 10_000,
        forward_clearance_mm: 350,
        critical_battery_permille: 100,
        forward_intensity_permille: 120,
        turn_intensity_permille: 250,
        duration_ms: 500,
    }
}

/// What the nudge controller remembers.
pub struct NudgeStatus {
    /// Since when the body has been still (none before the first look).
    pub idle_since_ms: Option<u64>,
    /// Pose seen at the last look.
    pub last_pose: Option<Pose2Mm>,
    /// When the last nudge was given.
    pub last_nudge_ms: Option<u64>,
    /// Nudges given so far.
    pub nudges: u64,
    /// Why the last look gave no nudge.
    pub nudge_blocked_reason: Option<String>,
}

/// Gives nudges to an idle body.
pub struct NudgeController {
    pub status: NudgeStatus,
}

impl Default for NudgeController {
    fn default() -> (r: NudgeController)
        ensures
            r.status.idle_since_ms is None,
            r.status.last_pose is None,
            r.status.last_nudge_ms is None,
            r.status.nudges == 0,
            r.status.nudge_blocked_reason is None,
    {
        NudgeController {
            status: NudgeStatus {
                idle_since_ms: None,
                last_pose: None,
                last_nudge_ms: None,
                nudges: 0,
                nudge_blocked_reason: None,
            },
        }
    }
}

/// Whether an action drives the body forward.
pub open spec fn moves_forward(a: ActionPrimitive) -> bool {
    match a {
        ActionPrimitive::Go { intensity_permille, .. } => intensity_permille > 0,
        ActionPrimitive::Drive { forward_permille, .. } => forward_permille > 0,
        ActionPrimitive::Explore { .. } => true,
        ActionPrimitive::Approach { .. } => true,
        _ => false,
    }
}

/// Whether something is closer ahead than forward nudges allow.
pub open spec fn forward_blocked(now: Now, p: NudgePolicy) -> bool {
    match now.range.nearest_mm {
        Some(d) => d < p.forward_clearance_mm,
        None => false,
    }
}

/// Why the body must not be nudged at all right now, if it must not.
pub open spec fn body_block_reason(now: Now, p: NudgePolicy) -> Option<Seq<char>> {
    if now.body.flags.wheel_drop {
        Some("wheel drop detected"@)
    } else if any_cliff(now.body.flags) {
        Some("cliff sensor active"@)
    } else if now.body.battery_permille <= p.critical_battery_permille {
        Some("battery is critical"@)
    } else {
        None
    }
}

/// Why nudging with `a` right now is refused, if it is.
pub open spec fn action_block_reason(now: Now, a: ActionPrimitive, p: NudgePolicy) -> Option<
    Seq<char>,
> {
    match body_block_reason(now, p) {
        Some(r) => Some(r),
        None => if moves_forward(a) && forward_blocked(now, p) {
            Some("forward clearance too small"@)
        } else {
            None
        },
    }
}

/// The side with the longer outermost beam (left when they are equal or unknown).
pub open spec fn open_side(beams: Seq<u32>) -> TurnDir {
    if beams.len() >= 2 && beams.last() > beams[0] {
        TurnDir::Right
    } else {
        TurnDir::Left
    }
}

/// The nudge for this moment: a turn toward open space when something is
/// close ahead, otherwise a short forward creep.
pub open spec fn nudge_for(now: Now, p: NudgePolicy) -> ActionPrimitive {
    if forward_blocked(now, p) {
        ActionPrimitive::Turn {
            direction: open_side(now.range.beams_mm@),
            intensity_permille: p.turn_intensity_permille,
            duration_ms: p.duration_ms,
        }
    } else {
        ActionPrimitive::Go { intensity_permille: p.forward_intensity_permille, duration_ms: p.duration_ms }
    }
}

/// Since when the body has been still, as of `now`.
pub open spec fn still_since(s: NudgeStatus, now: Now) -> u64 {
    match (s.idle_since_ms, s.last_pose) {
        (Some(t), Some(pose)) => if pose == now.body.odometry {
            t
        } else {
            now.t_ms
        },
        _ => now.t_ms,
    }
}

/// Why no nudge is given at `now`, if none is.
pub open spec fn nudge_block_reason(s: NudgeStatus, now: Now, p: NudgePolicy) -> Option<Seq<char>> {
    match body_block_reason(now, p) {
        Some(r) => Some(r),
        None => match s.last_nudge_ms {
            Some(l) if now.t_ms < l + p.cooldown_ms => Some("prod cooldown active"@),
            _ => if now.t_ms < still_since(s, now) + p.idle_after_ms {
                Some("not idle long enough"@)
            } else {
                match action_block_reason(now, nudge_for(now, p), p) {
                    Some(r) => Some(r),
                    None => None,
                }
            },
        },
    }
}

fn body_block_reason_of(now: &Now, p: &NudgePolicy) -> (r: Option<String>)
    ensures
        match body_block_reason(*now, *p) {
            Some(t) => r is Some && r->0@ == t,
            None => r is None,
        },
{
    let f = &now.body.flags;
    if f.wheel_drop {
        Some("wheel drop detected".to_owned())
    } else if f.cliff_left || f.cliff_front_left || f.cliff_front_right || f.cliff_right {
        Some("cliff sensor active".to_owned())
    } else if now.body.battery_permille <= p.critical_battery_permille {
        Some("battery is critical".to_owned())
    } else {
        None
    }
}

fn forward_blocked_of(now: &Now, p: &NudgePolicy) -> (r: bool)
    ensures
        r == forward_blocked(*now, *p),
{
    match now.range.nearest_mm {
        Some(d) => d < p.forward_clearance_mm,
        None => false,
    }
}

/// Why nudging with `action` at `now` under `policy` is refused: a dropped
/// wheel, a cliff, a critical battery, or, for forward motion, too little
/// clearance ahead.
pub fn nudge_action_block_reason(now: &Now, action: &ActionPrimitive, policy: NudgePolicy) -> (r:
    Option<String>)
    ensures
        match action_block_reason(*now, *action, policy) {
            Some(t) => r is Some && r->0@ == t,
            None => r is None,
        },
{
    match body_block_reason_of(now, &policy) {
        Some(r) => Some(r),
        None => {
            let forward = match action {
                ActionPrimitive::Go { intensity_permille, .. } => *intensity_permille > 0,
                ActionPrimitive::Drive { forward_permille, .. } => *forward_permille > 0,
                ActionPrimitive::Explore { .. } => true,
                ActionPrimitive::Approach { .. } => true,
                _ => false,
            };
            if forward && forward_blocked_of(now, &policy) {
                Some("forward clearance too small".to_owned())
            } else {
                None
            }
        },
    }
}

fn nudge_for_of(now: &Now, p: &NudgePolicy) -> (r: ActionPrimitive)
    ensures
        r == nudge_for(*now, *p),
{
    if forward_blocked_of(now, p) {
        let beams = &now.range.beams_mm;
        let n = beams.len();
        let direction = if n >= 2 && beams[n - 1] > beams[0] {
            TurnDir::Right
        } else {
            TurnDir::Left
        };
        ActionPrimitive::Turn {
            direction,
            intensity_permille: p.turn_intensity_permille,
            duration_ms: p.duration_ms,
        }
    } else {
        ActionPrimitive::Go { intensity_permille: p.forward_intensity_permille, duration_ms: p.duration_ms }
    }
}

impl NudgeController {
    /// Looks at the body at `now` and proposes a nudge if it is due: the body
    /// has been still for the idle time, no nudge was given within the
    /// cool-down, and neither the body nor the clearance ahead forbids it.
    /// Otherwise records why not and proposes nothing.
    pub fn propose(&mut self, now: &Now, policy: NudgePolicy) -> (r: Option<ActionPrimitive>)
        ensures
            final(self).status.last_pose == Some(now.body.odometry),
            match nudge_block_reason(old(self).status, *now, policy) {
                Some(t) => {
                    &&& r is None
                    &&& final(self).status.nudge_blocked_reason is Some
                    &&& final(self).status.nudge_blocked_reason->0@ == t
                    &&& final(self).status.idle_since_ms == Some(still_since(old(self).status, *now))
                    &&& final(self).status.last_nudge_ms == old(self).status.last_nudge_ms
                    &&& final(self).status.nudges == old(self).status.nudges
                },
                None => {
                    &&& r == Some(nudge_for(*now, policy))
                    &&& final(self).status.nudge_blocked_reason is None
                    &&& final(self).status.idle_since_ms == Some(now.t_ms)
                    &&& final(self).status.last_nudge_ms == Some(now.t_ms)
                    &&& final(self).status.nudges == (if old(self).status.nudges < u64::MAX {
                        old(self).status.nudges + 1
                    } else {
                        old(self).status.nudges as int
                    })
                },
            },
    {
        let still: u64 = match (self.status.idle_since_ms, self.status.last_pose) {
            (Some(t), Some(pose)) => if pose == now.body.odometry {
                t
            } else {
                now.t_ms
            },
            _ => now.t_ms,
        };
        self.status.idle_since_ms = Some(still);
        self.status.last_pose = Some(now.body.odometry);
        let blocked: Option<String> = match body_block_reason_of(now, &policy) {
            Some(r) => Some(r),
            None => {
                let cooling = match self.status.last_nudge_ms {
                    Some(l) => (now.t_ms as u128) < (l as u128) + (policy.cooldown_ms as u128),
                    None => false,
                };
                if cooling {
                    Some("prod cooldown active".to_owned())
                } else if (now.t_ms as u128) < (still as u128) + (policy.idle_after_ms as u128) {
                    Some("not idle long enough".to_owned())
                } else {
                    let action = nudge_for_of(now, &policy);
                    nudge_action_block_reason(now, &action, policy)
                }
            },
        };
        match blocked {
            Some(reason) => {
                self.status.nudge_blocked_reason = Some(reason);
                None
            },
            None => {
                let action = nudge_for_of(now, &policy);
                self.status.nudge_blocked_reason = None;
                self.status.idle_since_ms = Some(now.t_ms);
                self.status.last_nudge_ms = Some(now.t_ms);
                if self.status.nudges < u64::MAX {
                    self.status.nudges = self.status.nudges + 1;
                }
                Some(action)
            },
        }
    }
}

/// A nudge is never given to a body with a dropped wheel, an active cliff
/// sensor or a critical battery, never moves it forward without clearance,
/// and never comes within the cool-down of the previous one.
pub proof fn lemma_nudges_are_safe_and_spaced(s: NudgeStatus, now: Now, p: NudgePolicy)
    requires
        nudge_block_reason(s, now, p) is None,
    ensures
        body_block_reason(now, p) is None,
        !now.body.flags.wheel_drop,
        !any_cliff(now.body.flags),
        now.body.battery_permille > p.critical_battery_permille,
        moves_forward(nudge_for(now, p)) ==> !forward_blocked(now, p),
        match s.last_nudge_ms {
            Some(l) => now.t_ms >= l + p.cooldown_ms,
            None => true,
        },
        now.t_ms >= still_since(s, now) + p.idle_after_ms,
{
}

/// When something is close ahead the nudge is a turn, toward the side whose
/// outermost beam is longer: right only when the rightmost beam is longer than
/// the leftmost, left when the leftmost is at least as long (or the beams are
/// fewer than two). With the way ahead clear, the nudge creeps forward.
pub proof fn lemma_blocked_nudge_turns_toward_open_side(now: Now, p: NudgePolicy)
    ensures
        (now.range.nearest_mm matches Some(d) && d < p.forward_clearance_mm) ==> {
            let beams = now.range.beams_mm@;
            &&& nudge_for(now, p) is Turn
            &&& (beams.len() >= 2 && beams[beams.len() - 1] > beams[0]) ==> nudge_for(
                now,
                p,
            )->Turn_direction == TurnDir::Right
            &&& (beams.len() >= 2 && beams[0] >= beams[beams.len() - 1]) ==> nudge_for(
                now,
                p,
            )->Turn_direction == TurnDir::Left
            &&& beams.len() < 2 ==> nudge_for(now, p)->Turn_direction == TurnDir::Left
        },
        !(now.range.nearest_mm matches Some(d) && d < p.forward_clearance_mm) ==> nudge_for(
            now,
            p,
        ) == (ActionPrimitive::Go {
            intensity_permille: p.forward_intensity_permille,
            duration_ms: p.duration_ms,
        }),
{
}

} // verus!
