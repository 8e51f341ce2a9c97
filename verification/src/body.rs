//! The body sense derived from a cockpit status, and the body conditions that
//! block slow real-robot motion.

use vstd::prelude::*;
use crate::status::StatusSummary;

verus! {

/// Contact and drop sensors of the Create base.
#[derive(Clone, Copy, Debug, PartialEq, Eq, Structural)]
pub struct BodyFlags {
    pub bump_left: bool,
    pub bump_right: bool,
    pub cliff_left: bool,
    pub cliff_front_left: bool,
    pub cliff_front_right: bool,
    pub cliff_right: bool,
    pub wheel_drop: bool,
}

/// Analog cliff risk of each cliff sensor, in thousandths (high means the
/// floor may fall away), whether or not the sensor's own flag fired.
#[derive(Clone, Copy, Debug, PartialEq, Eq, Structural)]
pub struct CliffLevels {
    pub left: u32,
    pub front_left: u32,
    pub front_right: u32,
    pub right: u32,
}

/// Planar odometry pose in millimetres and milliradians.
#[derive(Clone, Copy, Debug, PartialEq, Eq, Structural)]
pub struct Pose2Mm {
    pub x_mm: i64,
    pub y_mm: i64,
    pub heading_mrad: i64,
}

/// What the robot knows of its own body.
#[derive(Clone, Copy, Debug, PartialEq, Eq, Structural)]
pub struct BodySense {
    /// Host time, in milliseconds, of the newest complete body evidence (0 when none).
    pub last_update_ms: u64,
    /// Battery charge in thousandths of capacity.
    pub battery_permille: u32,
    pub charging: bool,
    /// Whether the base reports contact with its home base.
    pub home_base_contact: bool,
    pub flags: BodyFlags,
    pub cliff_sensors: CliffLevels,
    pub infrared_character: u32,
    pub odometry: Pose2Mm,
}

/// Body packets whose age reaches this many milliseconds were stamped in the future.
pub const FUTURE_AGE_MS: u64 = 0x8000_0000;

/// Full battery, in thousandths.
pub const FULL_BATTERY_PERMILLE: u32 = 1000;

impl Default for BodyFlags {
    fn default() -> (r: BodyFlags)
        ensures
            r == no_flags(),
    {
        BodyFlags {
            bump_left: false,
            bump_right: false,
            cliff_left: false,
            cliff_front_left: false,
            cliff_front_right: false,
            cliff_right: false,
            wheel_drop: false,
        }
    }
}

impl Default for Pose2Mm {
    fn default() -> (r: Pose2Mm)
        ensures
            r == origin_pose(),
    {
        Pose2Mm { x_mm: 0, y_mm: 0, heading_mrad: 0 }
    }
}

impl Default for BodySense {
    fn default() -> (r: BodySense)
        ensures
            r == default_body(),
    {
        BodySense {
            last_update_ms: 0,
            battery_permille: FULL_BATTERY_PERMILLE,
            charging: false,
            home_base_contact: false,
            flags: BodyFlags::default(),
            cliff_sensors: CliffLevels { left: 0, front_left: 0, front_right: 0, right: 0 },
            infrared_character: 0,
            odometry: Pose2Mm::default(),
        }
    }
}

pub open spec fn no_flags() -> BodyFlags {
    BodyFlags {
        bump_left: false,
        bump_right: false,
        cliff_left: false,
        cliff_front_left: false,
        cliff_front_right: false,
        cliff_right: false,
        wheel_drop: false,
    }
}

pub open spec fn no_cliff_levels() -> CliffLevels {
    CliffLevels { left: 0, front_left: 0, front_right: 0, right: 0 }
}

pub open spec fn origin_pose() -> Pose2Mm {
    Pose2Mm { x_mm: 0, y_mm: 0, heading_mrad: 0 }
}

/// The body before any evidence: full battery, not charging, no contacts.
pub open spec fn default_body() -> BodySense {
    BodySense {
        last_update_ms: 0,
        battery_permille: 1000,
        charging: false,
        home_base_contact: false,
        flags: no_flags(),
        cliff_sensors: no_cliff_levels(),
        infrared_character: 0,
        odometry: origin_pose(),
    }
}

/// Milliseconds from device time `t` to device time `uptime` on the 32-bit device clock.
pub open spec fn wrapped_age(uptime: u32, t: u32) -> nat {
    if t <= uptime {
        (uptime - t) as nat
    } else {
        (uptime + 0x1_0000_0000 - t) as nat
    }
}

/// Whether the Create charging state says the battery is taking charge
/// (reconditioning, full or trickle charging).
pub open spec fn charging_state_charges(state: u32) -> bool {
    1 <= state <= 3
}

/// Whether the Create charging sources include the home base.
pub open spec fn sources_include_home_base(sources: u32) -> bool {
    (sources / 2) % 2 == 1
}

pub open spec fn on_home_base(status: StatusSummary) -> bool {
    match status.create.charging_sources {
        Some(s) => sources_include_home_base(s),
        None => false,
    }
}

/// Host time of the newest complete Create packet, given the host time the status arrived.
pub open spec fn body_update_time(status: StatusSummary, received_ms: u64) -> u64 {
    match status.create.complete_packet_count {
        Some(n) => if n == 0 {
            0
        } else {
            match (status.uptime_ms, status.create.last_complete_packet_timestamp_ms) {
                (Some(u), Some(t)) => {
                    let age = wrapped_age(u, t);
                    if age >= FUTURE_AGE_MS || age > received_ms {
                        0
                    } else {
                        (received_ms - age) as u64
                    }
                },
                _ => received_ms,
            }
        },
        None => received_ms,
    }
}

/// Battery level in thousandths, from the reported charge and capacity.
pub open spec fn battery_level(status: StatusSummary) -> u32 {
    match (status.create.charge_mah, status.create.capacity_mah) {
        (Some(c), Some(cap)) => if cap == 0 {
            1000
        } else if c >= cap {
            1000
        } else {
            ((c * 1000) / (cap as int)) as u32
        },
        _ => 1000,
    }
}

pub open spec fn charging_reported(status: StatusSummary) -> bool {
    ||| (match status.create.charging_indicator {
        Some(s) => s@ == "on"@,
        None => false,
    })
    ||| (match status.create.charging_state {
        Some(st) => charging_state_charges(st),
        None => false,
    })
}

pub open spec fn flag(o: Option<bool>) -> bool {
    match o {
        Some(b) => b,
        None => false,
    }
}

/// Contact flags of a status; bump and cliff contacts read while docked on the
/// home base are the dock's own contacts and are not collision evidence.
pub open spec fn status_flags(status: StatusSummary) -> BodyFlags {
    let docked = on_home_base(status);
    BodyFlags {
        bump_left: !docked && flag(status.create.bump_left),
        bump_right: !docked && flag(status.create.bump_right),
        cliff_left: !docked && flag(status.create.cliff_left),
        cliff_front_left: !docked && flag(status.create.cliff_front_left),
        cliff_front_right: !docked && flag(status.create.cliff_front_right),
        cliff_right: !docked && flag(status.create.cliff_right),
        wheel_drop: flag(status.create.wheel_drop),
    }
}

pub open spec fn or_zero(o: Option<i32>) -> i64 {
    match o {
        Some(v) => v as i64,
        None => 0,
    }
}

/// The pose a status reports. A board that reports only a cumulative distance
/// gives no position: a stateless reading cannot recover the path behind it.
pub open spec fn status_pose(status: StatusSummary) -> Pose2Mm {
    Pose2Mm {
        x_mm: or_zero(status.odometry_x_mm),
        y_mm: or_zero(status.odometry_y_mm),
        heading_mrad: or_zero(status.odometry_heading_mrad),
    }
}

/// The body sense a status describes, received at host time `received_ms`
/// (a status carries no analog cliff levels: they read zero).
pub open spec fn status_body(status: StatusSummary, received_ms: u64) -> BodySense {
    BodySense {
        last_update_ms: body_update_time(status, received_ms),
        battery_permille: battery_level(status),
        charging: charging_reported(status),
        home_base_contact: on_home_base(status),
        flags: status_flags(status),
        cliff_sensors: no_cliff_levels(),
        infrared_character: match status.create.ir_byte {
            Some(b) => b,
            None => 0,
        },
        odometry: status_pose(status),
    }
}

fn opt_flag(o: Option<bool>) -> (r: bool)
    ensures
        r == flag(o),
{
    match o {
        Some(b) => b,
        None => false,
    }
}

/// Host time of the newest complete Create packet.
pub fn body_update_time_of(status: &StatusSummary, received_ms: u64) -> (r: u64)
    ensures
        r == body_update_time(*status, received_ms),
        r <= received_ms,
{
    match status.create.complete_packet_count {
        Some(n) => if n == 0 {
            0
        } else {
            match (status.uptime_ms, status.create.last_complete_packet_timestamp_ms) {
                (Some(u), Some(t)) => {
                    let age: u64 = if t <= u {
                        (u - t) as u64
                    } else {
                        (u as u64 + 0x1_0000_0000u64) - t as u64
                    };
                    if age >= FUTURE_AGE_MS || age > received_ms {
                        0
                    } else {
                        received_ms - age
                    }
                },
                _ => received_ms,
            }
        },
        None => received_ms,
    }
}

fn battery_level_of(status: &StatusSummary) -> (r: u32)
    ensures
        r == battery_level(*status),
        r <= 1000,
{
    match (status.create.charge_mah, status.create.capacity_mah) {
        (Some(c), Some(cap)) => if cap == 0 {
            1000
        } else if c >= cap {
            1000
        } else {
            let num: u64 = c as u64 * 1000;
            let v: u64 = num / cap as u64;
            assert(v <= 1000) by (nonlinear_arith)
                requires
                    c < cap,
                    num == c * 1000,
                    v as int == (num as int) / (cap as int),
                    cap > 0,
            ;
            v as u32
        },
        _ => 1000,
    }
}

fn charging_of(status: &StatusSummary) -> (r: bool)
    ensures
        r == charging_reported(*status),
{
    let indicator_on = match &status.create.charging_indicator {
        Some(s) => {
            let on = String::from_str("on");
            *s == on
        },
        None => false,
    };
    let state_charges = match status.create.charging_state {
        Some(st) => 1 <= st && st <= 3,
        None => false,
    };
    indicator_on || state_charges
}

/// The body sense described by a cockpit status received at host time `received_ms`.
pub fn body_sense_from_cockpit_status(status: StatusSummary, received_ms: u64) -> (r: BodySense)
    ensures
        r == status_body(status, received_ms),
{
    body_sense_of(&status, received_ms)
}

/// The body sense described by a borrowed cockpit status received at host time `received_ms`.
pub fn body_sense_of(status: &StatusSummary, received_ms: u64) -> (r: BodySense)
    ensures
        r == status_body(*status, received_ms),
{
    let docked = match status.create.charging_sources {
        Some(s) => (s / 2) % 2 == 1,
        None => false,
    };
    let flags = BodyFlags {
        bump_left: !docked && opt_flag(status.create.bump_left),
        bump_right: !docked && opt_flag(status.create.bump_right),
        cliff_left: !docked && opt_flag(status.create.cliff_left),
        cliff_front_left: !docked && opt_flag(status.create.cliff_front_left),
        cliff_front_right: !docked && opt_flag(status.create.cliff_front_right),
        cliff_right: !docked && opt_flag(status.create.cliff_right),
        wheel_drop: opt_flag(status.create.wheel_drop),
    };
    BodySense {
        last_update_ms: body_update_time_of(status, received_ms),
        battery_permille: battery_level_of(status),
        charging: charging_of(status),
        home_base_contact: docked,
        flags,
        cliff_sensors: CliffLevels { left: 0, front_left: 0, front_right: 0, right: 0 },
        infrared_character: match status.create.ir_byte {
            Some(b) => b,
            None => 0,
        },
        odometry: Pose2Mm {
            x_mm: match status.odometry_x_mm {
                Some(v) => v as i64,
                None => 0,
            },
            y_mm: match status.odometry_y_mm {
                Some(v) => v as i64,
                None => 0,
            },
            heading_mrad: match status.odometry_heading_mrad {
                Some(v) => v as i64,
                None => 0,
            },
        },
    }
}

pub open spec fn any_cliff(flags: BodyFlags) -> bool {
    flags.cliff_left || flags.cliff_front_left || flags.cliff_front_right || flags.cliff_right
}

/// Why slow real-robot motion is blocked for this body, if it is.
pub open spec fn slow_block_reason(body: BodySense) -> Option<Seq<char>> {
    if any_cliff(body.flags) {
        Some("cliff sensor active"@)
    } else if body.flags.wheel_drop {
        Some("wheel drop detected"@)
    } else if body.charging {
        Some("charging active"@)
    } else {
        None
    }
}

/// Why slow real-robot motion must not start with this body: an active cliff
/// sensor, a dropped wheel, or charging in progress (checked in that order).
pub fn real_slow_body_block_reason(body: &BodySense) -> (r: Option<String>)
    ensures
        match slow_block_reason(*body) {
            Some(t) => r is Some && r->0@ == t,
            None => r is None,
        },
{
    if body.flags.cliff_left || body.flags.cliff_front_left || body.flags.cliff_front_right
        || body.flags.cliff_right {
        Some(String::from_str("cliff sensor active"))
    } else if body.flags.wheel_drop {
        Some(String::from_str("wheel drop detected"))
    } else if body.charging {
        Some(String::from_str("charging active"))
    } else {
        None
    }
}

/// Docked contacts are never collision evidence, and a dropped wheel is never hidden.
pub proof fn lemma_home_base_contacts_are_not_collisions(status: StatusSummary, received_ms: u64)
    requires
        on_home_base(status),
    ensures
        !any_cliff(status_body(status, received_ms).flags),
        !status_body(status, received_ms).flags.bump_left,
        !status_body(status, received_ms).flags.bump_right,
        status_body(status, received_ms).flags.wheel_drop == flag(status.create.wheel_drop),
{
}

/// A status whose Create packets are all incomplete never refreshes the body time.
pub proof fn lemma_incomplete_packets_never_refresh(status: StatusSummary, received_ms: u64)
    requires
        status.create.complete_packet_count == Some(0u64),
    ensures
        status_body(status, received_ms).last_update_ms == 0,
{
}

/// A Create charging state of reconditioning (1), full (2) or trickle (3)
/// charging makes the body charging, and so does a charging indicator reading
/// "on"; with neither (state absent, not charging, waiting or fault) the body
/// is not charging.
pub proof fn lemma_charging_states_make_the_body_charge(status: StatusSummary, received_ms: u64)
    ensures
        (status.create.charging_state matches Some(st) && 1 <= st <= 3) ==> status_body(
            status,
            received_ms,
        ).charging,
        (status.create.charging_indicator matches Some(t) && t@ == "on"@) ==> status_body(
            status,
            received_ms,
        ).charging,
        (status.create.charging_state matches Some(st) && (st == 0 || st >= 4))
            && status.create.charging_indicator is None ==> !status_body(
            status,
            received_ms,
        ).charging,
        status.create.charging_state is None && status.create.charging_indicator is None
            ==> !status_body(status, received_ms).charging,
{
}

/// The battery level is the reported charge as a fraction of the reported
/// capacity, rounded down, and full when the charge reaches the capacity or
/// either is unknown: it never exceeds full, and more charge at the same
/// capacity never reads lower.
pub proof fn lemma_battery_is_the_charged_fraction(s1: StatusSummary, s2: StatusSummary)
    ensures
        battery_level(s1) <= 1000,
        (s1.create.charge_mah matches Some(c) && s1.create.capacity_mah matches Some(cap) && 0 < c
            < cap) ==> battery_level(s1) * s1.create.capacity_mah->0 <= s1.create.charge_mah->0
            * 1000 < (battery_level(s1) + 1) * s1.create.capacity_mah->0,
        (s1.create.charge_mah is None || s1.create.capacity_mah is None) ==> battery_level(s1)
            == 1000,
        (s1.create.capacity_mah == s2.create.capacity_mah && s1.create.charge_mah is Some
            && s2.create.charge_mah is Some && s1.create.charge_mah->0 <= s2.create.charge_mah->0)
            ==> battery_level(s1) <= battery_level(s2),
{
    if let (Some(c), Some(cap)) = (s1.create.charge_mah, s1.create.capacity_mah) {
        if 0 < c && c < cap {
            let q = (c * 1000) / (cap as int);
            assert(q * cap <= c * 1000 < (q + 1) * cap) by (nonlinear_arith)
                requires
                    cap > 0,
                    q == (c * 1000) / (cap as int),
                    c >= 0,
            ;
            assert(q < 1000) by (nonlinear_arith)
                requires
                    cap > 0,
                    q == (c * 1000) / (cap as int),
                    0 < c < cap,
            ;
        }
    }
    if s1.create.capacity_mah == s2.create.capacity_mah {
        if let (Some(c1), Some(c2), Some(cap)) = (
            s1.create.charge_mah,
            s2.create.charge_mah,
            s1.create.capacity_mah,
        ) {
            if c1 <= c2 && cap > 0 && c1 < cap {
                let q1 = (c1 * 1000) / (cap as int);
                assert(0 <= q1 <= 1000) by (nonlinear_arith)
                    requires
                        cap > 0,
                        0 <= c1 < cap,
                        q1 == (c1 * 1000) / (cap as int),
                ;
                assert(battery_level(s1) == q1);
                if c2 < cap {
                    let q2 = (c2 * 1000) / (cap as int);
                    assert(q1 <= q2 <= 1000) by (nonlinear_arith)
                        requires
                            cap > 0,
                            0 <= c1 <= c2 < cap,
                            q1 == (c1 * 1000) / (cap as int),
                            q2 == (c2 * 1000) / (cap as int),
                    ;
                    assert(battery_level(s2) == q2);
                }
            }
        }
    }
    if let (Some(c), Some(cap)) = (s1.create.charge_mah, s1.create.capacity_mah) {
        if cap > 0 && c < cap {
            assert((c * 1000) / (cap as int) <= 1000) by (nonlinear_arith)
                requires
                    cap > 0,
                    0 <= c < cap,
            ;
        }
    }
}

} // verus!
