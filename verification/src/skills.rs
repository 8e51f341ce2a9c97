//! Verifying that the robot charges: only fresh Create Open Interface
//! charging telemetry counts; body flags and dock contacts do not.

use vstd::prelude::*;
use crate::body::wrapped_age;
use crate::json_fields::{json_nested_u64, json_top_u64};
use crate::status::{is_json_status, narrow_u32, opt_u64, u32_field, StatusSummary};
use crate::text_fields::field_unsigned;

verus! {

/// Oldest Create packet, in milliseconds, that still counts as fresh telemetry.
pub const VERIFY_CHARGING_MAX_PACKET_AGE_MS: u64 = 500;

/// How long verification waits for fresh charging telemetry before failing.
pub const VERIFY_CHARGING_TIMEOUT_MS: u64 = 1_000;

#[derive(Clone, Copy, Debug, PartialEq, Eq, Structural)]
pub enum SkillOutcome {
    Succeeded,
    PostconditionFailed,
}

/// Why a skill operation failed.
#[derive(Debug, PartialEq, Eq)]
pub struct SkillFailure {
    pub outcome: SkillOutcome,
    pub reason: String,
}

/// The evidence that confirmed charging.
#[derive(Debug, PartialEq, Eq)]
pub struct VerifyChargingResult {
    pub charging: bool,
    pub source: String,
    pub charging_state: u32,
    pub body_packet_age_ms: u64,
}

/// The state of a polled skill operation.
#[derive(Debug, PartialEq, Eq)]
pub enum OrganPoll {
    Pending,
    Completed(VerifyChargingResult),
    Failed(SkillFailure),
}

/// The verdict on charging from the fields that matter.
#[derive(Clone, Copy, Debug, PartialEq, Eq, Structural)]
pub enum ChargingVerdict {
    Verified { charging_state: u32, packet_age_ms: u64 },
    Waiting,
    Failed,
}

/// Age of the newest complete Create packet when the status reports at least
/// one such packet, stamped no later than the status itself.
pub open spec fn fresh_packet_age(uptime: Option<u32>, packets: Option<u64>, stamp: Option<u32>) -> Option<nat> {
    match (uptime, packets, stamp) {
        (Some(u), Some(n), Some(t)) => if n > 0 && wrapped_age(u, t)
            <= VERIFY_CHARGING_MAX_PACKET_AGE_MS {
            Some(wrapped_age(u, t))
        } else {
            None
        },
        _ => None,
    }
}

/// Charging is verified by fresh telemetry whose charging state is
/// reconditioning, full or trickle charging; otherwise verification waits
/// until the timeout and then fails.
pub open spec fn charging_verdict(
    uptime: Option<u32>,
    packets: Option<u64>,
    stamp: Option<u32>,
    state: Option<u32>,
    elapsed_ms: u64,
) -> ChargingVerdict {
    match (fresh_packet_age(uptime, packets, stamp), state) {
        (Some(age), Some(st)) if 1 <= st <= 3 => ChargingVerdict::Verified {
            charging_state: st,
            packet_age_ms: age as u64,
        },
        _ => if elapsed_ms < VERIFY_CHARGING_TIMEOUT_MS {
            ChargingVerdict::Waiting
        } else {
            ChargingVerdict::Failed
        },
    }
}

pub open spec fn status_verdict(s: StatusSummary, elapsed_ms: u64) -> ChargingVerdict {
    charging_verdict(
        s.uptime_ms,
        s.create.complete_packet_count,
        s.create.last_complete_packet_timestamp_ms,
        s.create.charging_state,
        elapsed_ms,
    )
}

/// Whether a poll result reports `v`.
pub open spec fn poll_reports(r: OrganPoll, v: ChargingVerdict) -> bool {
    match v {
        ChargingVerdict::Verified { charging_state, packet_age_ms } => match r {
            OrganPoll::Completed(res) => {
                &&& res.charging
                &&& res.source@ == "create_oi"@
                &&& res.charging_state == charging_state
                &&& res.body_packet_age_ms == packet_age_ms
            },
            _ => false,
        },
        ChargingVerdict::Waiting => r == OrganPoll::Pending,
        ChargingVerdict::Failed => match r {
            OrganPoll::Failed(f) => {
                &&& f.outcome == SkillOutcome::PostconditionFailed
                &&& f.reason@ == "no fresh Create OI charging telemetry confirms charging"@
            },
            _ => false,
        },
    }
}

/// Polls the verify-charging operation `elapsed_ms` after it started, against
/// the latest cockpit status.
pub fn verify_charging_poll(status: &StatusSummary, elapsed_ms: u64) -> (r: OrganPoll)
    ensures
        poll_reports(r, status_verdict(*status, elapsed_ms)),
{
    let fresh: Option<u64> = match (
        status.uptime_ms,
        status.create.complete_packet_count,
        status.create.last_complete_packet_timestamp_ms,
    ) {
        (Some(u), Some(n), Some(t)) => {
            let age: u64 = if t <= u {
                (u - t) as u64
            } else {
                (u as u64 + 0x1_0000_0000u64) - t as u64
            };
            if n > 0 && age <= VERIFY_CHARGING_MAX_PACKET_AGE_MS {
                Some(age)
            } else {
                None
            }
        },
        _ => None,
    };
    match (fresh, status.create.charging_state) {
        (Some(age), Some(st)) => {
            if 1 <= st && st <= 3 {
                return OrganPoll::Completed(
                    VerifyChargingResult {
                        charging: true,
                        source: String::from_str("create_oi"),
                        charging_state: st,
                        body_packet_age_ms: age,
                    },
                );
            }
        },
        _ => {},
    }
    if elapsed_ms < VERIFY_CHARGING_TIMEOUT_MS {
        OrganPoll::Pending
    } else {
        OrganPoll::Failed(
            SkillFailure {
                outcome: SkillOutcome::PostconditionFailed,
                reason: String::from_str("no fresh Create OI charging telemetry confirms charging"),
            },
        )
    }
}

/// The charging telemetry a raw cockpit status carries, field by field from
/// the status text: device uptime, complete Create packets, the newest
/// packet's time stamp and the Create charging state (status lines carry none).
pub open spec fn raw_charging_fields(raw: Seq<char>) -> (Option<u32>, Option<u64>, Option<u32>, Option<u32>) {
    if is_json_status(raw) {
        (
            narrow_u32(json_top_u64(raw, "uptime_ms"@)),
            json_nested_u64(raw, "create_sensors"@, "complete_packet_count"@),
            narrow_u32(json_nested_u64(raw, "create_sensors"@, "last_complete_packet_timestamp_ms"@)),
            narrow_u32(json_nested_u64(raw, "create_sensors"@, "charging_state"@)),
        )
    } else {
        (
            u32_field(raw, "uptime_ms"@),
            opt_u64(field_unsigned(raw, "create_body_packets"@, u64::MAX as nat)),
            u32_field(raw, "create_last_body_packet_ms"@),
            None,
        )
    }
}

/// The verdict a raw cockpit status gives.
pub open spec fn raw_status_verdict(raw: Seq<char>, elapsed_ms: u64) -> ChargingVerdict {
    let (u, n, t, st) = raw_charging_fields(raw);
    charging_verdict(u, n, t, st, elapsed_ms)
}

/// Polls verify-charging against the raw cockpit status `status_raw`. The
/// body's own charging flag and a home-base contact are not charging
/// telemetry: the verdict does not depend on them.
pub fn poll_verify_charging(status_raw: &str, body_charging: bool, home_base_contact: bool, elapsed_ms: u64) -> (r: OrganPoll)
    ensures
        poll_reports(r, raw_status_verdict(status_raw@, elapsed_ms)),
{
    let status = StatusSummary::from_raw(status_raw);
    verify_charging_poll(&status, elapsed_ms)
}

/// Charging is confirmed only by fresh telemetry with a charging state of
/// reconditioning, full or trickle charging; waiting or fault states never confirm it.
pub proof fn lemma_only_fresh_charging_states_verify(
    uptime: Option<u32>,
    packets: Option<u64>,
    stamp: Option<u32>,
    state: Option<u32>,
    elapsed_ms: u64,
)
    ensures
        charging_verdict(uptime, packets, stamp, state, elapsed_ms) is Verified ==> {
            &&& fresh_packet_age(uptime, packets, stamp) is Some
            &&& state matches Some(st) && 1 <= st <= 3
        },
        state matches Some(st) && (st == 0 || st >= 4) ==> !(charging_verdict(
            uptime,
            packets,
            stamp,
            state,
            elapsed_ms,
        ) is Verified),
        fresh_packet_age(uptime, packets, stamp) is None && elapsed_ms >= VERIFY_CHARGING_TIMEOUT_MS
            ==> charging_verdict(uptime, packets, stamp, state, elapsed_ms) == ChargingVerdict::Failed,
{
}

/// Telemetry that is not fresh active charging (a charging state of not
/// charging, waiting or fault, a stale or missing packet, or no charging state)
/// never verifies charging, whatever the body flags or dock contact say, and
/// fails the operation once the timeout has passed.
pub proof fn lemma_stale_or_inactive_charging_fails(raw: Seq<char>, elapsed_ms: u64, r: OrganPoll)
    requires
        poll_reports(r, raw_status_verdict(raw, elapsed_ms)),
        ({
            let (u, n, t, st) = raw_charging_fields(raw);
            ||| fresh_packet_age(u, n, t) is None
            ||| st is None
            ||| (st matches Some(x) && (x == 0 || x >= 4))
        }),
    ensures
        !(r is Completed),
        elapsed_ms >= VERIFY_CHARGING_TIMEOUT_MS ==> (r matches OrganPoll::Failed(f)
            && f.outcome == SkillOutcome::PostconditionFailed),
        elapsed_ms < VERIFY_CHARGING_TIMEOUT_MS ==> r is Pending,
{
}

} // verus!
