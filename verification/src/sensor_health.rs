//! Health bookkeeping of optional sensors: failures are counted every poll
//! and reported at most once per reporting interval.

use vstd::prelude::*;

verus! {

/// Milliseconds between two reports of the same failing sensor.
pub const SENSOR_FAILURE_REPORT_INTERVAL_MS: u64 = 30_000;

/// Poll health of one optional sensor.
pub struct SensorPollHealth {
    pub name: String,
    pub available: bool,
    /// Optional sensors never stand in for body evidence.
    pub body_evidence_independent: bool,
    pub consecutive_failures: u64,
    pub last_error: Option<String>,
    /// Host time of the last failure report (0 before any).
    pub last_report_ms: u64,
}

impl Default for SensorPollHealth {
    fn default() -> (r: SensorPollHealth)
        ensures
            r.name@ == Seq::<char>::empty(),
            !r.available,
            r.body_evidence_independent,
            r.consecutive_failures == 0,
            r.last_error is None,
            r.last_report_ms == 0,
    {
        SensorPollHealth {
            name: String::new(),
            available: false,
            body_evidence_independent: true,
            consecutive_failures: 0,
            last_error: None,
            last_report_ms: 0,
        }
    }
}

/// Whether a failure at `now_ms` is reported: the first failure of a streak
/// always is, later ones once a full interval has passed since the last report.
pub open spec fn failure_is_reported(consecutive_failures: u64, last_report_ms: u64, now_ms: u64) -> bool {
    consecutive_failures == 0 || now_ms >= last_report_ms + SENSOR_FAILURE_REPORT_INTERVAL_MS
}

/// Records a failed poll of an optional sensor at host time `now_ms`; returns
/// whether this failure should be reported.
pub fn record_optional_sensor_failure(health: &mut SensorPollHealth, error: String, now_ms: u64) -> (reported: bool)
    ensures
        reported == failure_is_reported(
            old(health).consecutive_failures,
            old(health).last_report_ms,
            now_ms,
        ),
        final(health).last_report_ms == (if reported {
            now_ms
        } else {
            old(health).last_report_ms
        }),
        final(health).consecutive_failures == (if old(health).consecutive_failures < u64::MAX {
            (old(health).consecutive_failures + 1) as u64
        } else {
            u64::MAX
        }),
        !final(health).available,
        final(health).last_error is Some,
        final(health).last_error->0@ == error@,
        final(health).name@ == old(health).name@,
        final(health).body_evidence_independent == old(health).body_evidence_independent,
{
    let reported = health.consecutive_failures == 0 || (health.last_report_ms
        <= u64::MAX - SENSOR_FAILURE_REPORT_INTERVAL_MS && now_ms >= health.last_report_ms
        + SENSOR_FAILURE_REPORT_INTERVAL_MS);
    if reported {
        health.last_report_ms = now_ms;
    }
    if health.consecutive_failures < u64::MAX {
        health.consecutive_failures = health.consecutive_failures + 1;
    }
    health.available = false;
    health.last_error = Some(error);
    reported
}

/// Records a successful poll: the sensor is available and its failure streak ends.
pub fn record_optional_sensor_success(health: &mut SensorPollHealth)
    ensures
        final(health).available,
        final(health).consecutive_failures == 0,
        final(health).last_error is None,
        final(health).last_report_ms == old(health).last_report_ms,
        final(health).name@ == old(health).name@,
        final(health).body_evidence_independent == old(health).body_evidence_independent,
{
    health.available = true;
    health.consecutive_failures = 0;
    health.last_error = None;
}

/// Within one failure streak, two reports are at least a full interval apart.
pub proof fn lemma_reports_are_spaced(failures: u64, last_report_ms: u64, now_ms: u64)
    requires
        failures > 0,
        failure_is_reported(failures, last_report_ms, now_ms),
    ensures
        now_ms - last_report_ms >= SENSOR_FAILURE_REPORT_INTERVAL_MS,
{
}

/// The first failure of a streak is always reported; within a streak, a
/// failure less than the report interval after the last report never is.
pub proof fn lemma_first_failure_is_reported(failures: u64, last_report_ms: u64, now_ms: u64)
    ensures
        failures == 0 ==> failure_is_reported(failures, last_report_ms, now_ms),
        failures > 0 && now_ms < last_report_ms + 30_000 ==> !failure_is_reported(
            failures,
            last_report_ms,
            now_ms,
        ),
{
}

} // verus!
