//! Mapping brainstem status samples onto the host clock: device clock wraps,
//! reboots and reconnects, out-of-order replies, and the trust placed in each
//! inertial sample.

use vstd::prelude::*;
use crate::body::{body_sense_of, or_zero, status_body, wrapped_age, BodySense, Pose2Mm};
use crate::status::{CreateSensors, ImuStatus, StatusSummary};

verus! {

/// Slack, in milliseconds, between device-clock progress and host-clock
/// progress before the device clock is taken to have restarted.
pub const CLOCK_SLACK_MS: u64 = 1_000;

/// Device ages at or beyond this many milliseconds mean a sample stamped in the future.
pub const FUTURE_SAMPLE_AGE_MS: u64 = 0x8000_0000;

/// Largest clock confidence, in thousandths.
pub const FULL_CONFIDENCE_PERMILLE: u32 = 1000;

/// Clock confidence of a sample timed only by its reported age.
pub const AGE_FALLBACK_CONFIDENCE_PERMILLE: u32 = 250;

/// When the host asked for a status and when the reply arrived, in host milliseconds.
#[derive(Clone, Copy, Debug, PartialEq, Eq, Structural)]
pub struct StatusRequestTiming {
    pub host_request_started_ms: u64,
    pub host_response_received_ms: u64,
}

/// What is remembered of the brainstem clock between statuses.
#[derive(Clone, Copy, Debug, PartialEq, Eq, Structural)]
pub struct BrainstemClockMapper {
    /// Device uptime of the last accepted status, if it carried one.
    pub last_uptime_ms: Option<u32>,
    /// Host midpoint of the request that carried `last_uptime_ms`.
    pub last_host_mid_ms: u64,
    /// Host time at which the last accepted status arrived.
    pub last_received_ms: Option<u64>,
    /// Last clock epoch the brainstem itself reported.
    pub last_status_epoch: Option<u32>,
    /// Number of device clock restarts (reboots or reconnects) seen so far.
    pub epoch: u64,
    /// Whether the link was re-established since the last accepted status.
    pub reconnect_pending: bool,
}

/// Follows the cumulative distance reported by boards that have no pose
/// estimate, so that each status yields the distance travelled since the last.
#[derive(Clone, Copy, Debug, PartialEq, Eq, Structural)]
pub struct PhysicalPoseAdapter {
    pub last_distance_mm: Option<i32>,
    pub last_resets: Option<u32>,
}

/// What a status says about the robot's pose.
#[derive(Clone, Copy, Debug, PartialEq, Eq, Structural)]
pub enum PoseUpdate {
    /// The board reports its pose estimate.
    Reported(Pose2Mm),
    /// The board reports only how far it travelled since the previous status,
    /// and its heading: the pose advances by dead reckoning.
    Advance { distance_mm: i64, heading_mrad: i64 },
    /// The status carries no odometry.
    Unchanged,
}

/// Why a brainstem inertial sample was not published.
#[derive(Clone, Copy, Debug, PartialEq, Eq, Structural)]
pub enum ImuRejection {
    OutOfOrder,
    NotPresent,
    OrientationIncomplete,
    GyroIncomplete,
    AccelerationIncomplete,
    ConfidenceMissing,
    CalibrationMissing,
    SampleTimeMissing,
    FutureSample,
}

/// Which clock placed a sample on the host time line.
#[derive(Clone, Copy, Debug, PartialEq, Eq, Structural)]
pub enum SampleClock {
    UptimeAnchor,
    AgeFallback,
}

/// A published inertial sample, in milliradians and millimetres per second squared.
pub struct ImuSense {
    pub captured_at_ms: u64,
    pub orientation: Vec<i32>,
    pub angular_velocity: Vec<i32>,
    pub acceleration: Vec<i32>,
    pub source: String,
    pub epoch: u64,
}

/// How far a published inertial sample can be trusted.
pub struct ImuMetadata {
    pub clock_confidence_permille: u32,
    pub clock_source: Option<String>,
    pub round_trip_ms: u64,
    pub sample_age_ms: u64,
    pub orientation_confidence_permille: u32,
    pub gyro_bias_calibrated: bool,
    pub mounting_calibrated: bool,
}

/// Everything one brainstem status tells the runtime.
pub struct BrainstemObservation {
    pub body: BodySense,
    pub imu: Option<ImuSense>,
    pub imu_metadata: Option<ImuMetadata>,
    pub imu_rejection: Option<String>,
    pub imu_rejection_kind: Option<ImuRejection>,
    pub clock_epoch_changed: bool,
    pub source_epoch: u64,
    pub pose_update: PoseUpdate,
}

/// The mathematical content of a published inertial sample.
pub struct ImuReading {
    pub captured_at_ms: u64,
    pub orientation: Seq<i32>,
    pub angular_velocity: Seq<i32>,
    pub acceleration: Seq<i32>,
    pub source: Seq<char>,
    pub epoch: u64,
}

impl View for ImuSense {
    type V = ImuReading;

    open spec fn view(&self) -> ImuReading {
        ImuReading {
            captured_at_ms: self.captured_at_ms,
            orientation: self.orientation@,
            angular_velocity: self.angular_velocity@,
            acceleration: self.acceleration@,
            source: self.source@,
            epoch: self.epoch,
        }
    }
}

impl ImuSense {
    /// Name of the sensor that produced the sample.
    pub fn source_id(&self) -> (r: Option<&str>)
        ensures
            r is Some && r->0@ == self.source@,
    {
        Some(self.source.as_str())
    }

    /// Device clock epoch in which the sample was taken.
    pub fn source_epoch(&self) -> (r: u64)
        ensures
            r == self.epoch,
    {
        self.epoch
    }
}

impl Default for BrainstemClockMapper {
    fn default() -> (r: BrainstemClockMapper)
        ensures
            r == fresh_mapper(),
    {
        BrainstemClockMapper {
            last_uptime_ms: None,
            last_host_mid_ms: 0,
            last_received_ms: None,
            last_status_epoch: None,
            epoch: 0,
            reconnect_pending: false,
        }
    }
}

impl Default for PhysicalPoseAdapter {
    fn default() -> (r: PhysicalPoseAdapter)
        ensures
            r == fresh_adapter(),
    {
        PhysicalPoseAdapter { last_distance_mm: None, last_resets: None }
    }
}

pub open spec fn fresh_mapper() -> BrainstemClockMapper {
    BrainstemClockMapper {
        last_uptime_ms: None,
        last_host_mid_ms: 0,
        last_received_ms: None,
        last_status_epoch: None,
        epoch: 0,
        reconnect_pending: false,
    }
}

pub open spec fn fresh_adapter() -> PhysicalPoseAdapter {
    PhysicalPoseAdapter { last_distance_mm: None, last_resets: None }
}

impl BrainstemClockMapper {
    /// Notes that the link to the brainstem was re-established: the next
    /// accepted status starts a new clock epoch.
    pub fn mark_reconnect(&mut self)
        ensures
            *final(self) == (BrainstemClockMapper { reconnect_pending: true, ..*old(self) }),
    {
        self.reconnect_pending = true;
    }
}

/// A status whose request began before the previous reply arrived, or whose
/// reply precedes its request, is out of order.
pub open spec fn status_out_of_order(m: BrainstemClockMapper, t: StatusRequestTiming) -> bool {
    ||| t.host_response_received_ms < t.host_request_started_ms
    ||| (match m.last_received_ms {
        Some(r) => t.host_request_started_ms < r,
        None => false,
    })
}

/// Host time halfway through the request.
pub open spec fn host_midpoint(t: StatusRequestTiming) -> u64 {
    (t.host_request_started_ms + (t.host_response_received_ms - t.host_request_started_ms) / 2) as u64
}

pub open spec fn round_trip(t: StatusRequestTiming) -> u64 {
    (t.host_response_received_ms - t.host_request_started_ms) as u64
}

/// Confidence in host timing given the request round trip.
pub open spec fn latency_confidence(rtt: u64) -> u32 {
    if rtt <= 100 {
        1000
    } else if rtt <= 250 {
        500
    } else {
        200
    }
}

/// The device clock advanced (modulo 2^32) further than the host clock allows:
/// it restarted rather than wrapped.
pub open spec fn device_clock_jumped(m: BrainstemClockMapper, uptime: u32, mid: u64) -> bool {
    match m.last_uptime_ms {
        Some(p) => {
            let host_elapsed: int = if mid >= m.last_host_mid_ms {
                mid - m.last_host_mid_ms
            } else {
                0
            };
            wrapped_age(uptime, p) > host_elapsed + CLOCK_SLACK_MS
        },
        None => false,
    }
}

pub open spec fn reported_epoch_changed(m: BrainstemClockMapper, s: StatusSummary) -> bool {
    match (m.last_status_epoch, s.clock_epoch) {
        (Some(a), Some(b)) => a != b,
        _ => false,
    }
}

/// Whether an in-order status starts a new device clock epoch.
pub open spec fn epoch_changes(
    m: BrainstemClockMapper,
    s: StatusSummary,
    t: StatusRequestTiming,
) -> bool {
    ||| m.reconnect_pending
    ||| reported_epoch_changed(m, s)
    ||| (match s.uptime_ms {
        Some(u) => device_clock_jumped(m, u, host_midpoint(t)),
        None => false,
    })
}

/// The clock mapper after seeing status `s` with timing `t`.
pub open spec fn clock_next(
    m: BrainstemClockMapper,
    s: StatusSummary,
    t: StatusRequestTiming,
) -> BrainstemClockMapper {
    if status_out_of_order(m, t) {
        m
    } else {
        BrainstemClockMapper {
            last_uptime_ms: s.uptime_ms,
            last_host_mid_ms: host_midpoint(t),
            last_received_ms: Some(t.host_response_received_ms),
            last_status_epoch: match s.clock_epoch {
                Some(e) => Some(e),
                None => m.last_status_epoch,
            },
            epoch: if epoch_changes(m, s, t) && m.epoch < u64::MAX {
                (m.epoch + 1) as u64
            } else {
                m.epoch
            },
            reconnect_pending: false,
        }
    }
}

pub open spec fn imu_present(i: ImuStatus) -> bool {
    match i.present {
        Some(p) => p > 0,
        None => false,
    }
}

/// Age of the sample on the device clock, and which clock measured it.
pub open spec fn sample_age(s: StatusSummary) -> Option<(nat, SampleClock)> {
    match (s.uptime_ms, s.imu.sample_timestamp_ms) {
        (Some(u), Some(ts)) => Some((wrapped_age(u, ts), SampleClock::UptimeAnchor)),
        _ => match s.imu.age_ms {
            Some(a) => Some((a as nat, SampleClock::AgeFallback)),
            None => None,
        },
    }
}

/// Why the inertial sample of status `s` is not published, if it is not.
pub open spec fn imu_rejection(
    m: BrainstemClockMapper,
    s: StatusSummary,
    t: StatusRequestTiming,
) -> Option<ImuRejection> {
    let i = s.imu;
    if status_out_of_order(m, t) {
        Some(ImuRejection::OutOfOrder)
    } else if !imu_present(i) {
        Some(ImuRejection::NotPresent)
    } else if i.roll_mrad is None || i.pitch_mrad is None {
        Some(ImuRejection::OrientationIncomplete)
    } else if i.gyro_x_mrad_s is None || i.gyro_y_mrad_s is None || i.gyro_z_mrad_s is None {
        Some(ImuRejection::GyroIncomplete)
    } else if i.accel_x_mm_s2 is None || i.accel_y_mm_s2 is None || i.accel_z_mm_s2 is None {
        Some(ImuRejection::AccelerationIncomplete)
    } else if i.orientation_confidence_permille is None {
        Some(ImuRejection::ConfidenceMissing)
    } else if i.gyro_bias_calibrated is None || i.mounting_calibrated is None {
        Some(ImuRejection::CalibrationMissing)
    } else {
        match sample_age(s) {
            None => Some(ImuRejection::SampleTimeMissing),
            Some((age, _)) => if age >= FUTURE_SAMPLE_AGE_MS {
                Some(ImuRejection::FutureSample)
            } else {
                None
            },
        }
    }
}

pub open spec fn rejection_message(r: ImuRejection) -> Seq<char> {
    match r {
        ImuRejection::OutOfOrder => "brainstem status arrived out of order"@,
        ImuRejection::NotPresent => "brainstem imu is not present"@,
        ImuRejection::OrientationIncomplete => "brainstem imu orientation axes are incomplete"@,
        ImuRejection::GyroIncomplete => "brainstem imu gyro axes are incomplete"@,
        ImuRejection::AccelerationIncomplete => "brainstem imu acceleration axes are incomplete"@,
        ImuRejection::ConfidenceMissing => "brainstem imu orientation confidence is missing"@,
        ImuRejection::CalibrationMissing => "brainstem imu calibration state is missing"@,
        ImuRejection::SampleTimeMissing => "brainstem imu sample time is missing"@,
        ImuRejection::FutureSample => "brainstem imu sample is stamped in the future"@,
    }
}

pub open spec fn clock_source_name(c: SampleClock) -> Seq<char> {
    match c {
        SampleClock::UptimeAnchor => "brainstem_uptime_anchor"@,
        SampleClock::AgeFallback => "brainstem_sample_age_fallback"@,
    }
}

/// Clock confidence of a sample measured by clock `c` over a request with round trip `rtt`.
pub open spec fn clock_confidence(c: SampleClock, rtt: u64) -> u32 {
    let l = latency_confidence(rtt);
    match c {
        SampleClock::UptimeAnchor => l,
        SampleClock::AgeFallback => if l < AGE_FALLBACK_CONFIDENCE_PERMILLE {
            l
        } else {
            AGE_FALLBACK_CONFIDENCE_PERMILLE
        },
    }
}

/// Host time a sample of the given device age was taken.
pub open spec fn captured_at(mid: u64, age: nat) -> u64 {
    if age <= mid {
        (mid - age) as u64
    } else {
        0
    }
}

pub open spec fn unwrap_i32(o: Option<i32>) -> i32 {
    match o {
        Some(v) => v,
        None => 0,
    }
}

/// The inertial reading published for an accepted status.
pub open spec fn expected_reading(
    m: BrainstemClockMapper,
    s: StatusSummary,
    t: StatusRequestTiming,
) -> ImuReading {
    let i = s.imu;
    ImuReading {
        captured_at_ms: captured_at(
            host_midpoint(t),
            match sample_age(s) {
                Some((age, _)) => age,
                None => 0,
            },
        ),
        orientation: seq![unwrap_i32(i.roll_mrad), unwrap_i32(i.pitch_mrad)],
        angular_velocity: seq![
            unwrap_i32(i.gyro_x_mrad_s),
            unwrap_i32(i.gyro_y_mrad_s),
            unwrap_i32(i.gyro_z_mrad_s),
        ],
        acceleration: seq![
            unwrap_i32(i.accel_x_mm_s2),
            unwrap_i32(i.accel_y_mm_s2),
            unwrap_i32(i.accel_z_mm_s2),
        ],
        source: "brainstem_board_imu"@,
        epoch: clock_next(m, s, t).epoch,
    }
}

/// The pose update a status gives: its pose estimate when it reports a
/// position, otherwise the distance travelled since the previous status of
/// the same odometry run (all of it after a reset or at the first status).
pub open spec fn pose_update(a: PhysicalPoseAdapter, s: StatusSummary) -> PoseUpdate {
    match (s.odometry_x_mm, s.odometry_y_mm) {
        (Some(x), Some(y)) => PoseUpdate::Reported(
            Pose2Mm { x_mm: x as i64, y_mm: y as i64, heading_mrad: or_zero(s.odometry_heading_mrad) },
        ),
        _ => match s.odometry_distance_mm {
            Some(d) => PoseUpdate::Advance {
                distance_mm: match a.last_distance_mm {
                    Some(prev) => if a.last_resets == s.odometry_resets {
                        (d - prev) as i64
                    } else {
                        d as i64
                    },
                    None => d as i64,
                },
                heading_mrad: or_zero(s.odometry_heading_mrad),
            },
            None => PoseUpdate::Unchanged,
        },
    }
}

/// The adapter after status `s`: it remembers the last cumulative distance and reset count.
pub open spec fn adapter_next(a: PhysicalPoseAdapter, s: StatusSummary) -> PhysicalPoseAdapter {
    match s.odometry_distance_mm {
        Some(d) => PhysicalPoseAdapter { last_distance_mm: Some(d), last_resets: s.odometry_resets },
        None => a,
    }
}

/// The body published for status `s`.
pub open spec fn observed_body(
    m: BrainstemClockMapper,
    a: PhysicalPoseAdapter,
    s: StatusSummary,
    t: StatusRequestTiming,
) -> BodySense {
    if status_out_of_order(m, t) {
        crate::body::default_body()
    } else {
        status_body(s, host_midpoint(t))
    }
}

/// The pose adapter after status `s`.
pub open spec fn observed_adapter(
    m: BrainstemClockMapper,
    a: PhysicalPoseAdapter,
    s: StatusSummary,
    t: StatusRequestTiming,
) -> PhysicalPoseAdapter {
    if status_out_of_order(m, t) {
        a
    } else {
        adapter_next(a, s)
    }
}

/// What an observation says about a status, given the mapper and adapter before it.
pub open spec fn observation_matches(
    r: BrainstemObservation,
    m: BrainstemClockMapper,
    a: PhysicalPoseAdapter,
    s: StatusSummary,
    t: StatusRequestTiming,
) -> bool {
    &&& r.body == observed_body(m, a, s, t)
    &&& r.clock_epoch_changed == (!status_out_of_order(m, t) && epoch_changes(m, s, t))
    &&& r.source_epoch == clock_next(m, s, t).epoch
    &&& r.imu_rejection_kind == imu_rejection(m, s, t)
    &&& r.pose_update == (if status_out_of_order(m, t) {
        PoseUpdate::Unchanged
    } else {
        pose_update(a, s)
    })
    &&& match imu_rejection(m, s, t) {
        Some(k) => {
            &&& r.imu is None
            &&& r.imu_metadata is None
            &&& r.imu_rejection is Some
            &&& r.imu_rejection->0@ == rejection_message(k)
        },
        None => {
            let (age, clock) = sample_age(s)->0;
            &&& r.imu_rejection is None
            &&& r.imu is Some
            &&& r.imu->0@ == expected_reading(m, s, t)
            &&& r.imu_metadata is Some
            &&& r.imu_metadata->0.clock_confidence_permille == clock_confidence(
                clock,
                round_trip(t),
            )
            &&& r.imu_metadata->0.clock_source is Some
            &&& r.imu_metadata->0.clock_source->0@ == clock_source_name(clock)
            &&& r.imu_metadata->0.round_trip_ms == round_trip(t)
            &&& r.imu_metadata->0.sample_age_ms == age
            &&& Some(r.imu_metadata->0.orientation_confidence_permille)
                == s.imu.orientation_confidence_permille
            &&& Some(r.imu_metadata->0.gyro_bias_calibrated) == s.imu.gyro_bias_calibrated
            &&& Some(r.imu_metadata->0.mounting_calibrated) == s.imu.mounting_calibrated
        },
    }
}


fn midpoint_of(t: &StatusRequestTiming) -> (r: u64)
    requires
        t.host_request_started_ms <= t.host_response_received_ms,
    ensures
        r == host_midpoint(*t),
        t.host_request_started_ms <= r <= t.host_response_received_ms,
{
    t.host_request_started_ms + (t.host_response_received_ms - t.host_request_started_ms) / 2
}

fn wrapped_age_of(uptime: u32, ts: u32) -> (r: u64)
    ensures
        r == wrapped_age(uptime, ts),
{
    if ts <= uptime {
        (uptime - ts) as u64
    } else {
        (uptime as u64 + 0x1_0000_0000u64) - ts as u64
    }
}

fn latency_confidence_of(rtt: u64) -> (r: u32)
    ensures
        r == latency_confidence(rtt),
{
    if rtt <= 100 {
        1000
    } else if rtt <= 250 {
        500
    } else {
        200
    }
}

fn out_of_order_of(m: &BrainstemClockMapper, t: &StatusRequestTiming) -> (r: bool)
    ensures
        r == status_out_of_order(*m, *t),
{
    if t.host_response_received_ms < t.host_request_started_ms {
        return true;
    }
    match m.last_received_ms {
        Some(r) => t.host_request_started_ms < r,
        None => false,
    }
}

fn epoch_changes_of(m: &BrainstemClockMapper, s: &StatusSummary, t: &StatusRequestTiming) -> (r:
    bool)
    requires
        !status_out_of_order(*m, *t),
    ensures
        r == epoch_changes(*m, *s, *t),
{
    if m.reconnect_pending {
        return true;
    }
    let reported = match (m.last_status_epoch, s.clock_epoch) {
        (Some(a), Some(b)) => a != b,
        _ => false,
    };
    if reported {
        return true;
    }
    match s.uptime_ms {
        Some(u) => match m.last_uptime_ms {
            Some(p) => {
                let mid = midpoint_of(t);
                let host_elapsed: u64 = if mid >= m.last_host_mid_ms {
                    mid - m.last_host_mid_ms
                } else {
                    0
                };
                let age = wrapped_age_of(u, p);
                age > CLOCK_SLACK_MS && age - CLOCK_SLACK_MS > host_elapsed
            },
            None => false,
        },
        None => false,
    }
}

impl BrainstemClockMapper {
    /// Takes in status `s` with timing `t`; reports whether a new clock epoch began.
    pub fn advance(&mut self, s: &StatusSummary, t: &StatusRequestTiming) -> (changed: bool)
        ensures
            *final(self) == clock_next(*old(self), *s, *t),
            changed == (!status_out_of_order(*old(self), *t) && epoch_changes(*old(self), *s, *t)),
    {
        if out_of_order_of(self, t) {
            return false;
        }
        let changed = epoch_changes_of(self, s, t);
        let mid = midpoint_of(t);
        self.last_uptime_ms = s.uptime_ms;
        self.last_host_mid_ms = mid;
        self.last_received_ms = Some(t.host_response_received_ms);
        match s.clock_epoch {
            Some(e) => {
                self.last_status_epoch = Some(e);
            },
            None => {},
        }
        if changed && self.epoch < u64::MAX {
            self.epoch = self.epoch + 1;
        }
        self.reconnect_pending = false;
        changed
    }
}

impl PhysicalPoseAdapter {
    /// Takes in the odometry of status `s` and returns the pose update it gives.
    pub fn update(&mut self, s: &StatusSummary) -> (r: PoseUpdate)
        ensures
            r == pose_update(*old(self), *s),
            *final(self) == adapter_next(*old(self), *s),
    {
        let heading: i64 = match s.odometry_heading_mrad {
            Some(h) => h as i64,
            None => 0,
        };
        let r = match (s.odometry_x_mm, s.odometry_y_mm) {
            (Some(x), Some(y)) => PoseUpdate::Reported(
                Pose2Mm { x_mm: x as i64, y_mm: y as i64, heading_mrad: heading },
            ),
            _ => match s.odometry_distance_mm {
                Some(d) => PoseUpdate::Advance {
                    distance_mm: match self.last_distance_mm {
                        Some(prev) => if self.last_resets == s.odometry_resets {
                            d as i64 - prev as i64
                        } else {
                            d as i64
                        },
                        None => d as i64,
                    },
                    heading_mrad: heading,
                },
                None => PoseUpdate::Unchanged,
            },
        };
        match s.odometry_distance_mm {
            Some(d) => {
                self.last_distance_mm = Some(d);
                self.last_resets = s.odometry_resets;
            },
            None => {},
        }
        r
    }
}

fn sample_age_of(s: &StatusSummary) -> (r: Option<(u64, SampleClock)>)
    ensures
        match sample_age(*s) {
            Some((age, c)) => r == Some((age as u64, c)),
            None => r is None,
        },
{
    match (s.uptime_ms, s.imu.sample_timestamp_ms) {
        (Some(u), Some(ts)) => Some((wrapped_age_of(u, ts), SampleClock::UptimeAnchor)),
        _ => match s.imu.age_ms {
            Some(a) => Some((a as u64, SampleClock::AgeFallback)),
            None => None,
        },
    }
}

fn imu_rejection_of(m: &BrainstemClockMapper, s: &StatusSummary, t: &StatusRequestTiming) -> (r:
    Option<ImuRejection>)
    ensures
        r == imu_rejection(*m, *s, *t),
{
    let i = &s.imu;
    if out_of_order_of(m, t) {
        Some(ImuRejection::OutOfOrder)
    } else if !(match i.present {
        Some(p) => p > 0,
        None => false,
    }) {
        Some(ImuRejection::NotPresent)
    } else if i.roll_mrad.is_none() || i.pitch_mrad.is_none() {
        Some(ImuRejection::OrientationIncomplete)
    } else if i.gyro_x_mrad_s.is_none() || i.gyro_y_mrad_s.is_none() || i.gyro_z_mrad_s.is_none() {
        Some(ImuRejection::GyroIncomplete)
    } else if i.accel_x_mm_s2.is_none() || i.accel_y_mm_s2.is_none() || i.accel_z_mm_s2.is_none() {
        Some(ImuRejection::AccelerationIncomplete)
    } else if i.orientation_confidence_permille.is_none() {
        Some(ImuRejection::ConfidenceMissing)
    } else if i.gyro_bias_calibrated.is_none() || i.mounting_calibrated.is_none() {
        Some(ImuRejection::CalibrationMissing)
    } else {
        match sample_age_of(s) {
            None => Some(ImuRejection::SampleTimeMissing),
            Some((age, _)) => if age >= FUTURE_SAMPLE_AGE_MS {
                Some(ImuRejection::FutureSample)
            } else {
                None
            },
        }
    }
}

fn rejection_text(k: ImuRejection) -> (r: String)
    ensures
        r@ == rejection_message(k),
{
    match k {
        ImuRejection::OutOfOrder => String::from_str("brainstem status arrived out of order"),
        ImuRejection::NotPresent => String::from_str("brainstem imu is not present"),
        ImuRejection::OrientationIncomplete => String::from_str(
            "brainstem imu orientation axes are incomplete",
        ),
        ImuRejection::GyroIncomplete => String::from_str("brainstem imu gyro axes are incomplete"),
        ImuRejection::AccelerationIncomplete => String::from_str(
            "brainstem imu acceleration axes are incomplete",
        ),
        ImuRejection::ConfidenceMissing => String::from_str(
            "brainstem imu orientation confidence is missing",
        ),
        ImuRejection::CalibrationMissing => String::from_str(
            "brainstem imu calibration state is missing",
        ),
        ImuRejection::SampleTimeMissing => String::from_str("brainstem imu sample time is missing"),
        ImuRejection::FutureSample => String::from_str(
            "brainstem imu sample is stamped in the future",
        ),
    }
}

fn clock_source_text(c: SampleClock) -> (r: String)
    ensures
        r@ == clock_source_name(c),
{
    match c {
        SampleClock::UptimeAnchor => String::from_str("brainstem_uptime_anchor"),
        SampleClock::AgeFallback => String::from_str("brainstem_sample_age_fallback"),
    }
}

fn opt_i32_or_zero(o: Option<i32>) -> (r: i32)
    ensures
        r == unwrap_i32(o),
{
    match o {
        Some(v) => v,
        None => 0,
    }
}

/// Interprets one brainstem status: maps its device clock onto the host
/// clock, publishes the body it describes and, when every axis, trust field
/// and a sane sample time are present, its inertial sample.
pub fn brainstem_observation_from_cockpit_status(
    status: StatusSummary,
    timing: StatusRequestTiming,
    mapper: &mut BrainstemClockMapper,
    adapter: &mut PhysicalPoseAdapter,
) -> (r: BrainstemObservation)
    ensures
        *final(mapper) == clock_next(*old(mapper), status, timing),
        *final(adapter) == observed_adapter(*old(mapper), *old(adapter), status, timing),
        observation_matches(r, *old(mapper), *old(adapter), status, timing),
{
    let ghost m0 = *mapper;
    let ghost a0 = *adapter;
    let rejection = imu_rejection_of(mapper, &status, &timing);
    let out_of_order = out_of_order_of(mapper, &timing);
    let changed = mapper.advance(&status, &timing);
    let epoch = mapper.epoch;
    if out_of_order {
        return BrainstemObservation {
            body: BodySense::default(),
            imu: None,
            imu_metadata: None,
            imu_rejection: Some(rejection_text(ImuRejection::OutOfOrder)),
            imu_rejection_kind: Some(ImuRejection::OutOfOrder),
            clock_epoch_changed: false,
            source_epoch: epoch,
            pose_update: PoseUpdate::Unchanged,
        };
    }
    let mid = midpoint_of(&timing);
    let pose_update = adapter.update(&status);
    let body = body_sense_of(&status, mid);
    match rejection {
        Some(k) => BrainstemObservation {
            body,
            imu: None,
            imu_metadata: None,
            imu_rejection: Some(rejection_text(k)),
            imu_rejection_kind: Some(k),
            clock_epoch_changed: changed,
            source_epoch: epoch,
            pose_update,
        },
        None => {
            let (age, clock) = match sample_age_of(&status) {
                Some(pair) => pair,
                None => (0, SampleClock::AgeFallback),
            };
            let captured = if age <= mid {
                mid - age
            } else {
                0
            };
            let i = &status.imu;
            let mut orientation: Vec<i32> = Vec::new();
            orientation.push(opt_i32_or_zero(i.roll_mrad));
            orientation.push(opt_i32_or_zero(i.pitch_mrad));
            let mut angular_velocity: Vec<i32> = Vec::new();
            angular_velocity.push(opt_i32_or_zero(i.gyro_x_mrad_s));
            angular_velocity.push(opt_i32_or_zero(i.gyro_y_mrad_s));
            angular_velocity.push(opt_i32_or_zero(i.gyro_z_mrad_s));
            let mut acceleration: Vec<i32> = Vec::new();
            acceleration.push(opt_i32_or_zero(i.accel_x_mm_s2));
            acceleration.push(opt_i32_or_zero(i.accel_y_mm_s2));
            acceleration.push(opt_i32_or_zero(i.accel_z_mm_s2));
            let latency = latency_confidence_of(timing.host_response_received_ms
                - timing.host_request_started_ms);
            let confidence = match clock {
                SampleClock::UptimeAnchor => latency,
                SampleClock::AgeFallback => if latency < AGE_FALLBACK_CONFIDENCE_PERMILLE {
                    latency
                } else {
                    AGE_FALLBACK_CONFIDENCE_PERMILLE
                },
            };
            let imu = ImuSense {
                captured_at_ms: captured,
                orientation,
                angular_velocity,
                acceleration,
                source: String::from_str("brainstem_board_imu"),
                epoch,
            };
            let metadata = ImuMetadata {
                clock_confidence_permille: confidence,
                clock_source: Some(clock_source_text(clock)),
                round_trip_ms: timing.host_response_received_ms - timing.host_request_started_ms,
                sample_age_ms: age,
                orientation_confidence_permille: match i.orientation_confidence_permille {
                    Some(c) => c,
                    None => 0,
                },
                gyro_bias_calibrated: match i.gyro_bias_calibrated {
                    Some(b) => b,
                    None => false,
                },
                mounting_calibrated: match i.mounting_calibrated {
                    Some(b) => b,
                    None => false,
                },
            };
            proof {
                assert(imu@.orientation =~= expected_reading(m0, status, timing).orientation);
                assert(imu@.angular_velocity =~= expected_reading(
                    m0,
                    status,
                    timing,
                ).angular_velocity);
                assert(imu@.acceleration =~= expected_reading(m0, status, timing).acceleration);
            }
            BrainstemObservation {
                body,
                imu: Some(imu),
                imu_metadata: Some(metadata),
                imu_rejection: None,
                imu_rejection_kind: None,
                clock_epoch_changed: changed,
                source_epoch: epoch,
                pose_update,
            }
        },
    }
}

/// The brainstem status line of a healthy board at device time `uptime_ms`,
/// with its last Create body packet at `body_timestamp_ms` and its inertial
/// sample at `imu_timestamp_ms` (both on the device clock).
pub fn complete_brainstem_status(uptime_ms: u32, body_timestamp_ms: u32, imu_timestamp_ms: u32) -> (r:
    StatusSummary)
    ensures
        r.uptime_ms == Some(uptime_ms),
        r.clock_epoch == Some(0u32),
        r.create.complete_packet_count == Some(4u64),
        r.create.last_complete_packet_timestamp_ms == Some(body_timestamp_ms),
        r.odometry_x_mm == Some(100i32),
        r.odometry_y_mm == Some(200i32),
        r.odometry_heading_mrad == Some(300i32),
        r.odometry_distance_mm is None,
        r.odometry_resets is None,
        r.imu.present == Some(2u32),
        r.imu.health == Some(1u32),
        r.imu.samples == Some(60u64),
        r.imu.sample_timestamp_ms == Some(imu_timestamp_ms),
        r.imu.age_ms == Some(wrapped_age(uptime_ms, imu_timestamp_ms) as u32),
        r.imu.roll_mrad == Some(125i32),
        r.imu.pitch_mrad == Some(-250i32),
        r.imu.gyro_x_mrad_s == Some(1000i32),
        r.imu.gyro_y_mrad_s == Some(-2000i32),
        r.imu.gyro_z_mrad_s == Some(500i32),
        r.imu.accel_x_mm_s2 == Some(9807i32),
        r.imu.accel_y_mm_s2 == Some(0i32),
        r.imu.accel_z_mm_s2 == Some(-9807i32),
        r.imu.orientation_confidence_permille == Some(900u32),
        r.imu.gyro_bias_calibrated == Some(true),
        r.imu.mounting_calibrated == Some(true),
        r.imu.orientation_source is Some,
        r.imu.orientation_source->0@ == "mpu6050_accel_gyro_roll_pitch"@,
        crate::status::create_is_empty_but_body(r.create),
{
    let age = wrapped_age_of(uptime_ms, imu_timestamp_ms);
    StatusSummary {
        uptime_ms: Some(uptime_ms),
        clock_epoch: Some(0),
        odometry_x_mm: Some(100),
        odometry_y_mm: Some(200),
        odometry_heading_mrad: Some(300),
        odometry_distance_mm: None,
        odometry_resets: None,
        imu: ImuStatus {
            present: Some(2),
            health: Some(1),
            samples: Some(60),
            sample_timestamp_ms: Some(imu_timestamp_ms),
            age_ms: Some(age as u32),
            roll_mrad: Some(125),
            pitch_mrad: Some(-250),
            gyro_x_mrad_s: Some(1000),
            gyro_y_mrad_s: Some(-2000),
            gyro_z_mrad_s: Some(500),
            accel_x_mm_s2: Some(9807),
            accel_y_mm_s2: Some(0),
            accel_z_mm_s2: Some(-9807),
            orientation_confidence_permille: Some(900),
            gyro_bias_calibrated: Some(true),
            mounting_calibrated: Some(true),
            orientation_source: Some(String::from_str("mpu6050_accel_gyro_roll_pitch")),
        },
        create: CreateSensors {
            complete_packet_count: Some(4),
            last_complete_packet_timestamp_ms: Some(body_timestamp_ms),
            charging_state: None,
            charging_indicator: None,
            charge_mah: None,
            capacity_mah: None,
            charging_sources: None,
            ir_byte: None,
            bump_left: None,
            bump_right: None,
            cliff_left: None,
            cliff_front_left: None,
            cliff_front_right: None,
            cliff_right: None,
            wheel_drop: None,
        },
    }
}

/// Observes `status` as a reply requested at host time `start_ms` and received at `received_ms`.
pub fn observe_brainstem_fixture(
    mapper: &mut BrainstemClockMapper,
    adapter: &mut PhysicalPoseAdapter,
    status: StatusSummary,
    start_ms: u64,
    received_ms: u64,
) -> (r: BrainstemObservation)
    ensures
        ({
            let t = StatusRequestTiming {
                host_request_started_ms: start_ms,
                host_response_received_ms: received_ms,
            };
            &&& *final(mapper) == clock_next(*old(mapper), status, t)
            &&& *final(adapter) == observed_adapter(*old(mapper), *old(adapter), status, t)
            &&& observation_matches(r, *old(mapper), *old(adapter), status, t)
        }),
{
    brainstem_observation_from_cockpit_status(
        status,
        StatusRequestTiming { host_request_started_ms: start_ms, host_response_received_ms: received_ms },
        mapper,
        adapter,
    )
}

/// The device clock epoch never goes back, and advances by at most one per status.
pub proof fn lemma_epoch_is_monotone(m: BrainstemClockMapper, s: StatusSummary, t: StatusRequestTiming)
    ensures
        m.epoch <= clock_next(m, s, t).epoch <= m.epoch + 1,
{
}

/// A device clock that wrapped around 2^32 no further than host time advanced
/// is a wrap, not a reboot: absent a reconnect or a reported epoch change, the epoch stays.
pub proof fn lemma_wrap_is_not_a_reboot(
    m: BrainstemClockMapper,
    s: StatusSummary,
    t: StatusRequestTiming,
    uptime: u32,
    previous: u32,
)
    requires
        !status_out_of_order(m, t),
        !m.reconnect_pending,
        !reported_epoch_changed(m, s),
        s.uptime_ms == Some(uptime),
        m.last_uptime_ms == Some(previous),
        host_midpoint(t) >= m.last_host_mid_ms,
        wrapped_age(uptime, previous) <= host_midpoint(t) - m.last_host_mid_ms,
    ensures
        clock_next(m, s, t).epoch == m.epoch,
{
}

/// The first in-order status after a reconnect starts a new clock epoch.
pub proof fn lemma_reconnect_starts_new_epoch(
    m: BrainstemClockMapper,
    s: StatusSummary,
    t: StatusRequestTiming,
)
    requires
        m.reconnect_pending,
        !status_out_of_order(m, t),
        m.epoch < u64::MAX,
    ensures
        clock_next(m, s, t).epoch == m.epoch + 1,
        !clock_next(m, s, t).reconnect_pending,
{
}

/// An out-of-order status changes neither the clock nor the pose adapter and
/// publishes no inertial sample and no body evidence.
pub proof fn lemma_out_of_order_changes_nothing(
    m: BrainstemClockMapper,
    a: PhysicalPoseAdapter,
    s: StatusSummary,
    t: StatusRequestTiming,
)
    requires
        status_out_of_order(m, t),
    ensures
        clock_next(m, s, t) == m,
        observed_adapter(m, a, s, t) == a,
        imu_rejection(m, s, t) == Some(ImuRejection::OutOfOrder),
        observed_body(m, a, s, t).last_update_ms == 0,
{
}

/// A published sample was taken no later than the middle of its request, and
/// is never stamped in the future of the device clock.
pub proof fn lemma_published_sample_is_not_from_the_future(
    m: BrainstemClockMapper,
    s: StatusSummary,
    t: StatusRequestTiming,
)
    requires
        imu_rejection(m, s, t) is None,
    ensures
        sample_age(s) is Some,
        match sample_age(s) {
            Some((age, _)) => age < FUTURE_SAMPLE_AGE_MS,
            None => false,
        },
        expected_reading(m, s, t).captured_at_ms <= host_midpoint(t) <= t.host_response_received_ms,
{
}

/// A sample timed only by its reported age never claims more than a quarter of
/// full clock confidence, and no sample claims more than full confidence.
pub proof fn lemma_clock_confidence_bounds(c: SampleClock, rtt: u64)
    ensures
        clock_confidence(c, rtt) <= FULL_CONFIDENCE_PERMILLE,
        c == SampleClock::AgeFallback ==> clock_confidence(c, rtt)
            <= AGE_FALLBACK_CONFIDENCE_PERMILLE,
{
}
/// Within one odometry run, the distances of two successive advances add up
/// to the distance covered from the adapter's last reading to the second
/// status: no travel is lost or counted twice.
pub proof fn lemma_advances_telescope(
    a: PhysicalPoseAdapter,
    s1: StatusSummary,
    s2: StatusSummary,
)
    requires
        a.last_distance_mm is Some,
        s1.odometry_x_mm is None,
        s2.odometry_x_mm is None,
        s1.odometry_distance_mm is Some,
        s2.odometry_distance_mm is Some,
        s1.odometry_resets == a.last_resets,
        s2.odometry_resets == s1.odometry_resets,
    ensures
        pose_update(a, s1) is Advance,
        pose_update(adapter_next(a, s1), s2) is Advance,
        pose_update(a, s1)->distance_mm + pose_update(adapter_next(a, s1), s2)->distance_mm
            == s2.odometry_distance_mm->0 - a.last_distance_mm->0,
{
}
/// A slower round trip never earns more clock confidence: the confidence
/// falls as the round trip grows, from full confidence for fast replies to a
/// fifth of it for slow ones.
pub proof fn lemma_slower_round_trips_earn_less_confidence(rtt1: u64, rtt2: u64)
    requires
        rtt1 <= rtt2,
    ensures
        latency_confidence(rtt2) <= latency_confidence(rtt1),
        200 <= latency_confidence(rtt2) <= 1000,
        rtt1 <= 100 ==> latency_confidence(rtt1) == 1000,
        rtt2 > 250 ==> latency_confidence(rtt2) == 200,
{
}

} // verus!
