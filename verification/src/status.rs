//! The body status reported by the cockpit, in its two wire forms: the
//! brainstem's `key=value` status line and the JSON status document.

use vstd::prelude::*;
use crate::json_fields::{
    json_nested_bool, json_nested_i64, json_nested_str, json_nested_u64, json_section_bool,
    json_section_i64, json_section_str, json_section_u64, json_top_level_u64, json_top_u64,
};
use crate::text_fields::{
    chars_of, field_bool, field_signed, field_unsigned, text_bool, text_field, text_signed,
    text_string, text_unsigned,
};

verus! {

/// Inertial measurement fields of a brainstem status.
pub struct ImuStatus {
    pub present: Option<u32>,
    pub health: Option<u32>,
    pub samples: Option<u64>,
    pub sample_timestamp_ms: Option<u32>,
    pub age_ms: Option<u32>,
    pub roll_mrad: Option<i32>,
    pub pitch_mrad: Option<i32>,
    pub gyro_x_mrad_s: Option<i32>,
    pub gyro_y_mrad_s: Option<i32>,
    pub gyro_z_mrad_s: Option<i32>,
    pub accel_x_mm_s2: Option<i32>,
    pub accel_y_mm_s2: Option<i32>,
    pub accel_z_mm_s2: Option<i32>,
    pub orientation_confidence_permille: Option<u32>,
    pub gyro_bias_calibrated: Option<bool>,
    pub mounting_calibrated: Option<bool>,
    pub orientation_source: Option<String>,
}

/// Create Open Interface sensor fields of a status.
pub struct CreateSensors {
    pub complete_packet_count: Option<u64>,
    pub last_complete_packet_timestamp_ms: Option<u32>,
    pub charging_state: Option<u32>,
    pub charging_indicator: Option<String>,
    pub charge_mah: Option<u32>,
    pub capacity_mah: Option<u32>,
    pub charging_sources: Option<u32>,
    pub ir_byte: Option<u32>,
    pub bump_left: Option<bool>,
    pub bump_right: Option<bool>,
    pub cliff_left: Option<bool>,
    pub cliff_front_left: Option<bool>,
    pub cliff_front_right: Option<bool>,
    pub cliff_right: Option<bool>,
    pub wheel_drop: Option<bool>,
}

/// A parsed cockpit status.
pub struct StatusSummary {
    pub uptime_ms: Option<u32>,
    pub clock_epoch: Option<u32>,
    pub odometry_x_mm: Option<i32>,
    pub odometry_y_mm: Option<i32>,
    pub odometry_heading_mrad: Option<i32>,
    /// Cumulative distance travelled, reported by boards without a pose estimate.
    pub odometry_distance_mm: Option<i32>,
    /// How many times the board restarted its odometry.
    pub odometry_resets: Option<u32>,
    pub imu: ImuStatus,
    pub create: CreateSensors,
}

pub open spec fn opt_u32(o: Option<nat>) -> Option<u32> {
    match o {
        Some(n) => Some(n as u32),
        None => None,
    }
}

pub open spec fn opt_u64(o: Option<nat>) -> Option<u64> {
    match o {
        Some(n) => Some(n as u64),
        None => None,
    }
}

pub open spec fn opt_i32(o: Option<int>) -> Option<i32> {
    match o {
        Some(n) => Some(n as i32),
        None => None,
    }
}

/// A `u64` that fits in a `u32`, as a `u32`.
pub open spec fn narrow_u32(o: Option<u64>) -> Option<u32> {
    match o {
        Some(n) => if n <= u32::MAX {
            Some(n as u32)
        } else {
            None
        },
        None => None,
    }
}

pub open spec fn text_of(o: Option<String>) -> Option<Seq<char>> {
    match o {
        Some(s) => Some(s@),
        None => None,
    }
}

/// Whether a raw status is a JSON document rather than a status line.
pub open spec fn is_json_status(raw: Seq<char>) -> bool {
    raw.len() > 0 && raw[0] == '{'
}

pub open spec fn u32_field(s: Seq<char>, key: Seq<char>) -> Option<u32> {
    opt_u32(field_unsigned(s, key, u32::MAX as nat))
}

pub open spec fn i32_field(s: Seq<char>, key: Seq<char>) -> Option<i32> {
    opt_i32(field_signed(s, key, i32::MIN as int, i32::MAX as int))
}

/// What a status line says, field by field.
pub open spec fn status_line_matches(r: StatusSummary, s: Seq<char>) -> bool {
    &&& r.uptime_ms == u32_field(s, "uptime_ms"@)
    &&& r.clock_epoch == u32_field(s, "clock_epoch"@)
    &&& r.odometry_x_mm == i32_field(s, "odometry_x_mm"@)
    &&& r.odometry_y_mm == i32_field(s, "odometry_y_mm"@)
    &&& r.odometry_heading_mrad == i32_field(s, "odometry_heading_mrad"@)
    &&& r.odometry_distance_mm == i32_field(s, "odometry_distance_mm"@)
    &&& r.odometry_resets == u32_field(s, "odometry_resets"@)
    &&& r.imu.present == u32_field(s, "imu_present"@)
    &&& r.imu.health == u32_field(s, "imu_health"@)
    &&& r.imu.samples == opt_u64(field_unsigned(s, "imu_samples"@, u64::MAX as nat))
    &&& r.imu.sample_timestamp_ms == u32_field(s, "imu_sample_ms"@)
    &&& r.imu.age_ms == u32_field(s, "imu_age_ms"@)
    &&& r.imu.roll_mrad == i32_field(s, "imu_roll_mrad"@)
    &&& r.imu.pitch_mrad == i32_field(s, "imu_pitch_mrad"@)
    &&& r.imu.gyro_x_mrad_s == i32_field(s, "imu_gyro_x_mrad_s"@)
    &&& r.imu.gyro_y_mrad_s == i32_field(s, "imu_gyro_y_mrad_s"@)
    &&& r.imu.gyro_z_mrad_s == i32_field(s, "imu_gyro_z_mrad_s"@)
    &&& r.imu.accel_x_mm_s2 == i32_field(s, "imu_accel_x_mm_s2"@)
    &&& r.imu.accel_y_mm_s2 == i32_field(s, "imu_accel_y_mm_s2"@)
    &&& r.imu.accel_z_mm_s2 == i32_field(s, "imu_accel_z_mm_s2"@)
    &&& r.imu.orientation_confidence_permille == u32_field(s, "imu_orientation_confidence"@)
    &&& r.imu.gyro_bias_calibrated == field_bool(s, "imu_gyro_bias_calibrated"@)
    &&& r.imu.mounting_calibrated == field_bool(s, "imu_mounting_calibrated"@)
    &&& text_of(r.imu.orientation_source) == text_field(s, "imu_orientation_source"@)
    &&& r.create.complete_packet_count == opt_u64(
        field_unsigned(s, "create_body_packets"@, u64::MAX as nat),
    )
    &&& r.create.last_complete_packet_timestamp_ms == u32_field(s, "create_last_body_packet_ms"@)
    &&& r.create.charging_state is None
    &&& r.create.charging_indicator is None
    &&& r.create.charge_mah is None
    &&& r.create.capacity_mah is None
    &&& r.create.charging_sources is None
    &&& r.create.ir_byte is None
    &&& r.create.bump_left is None
    &&& r.create.bump_right is None
    &&& r.create.cliff_left is None
    &&& r.create.cliff_front_left is None
    &&& r.create.cliff_front_right is None
    &&& r.create.cliff_right is None
    &&& r.create.wheel_drop is None
}

pub open spec fn json_create_u32(s: Seq<char>, key: Seq<char>) -> Option<u32> {
    narrow_u32(json_nested_u64(s, "create_sensors"@, key))
}

/// An `i64` that fits in an `i32`, as an `i32`.
pub open spec fn narrow_i32(o: Option<i64>) -> Option<i32> {
    match o {
        Some(n) => if i32::MIN <= n <= i32::MAX {
            Some(n as i32)
        } else {
            None
        },
        None => None,
    }
}

pub open spec fn json_odometry_i32(s: Seq<char>, key: Seq<char>) -> Option<i32> {
    narrow_i32(json_nested_i64(s, "odometry"@, key))
}

pub open spec fn json_create_bool(s: Seq<char>, key: Seq<char>) -> Option<bool> {
    json_nested_bool(s, "create_sensors"@, key)
}

/// The IMU part of a status that carries no IMU fields.
pub open spec fn imu_is_empty(i: ImuStatus) -> bool {
    &&& i.present is None
    &&& i.health is None
    &&& i.samples is None
    &&& i.sample_timestamp_ms is None
    &&& i.age_ms is None
    &&& i.roll_mrad is None
    &&& i.pitch_mrad is None
    &&& i.gyro_x_mrad_s is None
    &&& i.gyro_y_mrad_s is None
    &&& i.gyro_z_mrad_s is None
    &&& i.accel_x_mm_s2 is None
    &&& i.accel_y_mm_s2 is None
    &&& i.accel_z_mm_s2 is None
    &&& i.orientation_confidence_permille is None
    &&& i.gyro_bias_calibrated is None
    &&& i.mounting_calibrated is None
    &&& i.orientation_source is None
}

/// What a JSON status document says, field by field.
pub open spec fn status_json_matches(r: StatusSummary, s: Seq<char>) -> bool {
    &&& r.uptime_ms == narrow_u32(json_top_u64(s, "uptime_ms"@))
    &&& r.clock_epoch == narrow_u32(json_top_u64(s, "clock_epoch"@))
    &&& r.odometry_x_mm == json_odometry_i32(s, "x_mm"@)
    &&& r.odometry_y_mm == json_odometry_i32(s, "y_mm"@)
    &&& r.odometry_heading_mrad == json_odometry_i32(s, "heading_mrad"@)
    &&& r.odometry_distance_mm == json_odometry_i32(s, "distance_mm"@)
    &&& r.odometry_resets == narrow_u32(json_nested_u64(s, "odometry"@, "reset_count"@))
    &&& imu_is_empty(r.imu)
    &&& r.create.complete_packet_count == json_nested_u64(
        s,
        "create_sensors"@,
        "complete_packet_count"@,
    )
    &&& r.create.last_complete_packet_timestamp_ms == json_create_u32(
        s,
        "last_complete_packet_timestamp_ms"@,
    )
    &&& r.create.charging_state == json_create_u32(s, "charging_state"@)
    &&& text_of(r.create.charging_indicator) == json_nested_str(
        s,
        "create_sensors"@,
        "charging_indicator"@,
    )
    &&& r.create.charge_mah == json_create_u32(s, "charge_mah"@)
    &&& r.create.capacity_mah == json_create_u32(s, "capacity_mah"@)
    &&& r.create.charging_sources == json_create_u32(s, "charging_sources"@)
    &&& r.create.ir_byte == json_create_u32(s, "ir_byte"@)
    &&& r.create.bump_left == json_create_bool(s, "bump_left"@)
    &&& r.create.bump_right == json_create_bool(s, "bump_right"@)
    &&& r.create.cliff_left == json_create_bool(s, "cliff_left"@)
    &&& r.create.cliff_front_left == json_create_bool(s, "cliff_front_left"@)
    &&& r.create.cliff_front_right == json_create_bool(s, "cliff_front_right"@)
    &&& r.create.cliff_right == json_create_bool(s, "cliff_right"@)
    &&& r.create.wheel_drop == json_create_bool(s, "wheel_drop"@)
}

fn to_u32(v: Option<u64>) -> (r: Option<u32>)
    ensures
        r == narrow_u32(v),
{
    match v {
        Some(n) => if n <= u32::MAX as u64 {
            Some(n as u32)
        } else {
            None
        },
        None => None,
    }
}

fn to_i32(v: Option<i64>) -> (r: Option<i32>)
    ensures
        r == narrow_i32(v),
{
    match v {
        Some(n) => if i32::MIN as i64 <= n && n <= i32::MAX as i64 {
            Some(n as i32)
        } else {
            None
        },
        None => None,
    }
}

fn line_u32(line: &Vec<char>, key: &str) -> (r: Option<u32>)
    ensures
        r == u32_field(line@, key@),
{
    match text_unsigned(line, key, u32::MAX as u64) {
        Some(v) => Some(v as u32),
        None => None,
    }
}

fn line_i32(line: &Vec<char>, key: &str) -> (r: Option<i32>)
    ensures
        r == i32_field(line@, key@),
{
    match text_signed(line, key, i32::MIN as i64, i32::MAX as i64) {
        Some(v) => Some(v as i32),
        None => None,
    }
}

fn json_create(raw: &str, key: &str) -> (r: Option<u32>)
    ensures
        r == json_create_u32(raw@, key@),
{
    to_u32(json_section_u64(raw, "create_sensors", key))
}

impl ImuStatus {
    /// An IMU status with no fields reported.
    pub fn empty() -> (r: ImuStatus)
        ensures
            imu_is_empty(r),
    {
        ImuStatus {
            present: None,
            health: None,
            samples: None,
            sample_timestamp_ms: None,
            age_ms: None,
            roll_mrad: None,
            pitch_mrad: None,
            gyro_x_mrad_s: None,
            gyro_y_mrad_s: None,
            gyro_z_mrad_s: None,
            accel_x_mm_s2: None,
            accel_y_mm_s2: None,
            accel_z_mm_s2: None,
            orientation_confidence_permille: None,
            gyro_bias_calibrated: None,
            mounting_calibrated: None,
            orientation_source: None,
        }
    }
}

impl StatusSummary {
    /// Reads a raw cockpit status: a JSON document when it starts with `{`,
    /// otherwise a brainstem status line of space separated `key=value` fields.
    pub fn from_raw(raw: &str) -> (r: StatusSummary)
        ensures
            is_json_status(raw@) ==> status_json_matches(r, raw@),
            !is_json_status(raw@) ==> status_line_matches(r, raw@),
    {
        let line = chars_of(raw);
        if line.len() > 0 && line[0] == '{' {
            Self::from_json(raw)
        } else {
            Self::from_line(raw, &line)
        }
    }

    fn from_json(raw: &str) -> (r: StatusSummary)
        ensures
            status_json_matches(r, raw@),
    {
        StatusSummary {
            uptime_ms: to_u32(json_top_level_u64(raw, "uptime_ms")),
            clock_epoch: to_u32(json_top_level_u64(raw, "clock_epoch")),
            odometry_x_mm: to_i32(json_section_i64(raw, "odometry", "x_mm")),
            odometry_y_mm: to_i32(json_section_i64(raw, "odometry", "y_mm")),
            odometry_heading_mrad: to_i32(json_section_i64(raw, "odometry", "heading_mrad")),
            odometry_distance_mm: to_i32(json_section_i64(raw, "odometry", "distance_mm")),
            odometry_resets: to_u32(json_section_u64(raw, "odometry", "reset_count")),
            imu: ImuStatus::empty(),
            create: CreateSensors {
                complete_packet_count: json_section_u64(
                    raw,
                    "create_sensors",
                    "complete_packet_count",
                ),
                last_complete_packet_timestamp_ms: json_create(
                    raw,
                    "last_complete_packet_timestamp_ms",
                ),
                charging_state: json_create(raw, "charging_state"),
                charging_indicator: json_section_str(raw, "create_sensors", "charging_indicator"),
                charge_mah: json_create(raw, "charge_mah"),
                capacity_mah: json_create(raw, "capacity_mah"),
                charging_sources: json_create(raw, "charging_sources"),
                ir_byte: json_create(raw, "ir_byte"),
                bump_left: json_section_bool(raw, "create_sensors", "bump_left"),
                bump_right: json_section_bool(raw, "create_sensors", "bump_right"),
                cliff_left: json_section_bool(raw, "create_sensors", "cliff_left"),
                cliff_front_left: json_section_bool(raw, "create_sensors", "cliff_front_left"),
                cliff_front_right: json_section_bool(raw, "create_sensors", "cliff_front_right"),
                cliff_right: json_section_bool(raw, "create_sensors", "cliff_right"),
                wheel_drop: json_section_bool(raw, "create_sensors", "wheel_drop"),
            },
        }
    }

    fn from_line(raw: &str, line: &Vec<char>) -> (r: StatusSummary)
        requires
            line@ == raw@,
        ensures
            status_line_matches(r, raw@),
    {
        let samples = text_unsigned(line, "imu_samples", u64::MAX);
        let packets = text_unsigned(line, "create_body_packets", u64::MAX);
        StatusSummary {
            uptime_ms: line_u32(line, "uptime_ms"),
            clock_epoch: line_u32(line, "clock_epoch"),
            odometry_x_mm: line_i32(line, "odometry_x_mm"),
            odometry_y_mm: line_i32(line, "odometry_y_mm"),
            odometry_heading_mrad: line_i32(line, "odometry_heading_mrad"),
            odometry_distance_mm: line_i32(line, "odometry_distance_mm"),
            odometry_resets: line_u32(line, "odometry_resets"),
            imu: ImuStatus {
                present: line_u32(line, "imu_present"),
                health: line_u32(line, "imu_health"),
                samples,
                sample_timestamp_ms: line_u32(line, "imu_sample_ms"),
                age_ms: line_u32(line, "imu_age_ms"),
                roll_mrad: line_i32(line, "imu_roll_mrad"),
                pitch_mrad: line_i32(line, "imu_pitch_mrad"),
                gyro_x_mrad_s: line_i32(line, "imu_gyro_x_mrad_s"),
                gyro_y_mrad_s: line_i32(line, "imu_gyro_y_mrad_s"),
                gyro_z_mrad_s: line_i32(line, "imu_gyro_z_mrad_s"),
                accel_x_mm_s2: line_i32(line, "imu_accel_x_mm_s2"),
                accel_y_mm_s2: line_i32(line, "imu_accel_y_mm_s2"),
                accel_z_mm_s2: line_i32(line, "imu_accel_z_mm_s2"),
                orientation_confidence_permille: line_u32(line, "imu_orientation_confidence"),
                gyro_bias_calibrated: text_bool(line, "imu_gyro_bias_calibrated"),
                mounting_calibrated: text_bool(line, "imu_mounting_calibrated"),
                orientation_source: text_string(raw, line, "imu_orientation_source"),
            },
            create: CreateSensors {
                complete_packet_count: packets,
                last_complete_packet_timestamp_ms: line_u32(line, "create_last_body_packet_ms"),
                charging_state: None,
                charging_indicator: None,
                charge_mah: None,
                capacity_mah: None,
                charging_sources: None,
                ir_byte: None,
                bump_left: None,
                bump_right: None,
                cliff_left: None,
                cliff_front_left: None,
                cliff_front_right: None,
                cliff_right: None,
                wheel_drop: None,
            },
        }
    }
}


/// Create sensor fields of a status that reports only body packet progress.
pub open spec fn create_is_empty_but_body(c: CreateSensors) -> bool {
    &&& c.charging_state is None
    &&& c.charging_indicator is None
    &&& c.charge_mah is None
    &&& c.capacity_mah is None
    &&& c.charging_sources is None
    &&& c.ir_byte is None
    &&& c.bump_left is None
    &&& c.bump_right is None
    &&& c.cliff_left is None
    &&& c.cliff_front_left is None
    &&& c.cliff_front_right is None
    &&& c.cliff_right is None
    &&& c.wheel_drop is None
}
} // verus!
