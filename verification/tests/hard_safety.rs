use pete_runtime::actions::{ActionPrimitive, TurnDir};
use pete_runtime::body::{real_slow_body_block_reason, BodySense};
use pete_runtime::now::Now;
use pete_runtime::safety::hard_safety_action;

fn test_body(x_m: f32, y_m: f32, battery_level: f32, last_update_ms: u64) -> BodySense {
    let mut body = BodySense::default();
    body.odometry.x_mm = (x_m * 1000.0).round() as i64;
    body.odometry.y_mm = (y_m * 1000.0).round() as i64;
    body.battery_permille = (battery_level * 1000.0).round() as u32;
    body.last_update_ms = last_update_ms;
    body
}

fn intensity_permille(intensity: f32) -> i32 {
    (intensity * 1000.0).round() as i32
}

fn check_bump_left() {
    let mut body = test_body(1.0, 1.0, 1.0, 100);
    body.flags.bump_left = true;
    let now = Now::blank(100, body);

    assert_eq!(
        hard_safety_action(&now),
        Some(ActionPrimitive::Turn {
            direction: TurnDir::Right,
            intensity_permille: intensity_permille(0.7),
            duration_ms: 1_200
        })
    );
}

fn check_bump_right() {
    let mut body = test_body(1.0, 1.0, 1.0, 100);
    body.flags.bump_right = true;
    let now = Now::blank(100, body);

    assert_eq!(
        hard_safety_action(&now),
        Some(ActionPrimitive::Turn {
            direction: TurnDir::Left,
            intensity_permille: intensity_permille(0.7),
            duration_ms: 1_200
        })
    );
}

fn check_every_cliff_sensor() {
    for sensor in ["left", "front_left", "front_right", "right"] {
        let mut body = test_body(1.0, 1.0, 1.0, 100);
        match sensor {
            "left" => body.flags.cliff_left = true,
            "front_left" => body.flags.cliff_front_left = true,
            "front_right" => body.flags.cliff_front_right = true,
            "right" => body.flags.cliff_right = true,
            _ => unreachable!(),
        }
        let now = Now::blank(100, body.clone());

        assert_eq!(
            hard_safety_action(&now),
            Some(ActionPrimitive::Stop),
            "{sensor}"
        );
        assert_eq!(
            real_slow_body_block_reason(&body).as_deref(),
            Some("cliff sensor active"),
            "{sensor}"
        );
    }
}

#[test]
fn lib_tests_bump_left_chooses_rightward_escape() {
    check_bump_left();
}

#[test]
fn lib_tests_bump_right_chooses_leftward_escape() {
    check_bump_right();
}

#[test]
fn lib_tests_every_cliff_sensor_selects_stop_before_hardware_gate() {
    check_every_cliff_sensor();
}

#[test]
fn integration_bump_left_chooses_rightward_escape() {
    check_bump_left();
}

#[test]
fn integration_bump_right_chooses_leftward_escape() {
    check_bump_right();
}

#[test]
fn integration_every_cliff_sensor_selects_stop_before_hardware_gate() {
    check_every_cliff_sensor();
}

#[test]
fn stuck_bump_left_chooses_rightward_escape() {
    check_bump_left();
}

#[test]
fn stuck_bump_right_chooses_leftward_escape() {
    check_bump_right();
}

#[test]
fn stuck_every_cliff_sensor_selects_stop_before_hardware_gate() {
    check_every_cliff_sensor();
}

#[test]
fn quiet_body_demands_no_reflex() {
    let now = Now::blank(100, test_body(1.0, 1.0, 1.0, 100));
    assert_eq!(hard_safety_action(&now), None);
}

#[test]
fn wheel_drop_stops_even_while_bumping() {
    let mut body = test_body(0.0, 0.0, 0.5, 100);
    body.flags.wheel_drop = true;
    body.flags.bump_left = true;
    assert_eq!(hard_safety_action(&Now::blank(100, body)), Some(ActionPrimitive::Stop));
}

#[test]
fn cliff_beats_bump_in_reflex_order() {
    let mut body = test_body(0.0, 0.0, 0.5, 100);
    body.flags.cliff_right = true;
    body.flags.bump_right = true;
    assert_eq!(hard_safety_action(&Now::blank(100, body)), Some(ActionPrimitive::Stop));
}
