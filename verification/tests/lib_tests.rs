use pete_runtime::actions::{
    action_value_candidate_actions, default_candidate_actions, ActionPrimitive, ApproachTarget,
    ChirpPattern, InspectTarget, LlmTickResult,
};
use pete_runtime::body::{body_sense_from_cockpit_status, real_slow_body_block_reason, BodySense};
use pete_runtime::event_script::{
    bump_event_behavior, is_bump_lament_action, BehaviorRegime, BumpEventInput, EventScriptAction,
    FallbackPolicy, RobotInitializedEventInput, RobotInitializedScriptBehavior,
};
use pete_runtime::reign::{test_reign_input, ReignCommand, ReignMode, ReignQueue};
use pete_runtime::sensor_health::{record_optional_sensor_failure, SensorPollHealth};
use pete_runtime::status::StatusSummary;

fn recovery_actions(actions: &[EventScriptAction]) -> Vec<EventScriptAction> {
    actions
        .iter()
        .filter(|action| {
            matches!(
                action,
                EventScriptAction::Stop | EventScriptAction::Rotate { .. } | EventScriptAction::Go
            )
        })
        .cloned()
        .collect::<Vec<_>>()
}

#[test]
fn lib_tests_bump_script_hardcoded_returns_escape_sequence() {
    let mut behavior = bump_event_behavior(
        BehaviorRegime::Hardcoded,
        Some("event.bump.shadow.v0".to_string()),
        FallbackPolicy::UseHardcoded,
    );

    let run = behavior.infer(&BumpEventInput::default(), 10).unwrap();

    assert!(run.chosen.actions.iter().any(is_bump_lament_action));
    assert_eq!(
        recovery_actions(&run.chosen.actions),
        vec![
            EventScriptAction::Stop,
            EventScriptAction::Rotate { deg: 180 },
            EventScriptAction::Go,
        ]
    );
}

#[test]
fn lib_tests_bump_script_shadow_train_returns_teacher_and_observes_model() {
    let mut behavior = bump_event_behavior(
        BehaviorRegime::ShadowTrain,
        Some("event.bump.shadow.v0".to_string()),
        FallbackPolicy::UseHardcoded,
    );

    let run = behavior.infer(&BumpEventInput::default(), 10).unwrap();

    assert!(run.chosen.actions.iter().any(is_bump_lament_action));
    assert_eq!(
        recovery_actions(&run.chosen.actions),
        vec![
            EventScriptAction::Stop,
            EventScriptAction::Rotate { deg: 180 },
            EventScriptAction::Go,
        ]
    );
    assert!(run.training_sample_emitted);
    assert_eq!(run.record.hardcoded_output, Some(run.chosen));
}

#[test]
fn lib_tests_default_candidates_include_novelty_inspection() {
    assert!(default_candidate_actions().iter().any(|action| {
        matches!(
            action,
            ActionPrimitive::Inspect {
                target: InspectTarget::Novelty
            }
        )
    }));
}

#[test]
fn lib_tests_optional_sensor_failures_are_reported_once_per_interval() {
    let mut health = SensorPollHealth {
        name: "kinect-depth".to_string(),
        ..SensorPollHealth::default()
    };

    record_optional_sensor_failure(&mut health, "offline".to_string(), 1_000);
    let first_report = health.last_report_ms;
    record_optional_sensor_failure(&mut health, "offline".to_string(), 2_000);
    assert_eq!(health.last_report_ms, first_report);
    assert_eq!(health.consecutive_failures, 2);
    record_optional_sensor_failure(&mut health, "offline".to_string(), 31_001);
    assert_eq!(health.last_report_ms, 31_001);
}

#[test]
fn lib_tests_cockpit_charging_indicator_sets_body_charging() {
    let status = StatusSummary::from_raw(
        r#"{"create_sensors":{"charging_state":0,"charging_indicator":"on","charge_mah":1300,"capacity_mah":2600}}"#,
    );

    let body = body_sense_from_cockpit_status(status, 42);

    assert!(body.charging);
    assert_eq!(body.battery_permille as f64 / 1000.0, 0.5);
    assert_eq!(body.last_update_ms, 42);
}

#[test]
fn lib_tests_physical_charging_indicator_populates_body_charging_without_oi_state() {
    let status = StatusSummary::from_raw(
        r#"{"uptime_ms":1000,"current_runtime_state":"idle","oi_mode":"safe","create_sensors":{"last_packet_id":0,"complete_packet_count":1,"last_complete_packet_timestamp_ms":1000,"charging_state":0,"charging_indicator":"on"}}"#,
    );

    let body = body_sense_from_cockpit_status(status, 123);

    assert!(body.charging);
    assert_eq!(body.last_update_ms, 123);
}

#[test]
fn lib_tests_create_ir_reaches_motherbrain_body_sense() {
    let status = StatusSummary::from_raw(
        r#"{"uptime_ms":1000,"create_sensors":{"last_packet_id":0,"complete_packet_count":1,"last_complete_packet_timestamp_ms":1000,"ir_byte":248}}"#,
    );

    let body = body_sense_from_cockpit_status(status, 123);

    assert_eq!(body.infrared_character, 248);
}

#[test]
fn lib_tests_home_base_contacts_do_not_become_upstream_collision_evidence() {
    let status = StatusSummary::from_raw(
        r#"{"uptime_ms":1000,"current_runtime_state":"idle","create_sensors":{"last_packet_id":0,"complete_packet_count":1,"last_complete_packet_timestamp_ms":1000,"charging_sources":2,"bump_left":true,"bump_right":true,"cliff_left":true,"cliff_front_left":true,"cliff_front_right":true,"cliff_right":true,"wheel_drop":true}}"#,
    );

    let body = body_sense_from_cockpit_status(status, 123);

    assert!(!body.flags.bump_left);
    assert!(!body.flags.bump_right);
    assert!(!body.flags.cliff_left);
    assert!(!body.flags.cliff_front_left);
    assert!(!body.flags.cliff_front_right);
    assert!(!body.flags.cliff_right);
    assert!(body.flags.wheel_drop);
}

#[test]
fn lib_tests_identical_contacts_off_home_base_remain_collision_evidence() {
    let status = StatusSummary::from_raw(
        r#"{"uptime_ms":1000,"current_runtime_state":"idle","create_sensors":{"last_packet_id":0,"complete_packet_count":1,"last_complete_packet_timestamp_ms":1000,"charging_sources":0,"bump_left":true,"cliff_front_left":true}}"#,
    );

    let body = body_sense_from_cockpit_status(status, 123);

    assert!(body.flags.bump_left);
    assert!(body.flags.cliff_front_left);
}

#[test]
fn lib_tests_incomplete_create_packet_never_refreshes_body_timestamp() {
    let status = StatusSummary::from_raw(
        r#"{"uptime_ms":2000,"last_uart_packet_timestamp_ms":1990,"uart_rx_packets":4,"current_runtime_state":"idle","create_sensors":{"last_packet_id":35,"complete_packet_count":0}}"#,
    );

    assert_eq!(
        body_sense_from_cockpit_status(status, 10_000).last_update_ms,
        0
    );
}

#[test]
fn lib_tests_real_slow_blocks_charging_body() {
    let mut body = BodySense::default();
    body.charging = true;

    assert_eq!(
        real_slow_body_block_reason(&body).as_deref(),
        Some("charging active")
    );
}

#[test]
fn lib_tests_charger_approach_is_a_default_action_value_candidate() {
    let candidates = action_value_candidate_actions(&[], None, &LlmTickResult::default());

    assert!(candidates.contains(&ActionPrimitive::Approach {
        target: ApproachTarget::Charger
    }));
}

#[test]
fn lib_tests_expired_reign_disappears_from_sense() {
    let mut queue = ReignQueue::default();
    queue.push(test_reign_input(
        100,
        ReignMode::Direct,
        ReignCommand::Stop,
        100,
    ));

    queue.drain_expired(250);
    let sense = queue.sense(250);

    assert!(!sense.active);
    assert!(sense.latest.is_none());
    assert_eq!(sense.pending_count, 0);
}

#[test]
fn lib_tests_clear_marks_reign_sense_for_event_extraction() {
    let mut queue = ReignQueue::default();
    queue.push(test_reign_input(
        100,
        ReignMode::Direct,
        ReignCommand::Stop,
        1_000,
    ));

    queue.clear();
    let sense = queue.sense(150);

    assert!(!sense.active);
    assert!(sense.latest.is_none());
    assert_eq!(sense.clear_sequence, 1);
}

#[test]
fn lib_tests_robot_initialized_typescript_behavior_emits_bringup_mouth_sequence() {
    let mut behavior = RobotInitializedScriptBehavior;
    let input = RobotInitializedEventInput {
        t_ms: 42,
        mode: "read-only".to_string(),
        body: "mock Create body connected".to_string(),
        battery_percent: Some(100),
        charging: Some(false),
        active_sensors: 2,
        requested_sensors: 3,
        ledger: "data/ledger/test".to_string(),
        tick_ms: 100,
        dashboard: Some("127.0.0.1:3000".to_string()),
        capture: None,
    };

    let output = behavior.infer(&input).unwrap();

    assert!(matches!(
        output.actions.first(),
        Some(EventScriptAction::Song { name }) if name == "bring_up"
    ));
    assert!(output.actions.iter().any(|action| matches!(
        action,
        EventScriptAction::Chirp {
            pattern: ChirpPattern::Confirm
        }
    )));
    assert!(output.actions.iter().any(|action| matches!(
        action,
        EventScriptAction::Say { text }
            if text.contains("Pete robot initialization complete")
    )));
}
