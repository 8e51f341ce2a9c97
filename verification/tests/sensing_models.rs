use pete_runtime::actions::{default_candidate_actions, ActionPrimitive, InspectTarget};
use pete_runtime::body::body_sense_from_cockpit_status;
use pete_runtime::event_script::{
    bump_event_behavior, is_bump_lament_action, BehaviorRegime, BumpEventInput, EventScriptAction,
    FallbackPolicy,
};
use pete_runtime::status::StatusSummary;

fn recovery_actions(actions: &[EventScriptAction]) -> Vec<EventScriptAction> {
    actions
        .iter()
        .filter(|action| {
            matches!(
                action,
                EventScriptAction::Stop | EventScriptAction::Rotate { .. } | EventScriptAction::Go
            )
        })
        .cloned()
        .collect::<Vec<_>>()
}

#[test]
fn sensing_models_bump_script_hardcoded_returns_escape_sequence() {
    let mut behavior = bump_event_behavior(
        BehaviorRegime::Hardcoded,
        Some("event.bump.shadow.v0".to_string()),
        FallbackPolicy::UseHardcoded,
    );

    let run = behavior.infer(&BumpEventInput::default(), 10).unwrap();

    assert!(run.chosen.actions.iter().any(is_bump_lament_action));
    assert_eq!(
        recovery_actions(&run.chosen.actions),
        vec![
            EventScriptAction::Stop,
            EventScriptAction::Rotate { deg: 180 },
            EventScriptAction::Go,
        ]
    );
}

#[test]
fn sensing_models_bump_script_shadow_train_returns_teacher_and_observes_model() {
    let mut behavior = bump_event_behavior(
        BehaviorRegime::ShadowTrain,
        Some("event.bump.shadow.v0".to_string()),
        FallbackPolicy::UseHardcoded,
    );

    let run = behavior.infer(&BumpEventInput::default(), 10).unwrap();

    assert!(run.chosen.actions.iter().any(is_bump_lament_action));
    assert_eq!(
        recovery_actions(&run.chosen.actions),
        vec![
            EventScriptAction::Stop,
            EventScriptAction::Rotate { deg: 180 },
            EventScriptAction::Go,
        ]
    );
    assert!(run.training_sample_emitted);
    assert_eq!(run.record.hardcoded_output, Some(run.chosen));
}

#[test]
fn sensing_models_default_candidates_include_novelty_inspection() {
    assert!(default_candidate_actions().iter().any(|action| {
        matches!(
            action,
            ActionPrimitive::Inspect {
                target: InspectTarget::Novelty
            }
        )
    }));
}

#[test]
fn sensing_models_physical_charging_indicator_populates_body_charging_without_oi_state() {
    let status = StatusSummary::from_raw(
        r#"{"uptime_ms":1000,"current_runtime_state":"idle","oi_mode":"safe","create_sensors":{"last_packet_id":0,"complete_packet_count":1,"last_complete_packet_timestamp_ms":1000,"charging_state":0,"charging_indicator":"on"}}"#,
    );

    let body = body_sense_from_cockpit_status(status, 123);

    assert!(body.charging);
    assert_eq!(body.last_update_ms, 123);
}

#[test]
fn brainstem_pose_odometry_reaches_body_sense_without_distance_as_x() {
    let status = StatusSummary::from_raw(
        r#"{"uptime_ms":1000,"create_sensors":{"last_packet_id":0,"complete_packet_count":1,"last_complete_packet_timestamp_ms":1000},"odometry":{"distance_mm":900,"x_mm":300,"y_mm":-400,"heading_mrad":1250}}"#,
    );

    let body = body_sense_from_cockpit_status(status, 1_000);

    assert_eq!(body.odometry.x_mm as f64 / 1000.0, 0.3);
    assert_eq!(body.odometry.y_mm as f64 / 1000.0, -0.4);
    assert_eq!(body.odometry.heading_mrad as f64 / 1000.0, 1.25);
}

#[test]
fn pre_pose_brainstem_odometry_contract_remains_accepted() {
    let status =
        StatusSummary::from_raw("OK 1 STATUS odometry_distance_mm=425 odometry_heading_mrad=-250");

    let body = body_sense_from_cockpit_status(status, 1_000);

    // A stateless conversion cannot recover the path behind a cumulative
    // distance value, so it must not invent global X displacement.
    assert_eq!(body.odometry.x_mm as f64 / 1000.0, 0.0);
    assert_eq!(body.odometry.y_mm as f64 / 1000.0, 0.0);
    assert_eq!(body.odometry.heading_mrad as f64 / 1000.0, -0.25);
}

#[test]
fn sensing_models_create_ir_reaches_motherbrain_body_sense() {
    let status = StatusSummary::from_raw(
        r#"{"uptime_ms":1000,"create_sensors":{"last_packet_id":0,"complete_packet_count":1,"last_complete_packet_timestamp_ms":1000,"ir_byte":248}}"#,
    );

    let body = body_sense_from_cockpit_status(status, 123);

    assert_eq!(body.infrared_character, 248);
}

#[test]
fn sensing_models_home_base_contacts_do_not_become_upstream_collision_evidence() {
    let status = StatusSummary::from_raw(
        r#"{"uptime_ms":1000,"current_runtime_state":"idle","create_sensors":{"last_packet_id":0,"complete_packet_count":1,"last_complete_packet_timestamp_ms":1000,"charging_sources":2,"bump_left":true,"bump_right":true,"cliff_left":true,"cliff_front_left":true,"cliff_front_right":true,"cliff_right":true,"wheel_drop":true}}"#,
    );

    let body = body_sense_from_cockpit_status(status, 123);

    assert!(!body.flags.bump_left);
    assert!(!body.flags.bump_right);
    assert!(!body.flags.cliff_left);
    assert!(!body.flags.cliff_front_left);
    assert!(!body.flags.cliff_front_right);
    assert!(!body.flags.cliff_right);
    assert!(body.flags.wheel_drop);
}

#[test]
fn sensing_models_identical_contacts_off_home_base_remain_collision_evidence() {
    let status = StatusSummary::from_raw(
        r#"{"uptime_ms":1000,"current_runtime_state":"idle","create_sensors":{"last_packet_id":0,"complete_packet_count":1,"last_complete_packet_timestamp_ms":1000,"charging_sources":0,"bump_left":true,"cliff_front_left":true}}"#,
    );

    let body = body_sense_from_cockpit_status(status, 123);

    assert!(body.flags.bump_left);
    assert!(body.flags.cliff_front_left);
}

#[test]
fn sensing_models_incomplete_create_packet_never_refreshes_body_timestamp() {
    let status = StatusSummary::from_raw(
        r#"{"uptime_ms":2000,"last_uart_packet_timestamp_ms":1990,"uart_rx_packets":4,"current_runtime_state":"idle","create_sensors":{"last_packet_id":35,"complete_packet_count":0}}"#,
    );

    assert_eq!(
        body_sense_from_cockpit_status(status, 10_000).last_update_ms,
        0
    );
}

#[test]
fn json_odometry_reset_count_is_read() {
    let status = pete_runtime::status::StatusSummary::from_raw(
        r#"{"odometry":{"distance_mm":900,"reset_count":3}}"#,
    );
    assert_eq!(status.odometry_resets, Some(3));
    assert_eq!(status.odometry_distance_mm, Some(900));
}
