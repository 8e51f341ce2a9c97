use pete_runtime::actions::{action_value_candidate_actions, ActionPrimitive, ApproachTarget, LlmTickResult};
use pete_runtime::body::{body_sense_from_cockpit_status, real_slow_body_block_reason, BodySense};
use pete_runtime::status::StatusSummary;

#[test]
fn experience_selection_cockpit_charging_indicator_sets_body_charging() {
    let status = StatusSummary::from_raw(
        r#"{"create_sensors":{"charging_state":0,"charging_indicator":"on","charge_mah":1300,"capacity_mah":2600}}"#,
    );

    let body = body_sense_from_cockpit_status(status, 42);

    assert!(body.charging);
    assert_eq!(body.battery_permille as f64 / 1000.0, 0.5);
    assert_eq!(body.last_update_ms, 42);
}

#[test]
fn experience_selection_real_slow_blocks_charging_body() {
    let mut body = BodySense::default();
    body.charging = true;

    assert_eq!(
        real_slow_body_block_reason(&body).as_deref(),
        Some("charging active")
    );
}

#[test]
fn experience_selection_charger_approach_is_a_default_action_value_candidate() {
    let candidates = action_value_candidate_actions(&[], None, &LlmTickResult::default());

    assert!(candidates.contains(&ActionPrimitive::Approach {
        target: ApproachTarget::Charger
    }));
}
