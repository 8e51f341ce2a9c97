use pete_runtime::actions::ChirpPattern;
use pete_runtime::event_script::{
    EventScriptAction, RobotInitializedEventInput, RobotInitializedScriptBehavior,
};

fn bring_up_input() -> RobotInitializedEventInput {
    RobotInitializedEventInput {
        t_ms: 42,
        mode: "read-only".to_string(),
        body: "mock Create body connected".to_string(),
        battery_percent: Some(100),
        charging: Some(false),
        active_sensors: 2,
        requested_sensors: 3,
        ledger: "data/ledger/test".to_string(),
        tick_ms: 100,
        dashboard: Some("127.0.0.1:3000".to_string()),
        capture: None,
    }
}

fn assert_bring_up_sequence(output_actions: &[EventScriptAction]) {
    assert!(matches!(
        output_actions.first(),
        Some(EventScriptAction::Song { name }) if name == "bring_up"
    ));
    assert!(output_actions.iter().any(|action| matches!(
        action,
        EventScriptAction::Chirp {
            pattern: ChirpPattern::Confirm
        }
    )));
    assert!(output_actions.iter().any(|action| matches!(
        action,
        EventScriptAction::Say { text }
            if text.contains("Pete robot initialization complete")
    )));
}

#[test]
fn integration_robot_initialized_typescript_behavior_emits_bringup_mouth_sequence() {
    let mut behavior = RobotInitializedScriptBehavior;
    let input = bring_up_input();

    let output = behavior.infer(&input).unwrap();

    assert_bring_up_sequence(&output.actions);
}

#[test]
fn stuck_robot_initialized_typescript_behavior_emits_bringup_mouth_sequence() {
    let mut behavior = RobotInitializedScriptBehavior;
    let input = bring_up_input();

    let output = behavior.infer(&input).unwrap();

    assert_bring_up_sequence(&output.actions);
}
