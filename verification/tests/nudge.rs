use pete_runtime::actions::{ActionPrimitive, TurnDir};
use pete_runtime::body::BodySense;
use pete_runtime::now::Now;
use pete_runtime::nudge::{nudge_action_block_reason, NudgeController, NudgePolicy};

fn mm(x_m: f32) -> u32 {
    (x_m * 1000.0).round() as u32
}

fn idle_now(t_ms: u64) -> Now {
    let mut body = BodySense::default();
    body.last_update_ms = t_ms;
    let mut now = Now::blank(t_ms, body);
    now.range.nearest_mm = Some(mm(1.0));
    now.range.beams_mm = vec![mm(1.0), mm(1.0), mm(1.0)];
    now
}

fn prime_idle(controller: &mut NudgeController, now: &Now, policy: NudgePolicy) {
    let mut first = now.clone();
    first.t_ms = now.t_ms.saturating_sub(policy.idle_after_ms);
    first.body.last_update_ms = first.t_ms;
    assert!(controller.propose(&first, policy).is_none());
}

fn check_nudge_refuses_wheel_drop() {
    let policy = NudgePolicy::virtual_default();
    let mut controller = NudgeController::default();
    let mut now = idle_now(5_000);
    now.body.flags.wheel_drop = true;
    prime_idle(&mut controller, &now, policy);

    assert!(controller.propose(&now, policy).is_none());
    assert_eq!(
        controller.status.nudge_blocked_reason.as_deref(),
        Some("wheel drop detected")
    );
}

fn check_nudge_refuses_critical_battery() {
    let policy = NudgePolicy::virtual_default();
    let mut controller = NudgeController::default();
    let mut now = idle_now(5_000);
    now.body.battery_permille = 50;
    prime_idle(&mut controller, &now, policy);

    assert!(controller.propose(&now, policy).is_none());
    assert_eq!(
        controller.status.nudge_blocked_reason.as_deref(),
        Some("battery is critical")
    );
}

fn check_nudge_avoids_forward_when_obstacle_too_close() {
    let policy = NudgePolicy::virtual_default();
    let mut now = idle_now(5_000);
    now.range.nearest_mm = Some(mm(0.2));
    let action = ActionPrimitive::Go {
        intensity_permille: 120,
        duration_ms: 500,
    };

    assert!(nudge_action_block_reason(&now, &action, policy)
        .unwrap()
        .contains("clearance"));
}

fn check_turn_nudge_allowed_when_forward_path_blocked() {
    let policy = NudgePolicy::virtual_default();
    let mut controller = NudgeController::default();
    let mut now = idle_now(5_000);
    now.range.nearest_mm = Some(mm(0.2));
    now.range.beams_mm = vec![mm(0.2), mm(0.2), mm(0.8)];
    prime_idle(&mut controller, &now, policy);

    let action = controller.propose(&now, policy).unwrap();
    assert!(matches!(
        action,
        ActionPrimitive::Turn {
            direction: TurnDir::Right,
            ..
        }
    ));
}

fn check_nudge_cooldown_prevents_repeated_twitching() {
    let policy = NudgePolicy::virtual_default();
    let mut controller = NudgeController::default();
    let now = idle_now(5_000);
    prime_idle(&mut controller, &now, policy);
    assert!(controller.propose(&now, policy).is_some());

    let later = idle_now(6_000);
    assert!(controller.propose(&later, policy).is_none());
    assert_eq!(
        controller.status.nudge_blocked_reason.as_deref(),
        Some("prod cooldown active")
    );
}

#[test]
fn lib_tests_nudge_refuses_wheel_drop() {
    check_nudge_refuses_wheel_drop();
}

#[test]
fn sensing_models_nudge_refuses_wheel_drop() {
    check_nudge_refuses_wheel_drop();
}

#[test]
fn lib_tests_nudge_refuses_critical_battery() {
    check_nudge_refuses_critical_battery();
}

#[test]
fn sensing_models_nudge_refuses_critical_battery() {
    check_nudge_refuses_critical_battery();
}

#[test]
fn lib_tests_nudge_avoids_forward_when_obstacle_too_close() {
    check_nudge_avoids_forward_when_obstacle_too_close();
}

#[test]
fn sensing_models_nudge_avoids_forward_when_obstacle_too_close() {
    check_nudge_avoids_forward_when_obstacle_too_close();
}

#[test]
fn lib_tests_turn_nudge_allowed_when_forward_path_blocked() {
    check_turn_nudge_allowed_when_forward_path_blocked();
}

#[test]
fn sensing_models_turn_nudge_allowed_when_forward_path_blocked() {
    check_turn_nudge_allowed_when_forward_path_blocked();
}

#[test]
fn lib_tests_nudge_cooldown_prevents_repeated_twitching() {
    check_nudge_cooldown_prevents_repeated_twitching();
}

#[test]
fn sensing_models_nudge_cooldown_prevents_repeated_twitching() {
    check_nudge_cooldown_prevents_repeated_twitching();
}

#[test]
fn nudge_waits_for_the_idle_time() {
    let policy = NudgePolicy::virtual_default();
    let mut controller = NudgeController::default();
    assert!(controller.propose(&idle_now(1_000), policy).is_none());
    assert!(controller.propose(&idle_now(3_999), policy).is_none());
    assert_eq!(
        controller.status.nudge_blocked_reason.as_deref(),
        Some("not idle long enough")
    );
    assert_eq!(
        controller.propose(&idle_now(4_000), policy),
        Some(ActionPrimitive::Go { intensity_permille: 120, duration_ms: 500 })
    );
    assert_eq!(controller.status.nudges, 1);
    assert_eq!(controller.status.nudge_blocked_reason, None);
}

#[test]
fn moving_body_restarts_the_idle_time() {
    let policy = NudgePolicy::virtual_default();
    let mut controller = NudgeController::default();
    assert!(controller.propose(&idle_now(1_000), policy).is_none());
    let mut moved = idle_now(3_500);
    moved.body.odometry.x_mm = 40;
    assert!(controller.propose(&moved, policy).is_none());
    let mut still = idle_now(4_500);
    still.body.odometry.x_mm = 40;
    assert!(controller.propose(&still, policy).is_none());
    assert_eq!(controller.status.idle_since_ms, Some(3_500));
    let mut later = idle_now(6_500);
    later.body.odometry.x_mm = 40;
    assert!(controller.propose(&later, policy).is_some());
}

#[test]
fn nudge_comes_again_after_the_cooldown() {
    let policy = NudgePolicy::virtual_default();
    let mut controller = NudgeController::default();
    assert!(controller.propose(&idle_now(0), policy).is_none());
    assert!(controller.propose(&idle_now(3_000), policy).is_some());
    assert!(controller.propose(&idle_now(12_999), policy).is_none());
    assert!(controller.propose(&idle_now(13_000), policy).is_some());
    assert_eq!(controller.status.nudges, 2);
}

#[test]
fn blocked_turn_defaults_left_without_beams() {
    let policy = NudgePolicy::virtual_default();
    let mut controller = NudgeController::default();
    let mut now = idle_now(5_000);
    now.range.nearest_mm = Some(100);
    now.range.beams_mm = Vec::new();
    prime_idle(&mut controller, &now, policy);
    assert_eq!(
        controller.propose(&now, policy),
        Some(ActionPrimitive::Turn { direction: TurnDir::Left, intensity_permille: 250, duration_ms: 500 })
    );
}

#[test]
fn cliff_blocks_every_nudge_action() {
    let policy = NudgePolicy::virtual_default();
    let mut now = idle_now(5_000);
    now.body.flags.cliff_front_left = true;
    let turn = ActionPrimitive::Turn { direction: TurnDir::Left, intensity_permille: 250, duration_ms: 500 };
    assert_eq!(
        nudge_action_block_reason(&now, &turn, policy).as_deref(),
        Some("cliff sensor active")
    );
}

#[test]
fn backward_creep_needs_no_forward_clearance() {
    let policy = NudgePolicy::virtual_default();
    let mut now = idle_now(5_000);
    now.range.nearest_mm = Some(50);
    let back = ActionPrimitive::Go { intensity_permille: -120, duration_ms: 500 };
    assert_eq!(nudge_action_block_reason(&now, &back, policy), None);
}
