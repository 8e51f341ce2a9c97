use pete_runtime::actions::{arena, ActionPrimitive, ExploreStyle};
use pete_runtime::body::BodySense;
use pete_runtime::stuck::{
    Spot, StuckRecoveryController, TrapKind, WorldSnapshot, STUCK_LOW_DISPLACEMENT_TICKS,
};

fn mm(x_m: f32) -> i64 {
    (x_m * 1000.0).round() as i64
}

fn test_body(x_m: f32, y_m: f32, battery_level: f32, last_update_ms: u64) -> BodySense {
    let mut body = BodySense::default();
    body.odometry.x_mm = mm(x_m);
    body.odometry.y_mm = mm(y_m);
    body.battery_permille = (battery_level * 1000.0).round() as u32;
    body.last_update_ms = last_update_ms;
    body
}

fn stuck_test_snapshot(x_m: f32, y_m: f32, battery_level: f32) -> WorldSnapshot {
    let mut snapshot = WorldSnapshot::default();
    snapshot.body = test_body(x_m, y_m, battery_level, 100);
    snapshot.range.nearest_mm = Some(120);
    snapshot.range.beams_mm = vec![50, 80, 100, 90, 50];
    snapshot.arena = Some(arena());
    snapshot
}

fn explore() -> ActionPrimitive {
    ActionPrimitive::Explore {
        style: ExploreStyle::RandomWalk,
        duration_ms: 1_000,
    }
}

fn check_rolling_low_displacement_window() {
    let mut detector = StuckRecoveryController::default();
    let action = explore();

    for _ in 0..=STUCK_LOW_DISPLACEMENT_TICKS {
        detector.observe(&stuck_test_snapshot(0.2, 0.2, 1.0), Some(&action));
    }

    let status = detector.status();
    assert!(status.active);
    assert!(status.corner_trap);
    assert_eq!(status.stuck_ticks, STUCK_LOW_DISPLACEMENT_TICKS);
    assert!(status.event_started);
    assert_eq!(status.recovery_attempts, 1);
    assert_eq!(status.duration_ticks, 1);
    assert!(!status.reset_due);
}

fn check_recovered_event_reports_attempt_and_duration() {
    let mut detector = StuckRecoveryController::default();
    let action = explore();

    for _ in 0..=STUCK_LOW_DISPLACEMENT_TICKS {
        detector.observe(&stuck_test_snapshot(0.2, 0.2, 1.0), Some(&action));
    }
    detector.observe(&stuck_test_snapshot(0.2, 0.2, 1.0), Some(&action));
    detector.observe(&stuck_test_snapshot(0.3, 0.2, 1.0), Some(&action));
    let status = detector.status();
    assert!(!status.active);
    assert!(status.recovered);
    assert_eq!(status.recovery_attempts, 1);
    assert!(status.duration_ticks >= 2);

    let extension = detector.extension(100);
    assert_eq!(extension.values.get(7).copied(), Some(1));
    assert_eq!(extension.values.get(11).copied(), Some(1));
    assert!(extension.values.get(3).copied().unwrap_or_default() >= 200);
}

fn check_repeated_stuck_escalates_recovery() {
    let mut detector = StuckRecoveryController::default();
    let action = explore();

    for _ in 0..=STUCK_LOW_DISPLACEMENT_TICKS {
        detector.observe(&stuck_test_snapshot(0.2, 0.2, 1.0), Some(&action));
    }
    detector.finish_recovery_success();
    detector.clearance_mm = Some(100);
    detector.recovery_attempts = 1;
    detector.trap_anchor = Some(Spot { x_mm: mm(0.2), y_mm: mm(0.2) });

    for _ in 0..=STUCK_LOW_DISPLACEMENT_TICKS {
        detector.observe(&stuck_test_snapshot(0.2, 0.2, 1.0), Some(&action));
    }
    let mut snapshot = stuck_test_snapshot(0.2, 0.2, 1.0);
    detector.annotate_snapshot(&mut snapshot, 100);

    let status = detector.status();
    assert!(!status.reset_due);
    assert!(status.active);
    assert_eq!(status.repeated_trap_count, 1);
    let values = &snapshot
        .extensions
        .iter()
        .find(|extension| extension.name == "sim.stuck")
        .unwrap()
        .values;
    assert_eq!(values.get(9).copied(), Some(0));
    assert_eq!(values.get(12).copied(), Some(1));
}

fn check_dead_battery_reported_without_recovery() {
    let mut detector = StuckRecoveryController::default();
    let action = explore();

    for _ in 0..=STUCK_LOW_DISPLACEMENT_TICKS {
        detector.observe(&stuck_test_snapshot(0.2, 0.2, 0.0), Some(&action));
    }
    let mut snapshot = stuck_test_snapshot(0.2, 0.2, 0.0);
    detector.annotate_snapshot(&mut snapshot, 100);

    let status = detector.status();
    assert!(status.dead_battery);
    assert!(!status.active);
    let values = &snapshot
        .extensions
        .iter()
        .find(|extension| extension.name == "sim.stuck")
        .unwrap()
        .values;
    assert_eq!(values.get(8).copied(), Some(1));
}

fn check_stopped_column_trap_triggers() {
    let mut detector = StuckRecoveryController::default();
    let action = ActionPrimitive::Stop;

    for _ in 0..=STUCK_LOW_DISPLACEMENT_TICKS {
        detector.observe(&stuck_test_snapshot(2.0, 2.0, 1.0), Some(&action));
    }

    let status = detector.status();
    assert!(status.active);
    assert_eq!(status.trap_kind, TrapKind::Column);
    assert_eq!(status.stuck_ticks, STUCK_LOW_DISPLACEMENT_TICKS);
}

#[test]
fn lib_tests_stuck_detector_uses_rolling_low_displacement_window() {
    check_rolling_low_displacement_window();
}

#[test]
fn integration_stuck_detector_uses_rolling_low_displacement_window() {
    check_rolling_low_displacement_window();
}

#[test]
fn stuck_stuck_detector_uses_rolling_low_displacement_window() {
    check_rolling_low_displacement_window();
}

#[test]
fn lib_tests_recovered_stuck_event_reports_attempt_and_duration() {
    check_recovered_event_reports_attempt_and_duration();
}

#[test]
fn integration_recovered_stuck_event_reports_attempt_and_duration() {
    check_recovered_event_reports_attempt_and_duration();
}

#[test]
fn stuck_recovered_stuck_event_reports_attempt_and_duration() {
    check_recovered_event_reports_attempt_and_duration();
}

#[test]
fn lib_tests_repeated_stuck_escalates_recovery_instead_of_resetting() {
    check_repeated_stuck_escalates_recovery();
}

#[test]
fn integration_repeated_stuck_escalates_recovery_instead_of_resetting() {
    check_repeated_stuck_escalates_recovery();
}

#[test]
fn stuck_repeated_stuck_escalates_recovery_instead_of_resetting() {
    check_repeated_stuck_escalates_recovery();
}

#[test]
fn lib_tests_dead_battery_state_is_reported_without_starting_recovery() {
    check_dead_battery_reported_without_recovery();
}

#[test]
fn integration_dead_battery_state_is_reported_without_starting_recovery() {
    check_dead_battery_reported_without_recovery();
}

#[test]
fn stuck_dead_battery_state_is_reported_without_starting_recovery() {
    check_dead_battery_reported_without_recovery();
}

#[test]
fn lib_tests_stopped_column_trap_still_triggers_stuck_recovery() {
    check_stopped_column_trap_triggers();
}

#[test]
fn integration_stopped_column_trap_still_triggers_stuck_recovery() {
    check_stopped_column_trap_triggers();
}

#[test]
fn stuck_stopped_column_trap_still_triggers_stuck_recovery() {
    check_stopped_column_trap_triggers();
}

#[test]
fn stopped_in_the_open_is_not_stuck() {
    let mut detector = StuckRecoveryController::default();
    let mut snapshot = stuck_test_snapshot(2.0, 2.0, 1.0);
    snapshot.range.nearest_mm = Some(2_000);
    for _ in 0..20 {
        detector.observe(&snapshot, Some(&ActionPrimitive::Stop));
    }
    assert!(!detector.status().active);
    assert_eq!(detector.status().stuck_ticks, 0);
}

#[test]
fn wall_trap_is_told_from_corner() {
    let mut detector = StuckRecoveryController::default();
    let action = explore();
    for _ in 0..=STUCK_LOW_DISPLACEMENT_TICKS {
        detector.observe(&stuck_test_snapshot(2.0, 0.2, 1.0), Some(&action));
    }
    let status = detector.status();
    assert!(status.active);
    assert_eq!(status.trap_kind, TrapKind::Wall);
    assert!(!status.corner_trap);
}

#[test]
fn creeping_within_the_margin_still_counts_as_stuck() {
    let mut detector = StuckRecoveryController::default();
    let action = explore();
    for i in 0..=STUCK_LOW_DISPLACEMENT_TICKS {
        let x = 2.0 + 0.005 * i as f32;
        detector.observe(&stuck_test_snapshot(x, 2.0, 1.0), Some(&action));
    }
    assert!(detector.status().active);
}

#[test]
fn too_many_attempts_make_a_reset_due() {
    let mut detector = StuckRecoveryController::default();
    let action = explore();
    for attempt in 1..=4u64 {
        for _ in 0..=STUCK_LOW_DISPLACEMENT_TICKS {
            detector.observe(&stuck_test_snapshot(1.0, 1.0, 1.0), Some(&action));
        }
        assert_eq!(detector.status().recovery_attempts, attempt);
        assert_eq!(detector.status().reset_due, attempt > 3);
        assert_eq!(detector.status().repeated_trap_count, attempt - 1);
        detector.finish_recovery_success();
    }
    assert_eq!(detector.clearance_mm, Some(120));
}

#[test]
fn extension_reports_every_field() {
    let mut detector = StuckRecoveryController::default();
    let action = explore();
    for _ in 0..=STUCK_LOW_DISPLACEMENT_TICKS {
        detector.observe(&stuck_test_snapshot(0.2, 0.2, 1.0), Some(&action));
    }
    let ext = detector.extension(100);
    assert_eq!(ext.schema_version, 1);
    assert_eq!(ext.name, "sim.stuck");
    assert_eq!(ext.values, vec![1, 1, 6, 100, 1, 2, 1, 0, 0, 0, -1, 1, 0]);
}
