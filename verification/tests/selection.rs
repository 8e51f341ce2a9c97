use pete_runtime::actions::{ActionPrimitive, ApproachTarget, InspectTarget, TurnDir};
use pete_runtime::body::BodySense;
use pete_runtime::now::Now;
use pete_runtime::actions::default_candidate_actions;
use pete_runtime::selection::{
    score_action_candidate, score_candidates, select_action_from_scores, ActionSelectionCandidateScore,
    ActionSelectorMode, ActionValueOutput, CandidateModelSignals, ChargeOutput, DangerOutput,
};

fn permille(x: f32) -> i32 {
    (x * 1000.0).round() as i32
}

fn unit(x: f32) -> u32 {
    (x * 1000.0).round() as u32
}

fn mm(x_m: f32) -> u32 {
    (x_m * 1000.0).round() as u32
}

fn score(x: f32) -> i64 {
    (x * 1000.0).round() as i64
}

fn idle_now(t_ms: u64) -> Now {
    let mut body = BodySense::default();
    body.last_update_ms = t_ms;
    let mut now = Now::blank(t_ms, body);
    now.range.nearest_mm = Some(mm(1.0));
    now
}

fn confident_signals() -> CandidateModelSignals {
    CandidateModelSignals {
        danger: Some(DangerOutput {
            confidence_permille: unit(1.0),
            ..Default::default()
        }),
        charge: Some(ChargeOutput {
            confidence_permille: unit(1.0),
            ..Default::default()
        }),
        action_value: Some(ActionValueOutput {
            confidence_permille: unit(1.0),
            ..Default::default()
        }),
    }
}

fn check_safety_override_beats_high_score_candidate() {
    let mut body = BodySense::default();
    body.flags.wheel_drop = true;
    let now = Now::blank(100, body);
    let baseline = ActionPrimitive::Go {
        intensity_permille: permille(0.15),
        duration_ms: 1_000,
    };
    let decision = select_action_from_scores(
        ActionSelectorMode::ModelAssisted,
        &now,
        baseline,
        vec![ActionSelectionCandidateScore {
            action: ActionPrimitive::Go {
                intensity_permille: permille(0.15),
                duration_ms: 1_000,
            },
            score: score(10.0),
            ..ActionSelectionCandidateScore::default()
        }],
    );

    assert_eq!(decision.selected_action, Some(ActionPrimitive::Stop));
    assert!(decision.safety_overrode);
}

fn check_does_not_yield_to_close_range_alone() {
    let body = BodySense::default();
    let mut now = Now::blank(100, body);
    now.range.nearest_mm = Some(mm(0.12));
    let baseline = ActionPrimitive::Go {
        intensity_permille: permille(-0.18),
        duration_ms: 300,
    };
    let decision = select_action_from_scores(
        ActionSelectorMode::ModelAssisted,
        &now,
        baseline.clone(),
        vec![ActionSelectionCandidateScore {
            action: ActionPrimitive::Turn {
                direction: TurnDir::Right,
                intensity_permille: permille(0.25),
                duration_ms: 750,
            },
            score: score(10.0),
            ..ActionSelectionCandidateScore::default()
        }],
    );

    assert_ne!(decision.selected_action, Some(baseline));
    assert!(!decision.safety_overrode);
    assert!(decision.fallback_warnings.is_empty());
}

fn check_close_range_scores_baseline_recovery_candidate() {
    let body = BodySense::default();
    let mut now = Now::blank(100, body);
    now.range.nearest_mm = Some(mm(0.12));
    let baseline = ActionPrimitive::Turn {
        direction: TurnDir::Left,
        intensity_permille: permille(0.75),
        duration_ms: 500,
    };
    let model_signals = confident_signals();

    let recovery = score_action_candidate(&now, &baseline, model_signals, Some(&baseline));
    let default_turn = score_action_candidate(
        &now,
        &ActionPrimitive::Turn {
            direction: TurnDir::Right,
            intensity_permille: permille(0.25),
            duration_ms: 750,
        },
        model_signals,
        Some(&baseline),
    );

    assert!(recovery.score > default_turn.score);
    assert!(!recovery.fallback_used);
}

fn check_scoring_prefers_charger_when_charge_value_is_high() {
    let now = Now::blank(100, BodySense::default());
    let stop = score_action_candidate(
        &now,
        &ActionPrimitive::Stop,
        CandidateModelSignals::default(),
        None,
    );
    let charger = score_action_candidate(
        &now,
        &ActionPrimitive::Approach {
            target: ApproachTarget::Charger,
        },
        CandidateModelSignals {
            charge: Some(ChargeOutput {
                charge_probability_permille: unit(0.8),
                expected_battery_delta_permille: permille(0.1),
                dock_likelihood_permille: unit(0.7),
                confidence_permille: unit(1.0),
            }),
            ..CandidateModelSignals::default()
        },
        None,
    );

    assert!(charger.score > stop.score);
}

fn check_scoring_avoids_high_danger_candidate() {
    let now = Now::blank(100, BodySense::default());
    let safe = score_action_candidate(
        &now,
        &ActionPrimitive::Stop,
        CandidateModelSignals::default(),
        None,
    );
    let dangerous = score_action_candidate(
        &now,
        &ActionPrimitive::Go {
            intensity_permille: permille(0.15),
            duration_ms: 1_000,
        },
        CandidateModelSignals {
            danger: Some(DangerOutput {
                bump_risk_permille: unit(0.95),
                confidence_permille: unit(1.0),
                ..DangerOutput::default()
            }),
            ..CandidateModelSignals::default()
        },
        None,
    );

    assert!(safe.score > dangerous.score);
}

fn check_missing_model_signals_fall_back_with_warning() {
    let now = Now::blank(100, BodySense::default());
    let candidate = score_action_candidate(
        &now,
        &ActionPrimitive::Stop,
        CandidateModelSignals::default(),
        None,
    );
    let decision = select_action_from_scores(
        ActionSelectorMode::ModelAssisted,
        &now,
        ActionPrimitive::Stop,
        vec![candidate],
    );

    assert!(!decision.fallback_warnings.is_empty());
    assert!(decision.candidates[0].fallback_used);
}

fn check_curiosity_scores_inspection_above_stopping() {
    let mut now = idle_now(1_000);
    now.drives.curiosity_permille = unit(0.8);
    now.memory.place_novelty_permille = unit(0.7);

    let stop = score_action_candidate(
        &now,
        &ActionPrimitive::Stop,
        CandidateModelSignals::default(),
        None,
    );
    let inspect = score_action_candidate(
        &now,
        &ActionPrimitive::Inspect {
            target: InspectTarget::Novelty,
        },
        CandidateModelSignals::default(),
        None,
    );

    assert!(inspect.score > stop.score);
    assert!(inspect.curiosity > 0);
}

#[test]
fn experience_selection_model_assisted_safety_override_beats_high_score_candidate() {
    check_safety_override_beats_high_score_candidate();
}

#[test]
fn lib_tests_model_assisted_safety_override_beats_high_score_candidate() {
    check_safety_override_beats_high_score_candidate();
}

#[test]
fn experience_selection_model_assisted_does_not_yield_to_close_range_alone() {
    check_does_not_yield_to_close_range_alone();
}

#[test]
fn lib_tests_model_assisted_does_not_yield_to_close_range_alone() {
    check_does_not_yield_to_close_range_alone();
}

#[test]
fn experience_selection_close_range_scores_baseline_recovery_candidate() {
    check_close_range_scores_baseline_recovery_candidate();
}

#[test]
fn lib_tests_close_range_scores_baseline_recovery_candidate() {
    check_close_range_scores_baseline_recovery_candidate();
}

#[test]
fn experience_selection_scoring_prefers_charger_when_charge_value_is_high() {
    check_scoring_prefers_charger_when_charge_value_is_high();
}

#[test]
fn lib_tests_scoring_prefers_charger_when_charge_value_is_high() {
    check_scoring_prefers_charger_when_charge_value_is_high();
}

#[test]
fn experience_selection_scoring_avoids_high_danger_candidate() {
    check_scoring_avoids_high_danger_candidate();
}

#[test]
fn lib_tests_scoring_avoids_high_danger_candidate() {
    check_scoring_avoids_high_danger_candidate();
}

#[test]
fn experience_selection_missing_model_signals_fall_back_with_warning() {
    check_missing_model_signals_fall_back_with_warning();
}

#[test]
fn lib_tests_missing_model_signals_fall_back_with_warning() {
    check_missing_model_signals_fall_back_with_warning();
}

#[test]
fn lib_tests_curiosity_scores_inspection_above_stopping() {
    check_curiosity_scores_inspection_above_stopping();
}

#[test]
fn sensing_models_curiosity_scores_inspection_above_stopping() {
    check_curiosity_scores_inspection_above_stopping();
}

#[test]
fn approach_scores_above_dock_when_docking_is_unlikely() {
    let mut now = Now::blank(100, BodySense::default());
    now.body.battery_permille = unit(0.15);
    now.memory.place_charge_value_permille = unit(0.7);
    let signals = CandidateModelSignals {
        charge: Some(ChargeOutput {
            charge_probability_permille: unit(0.85),
            expected_battery_delta_permille: permille(0.02),
            dock_likelihood_permille: unit(0.35),
            confidence_permille: unit(1.0),
        }),
        action_value: Some(ActionValueOutput {
            value_permille: permille(0.1),
            confidence_permille: unit(1.0),
        }),
        ..CandidateModelSignals::default()
    };
    let approach = score_action_candidate(
        &now,
        &ActionPrimitive::Approach { target: ApproachTarget::Charger },
        signals,
        None,
    );
    let dock = score_action_candidate(&now, &ActionPrimitive::Dock, signals, None);
    // need 850 * 700 / 1000 = 595, value 100, delta 20
    assert_eq!(approach.score, 595 + 850 + 20 + 100);
    assert_eq!(dock.score, 595 + 297 + 20 + 100);
    assert!(approach.score > dock.score);
}

#[test]
fn danger_score_is_twice_the_confident_risk() {
    let now = Now::blank(100, BodySense::default());
    let signals = CandidateModelSignals {
        danger: Some(DangerOutput {
            bump_risk_permille: 400,
            cliff_risk_permille: 600,
            confidence_permille: 500,
        }),
        ..CandidateModelSignals::default()
    };
    let go = score_action_candidate(
        &now,
        &ActionPrimitive::Go { intensity_permille: 200, duration_ms: 500 },
        signals,
        None,
    );
    assert_eq!(go.danger, 600);
    assert_eq!(go.score, -600);
    let chirp = score_action_candidate(
        &now,
        &ActionPrimitive::Stop,
        signals,
        None,
    );
    assert_eq!(chirp.danger, 0);
}

#[test]
fn negative_value_rounds_toward_zero() {
    let now = Now::blank(100, BodySense::default());
    let signals = CandidateModelSignals {
        action_value: Some(ActionValueOutput { value_permille: -333, confidence_permille: 500 }),
        ..CandidateModelSignals::default()
    };
    let stop = score_action_candidate(&now, &ActionPrimitive::Stop, signals, None);
    assert_eq!(stop.action_value, -166);
}

#[test]
fn over_unity_inputs_are_capped() {
    let mut now = Now::blank(100, BodySense::default());
    now.drives.curiosity_permille = 5_000;
    now.memory.place_novelty_permille = 2_000;
    let inspect = score_action_candidate(
        &now,
        &ActionPrimitive::Inspect { target: InspectTarget::Novelty },
        CandidateModelSignals::default(),
        None,
    );
    assert_eq!(inspect.curiosity, 1000);
}

#[test]
fn model_assisted_picks_earliest_best_candidate() {
    let now = Now::blank(100, BodySense::default());
    let cands = vec![
        ActionSelectionCandidateScore { action: ActionPrimitive::Stop, score: 5, ..ActionSelectionCandidateScore::default() },
        ActionSelectionCandidateScore { action: ActionPrimitive::Dock, score: 9, ..ActionSelectionCandidateScore::default() },
        ActionSelectionCandidateScore { action: ActionPrimitive::Go { intensity_permille: 1, duration_ms: 1 }, score: 9, ..ActionSelectionCandidateScore::default() },
    ];
    let d = select_action_from_scores(ActionSelectorMode::ModelAssisted, &now, ActionPrimitive::Stop, cands);
    assert_eq!(d.selected_action, Some(ActionPrimitive::Dock));
    assert_eq!(d.selected_score, Some(9));
    assert!(!d.safety_overrode);
}

#[test]
fn baseline_mode_follows_the_conductor() {
    let now = Now::blank(100, BodySense::default());
    let cands = vec![ActionSelectionCandidateScore { action: ActionPrimitive::Dock, score: 9_000, ..ActionSelectionCandidateScore::default() }];
    let d = select_action_from_scores(ActionSelectorMode::Baseline, &now, ActionPrimitive::Stop, cands);
    assert_eq!(d.selected_action, Some(ActionPrimitive::Stop));
    assert_eq!(d.selected_score, None);
}

#[test]
fn bump_reflex_overrides_model_choice() {
    let mut body = BodySense::default();
    body.flags.bump_right = true;
    let now = Now::blank(100, body);
    let cands = vec![ActionSelectionCandidateScore { action: ActionPrimitive::Dock, score: 9_000, ..ActionSelectionCandidateScore::default() }];
    let d = select_action_from_scores(ActionSelectorMode::ModelAssisted, &now, ActionPrimitive::Stop, cands);
    assert_eq!(
        d.selected_action,
        Some(ActionPrimitive::Turn { direction: TurnDir::Left, intensity_permille: 700, duration_ms: 1_200 })
    );
    assert!(d.safety_overrode);
}

#[test]
fn default_candidates_scored_and_selected_end_to_end() {
    let mut now = idle_now(1_000);
    now.drives.curiosity_permille = 800;
    now.memory.place_novelty_permille = 700;
    let actions = default_candidate_actions();
    let signals = vec![confident_signals(); actions.len()];
    let scored = score_candidates(&now, &actions, &signals, None);
    assert_eq!(scored.len(), actions.len());
    assert!(scored.iter().all(|c| !c.fallback_used));
    let decision = select_action_from_scores(
        ActionSelectorMode::ModelAssisted,
        &now,
        ActionPrimitive::Stop,
        scored,
    );
    assert_eq!(
        decision.selected_action,
        Some(ActionPrimitive::Inspect { target: InspectTarget::Novelty })
    );
    assert_eq!(decision.selected_score, Some(560));
    assert!(decision.fallback_warnings.is_empty());
}
