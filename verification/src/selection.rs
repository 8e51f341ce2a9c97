//! Action selection: each candidate action is scored from the learned model
//! signals and the current moment, and the selector either follows the
//! conductor's baseline action or, in model-assisted mode, the best scored
//! candidate. A reflex demanded by the body always overrides both.
//!
//! Scores and model outputs are fixed point, in thousandths; probabilities and
//! confidences above unity (1000) count as unity.

use vstd::prelude::*;
use crate::actions::{actions_match, ActionPrimitive, InspectTarget};
use crate::now::Now;
use crate::safety::{hard_safety_action, reflex_action};

verus! {

/// Nearest range return, in millimetres, below which the robot is boxed in
/// and the conductor's recovery action earns a bonus.
pub const CLOSE_RANGE_MM: u32 = 250;

/// How much a risk of harm weighs against the other terms of a score.
pub const DANGER_WEIGHT: i64 = 2;

/// Bonus of the conductor's recovery action while boxed in, in thousandths.
pub const RECOVERY_BONUS_PERMILLE: i64 = 500;

/// Risk of harm predicted for the next moments.
#[derive(Clone, Copy, Debug, PartialEq, Eq, Structural)]
pub struct DangerOutput {
    pub bump_risk_permille: u32,
    pub cliff_risk_permille: u32,
    pub confidence_permille: u32,
}

/// Predicted prospects of recharging.
#[derive(Clone, Copy, Debug, PartialEq, Eq, Structural)]
pub struct ChargeOutput {
    pub charge_probability_permille: u32,
    pub expected_battery_delta_permille: i32,
    pub dock_likelihood_permille: u32,
    pub confidence_permille: u32,
}

/// Predicted value of acting.
#[derive(Clone, Copy, Debug, PartialEq, Eq, Structural)]
pub struct ActionValueOutput {
    pub value_permille: i32,
    pub confidence_permille: u32,
}

/// The model outputs available to score one candidate; a missing one
/// contributes nothing and marks the score as a fallback.
#[derive(Clone, Copy, Debug, PartialEq, Eq, Structural)]
pub struct CandidateModelSignals {
    pub danger: Option<DangerOutput>,
    pub charge: Option<ChargeOutput>,
    pub action_value: Option<ActionValueOutput>,
}

impl Default for DangerOutput {
    fn default() -> (r: DangerOutput)
        ensures
            r == (DangerOutput {
                bump_risk_permille: 0,
                cliff_risk_permille: 0,
                confidence_permille: 0,
            }),
    {
        DangerOutput { bump_risk_permille: 0, cliff_risk_permille: 0, confidence_permille: 0 }
    }
}

impl Default for ChargeOutput {
    fn default() -> (r: ChargeOutput)
        ensures
            r == (ChargeOutput {
                charge_probability_permille: 0,
                expected_battery_delta_permille: 0,
                dock_likelihood_permille: 0,
                confidence_permille: 0,
            }),
    {
        ChargeOutput {
            charge_probability_permille: 0,
            expected_battery_delta_permille: 0,
            dock_likelihood_permille: 0,
            confidence_permille: 0,
        }
    }
}

impl Default for ActionValueOutput {
    fn default() -> (r: ActionValueOutput)
        ensures
            r == (ActionValueOutput { value_permille: 0, confidence_permille: 0 }),
    {
        ActionValueOutput { value_permille: 0, confidence_permille: 0 }
    }
}

impl Default for CandidateModelSignals {
    fn default() -> (r: CandidateModelSignals)
        ensures
            r.danger is None,
            r.charge is None,
            r.action_value is None,
    {
        CandidateModelSignals { danger: None, charge: None, action_value: None }
    }
}

/// Who decides the action.
#[derive(Clone, Copy, Debug, PartialEq, Eq, Structural)]
pub enum ActionSelectorMode {
    /// The conductor's baseline action is taken; scores are only recorded.
    Baseline,
    /// The best scored candidate is taken.
    ModelAssisted,
    /// Goals are evaluated alongside the baseline, which is taken.
    GoalShadow,
    /// Goal behaviours propose the baseline, which is taken.
    Goal,
}

/// One scored candidate, with the terms its score is made of.
#[derive(Debug, PartialEq, Eq)]
pub struct ActionSelectionCandidateScore {
    pub action: ActionPrimitive,
    /// Total score, in thousandths.
    pub score: i64,
    pub danger: i64,
    pub charge: i64,
    pub action_value: i64,
    pub curiosity: i64,
    pub recovery: i64,
    /// Whether some model signal was missing.
    pub fallback_used: bool,
}

impl Default for ActionSelectionCandidateScore {
    fn default() -> (r: ActionSelectionCandidateScore)
        ensures
            r.action == ActionPrimitive::Stop,
            r.score == 0,
            r.danger == 0,
            r.charge == 0,
            r.action_value == 0,
            r.curiosity == 0,
            r.recovery == 0,
            !r.fallback_used,
    {
        ActionSelectionCandidateScore {
            action: ActionPrimitive::Stop,
            score: 0,
            danger: 0,
            charge: 0,
            action_value: 0,
            curiosity: 0,
            recovery: 0,
            fallback_used: false,
        }
    }
}

/// The outcome of one selection.
pub struct ActionSelectionDecision {
    pub mode: ActionSelectorMode,
    pub baseline_action: ActionPrimitive,
    pub candidates: Vec<ActionSelectionCandidateScore>,
    pub selected_action: Option<ActionPrimitive>,
    pub selected_score: Option<i64>,
    /// Whether a reflex replaced the choice.
    pub safety_overrode: bool,
    pub fallback_warnings: Vec<String>,
}

/// A probability or confidence in thousandths, capped at unity.
pub open spec fn unit(x: u32) -> int {
    if x > 1000 {
        1000
    } else {
        x as int
    }
}

/// A signed quantity in thousandths, capped at plus or minus unity.
pub open spec fn signed_unit(x: i32) -> int {
    if x > 1000 {
        1000
    } else if x < -1000 {
        -1000
    } else {
        x as int
    }
}

/// `a` scaled by the fraction `b` thousandths, rounded toward zero.
pub open spec fn scale(a: int, b: int) -> int {
    if a >= 0 {
        a * b / 1000
    } else {
        -((-a) * b / 1000)
    }
}

/// Whether an action moves the body.
pub open spec fn is_motion(a: ActionPrimitive) -> bool {
    match a {
        ActionPrimitive::Go { .. } => true,
        ActionPrimitive::Turn { .. } => true,
        ActionPrimitive::Drive { .. } => true,
        ActionPrimitive::Explore { .. } => true,
        ActionPrimitive::Approach { .. } => true,
        ActionPrimitive::Dock => true,
        _ => false,
    }
}

/// Penalty for risking harm: twice the larger predicted risk, weighed by the
/// model's confidence; only actions that move are at risk.
pub open spec fn danger_term(a: ActionPrimitive, s: CandidateModelSignals) -> int {
    if is_motion(a) {
        match s.danger {
            Some(d) => {
                let risk = if unit(d.bump_risk_permille) >= unit(d.cliff_risk_permille) {
                    unit(d.bump_risk_permille)
                } else {
                    unit(d.cliff_risk_permille)
                };
                DANGER_WEIGHT * scale(risk, unit(d.confidence_permille))
            },
            None => 0,
        }
    } else {
        0
    }
}

/// How much the robot needs a charger here: the missing charge weighed by
/// what memory says of charging at this place.
pub open spec fn charger_need(now: Now) -> int {
    scale(1000 - unit(now.body.battery_permille), unit(now.memory.place_charge_value_permille))
}

/// Bonus for heading to or docking on a charger: the predicted chance of
/// charging (for docking, times the chance that docking succeeds) and the
/// predicted battery gain, weighed by confidence, plus the need for a charger.
pub open spec fn charge_term(now: Now, a: ActionPrimitive, s: CandidateModelSignals) -> int {
    match a {
        ActionPrimitive::Approach { .. } => charger_need(now) + match s.charge {
            Some(c) => scale(unit(c.charge_probability_permille), unit(c.confidence_permille))
                + scale(signed_unit(c.expected_battery_delta_permille), unit(c.confidence_permille)),
            None => 0,
        },
        ActionPrimitive::Dock => charger_need(now) + match s.charge {
            Some(c) => scale(
                scale(unit(c.charge_probability_permille), unit(c.dock_likelihood_permille)),
                unit(c.confidence_permille),
            ) + scale(signed_unit(c.expected_battery_delta_permille), unit(c.confidence_permille)),
            None => 0,
        },
        _ => 0,
    }
}

/// The predicted value of acting, weighed by confidence.
pub open spec fn value_term(s: CandidateModelSignals) -> int {
    match s.action_value {
        Some(v) => scale(signed_unit(v.value_permille), unit(v.confidence_permille)),
        None => 0,
    }
}

/// Curiosity about a novel place draws the robot to inspect it.
pub open spec fn curiosity_term(now: Now, a: ActionPrimitive) -> int {
    match a {
        ActionPrimitive::Inspect { .. } => scale(
            unit(now.drives.curiosity_permille),
            unit(now.memory.place_novelty_permille),
        ),
        _ => 0,
    }
}

/// Whether an obstacle is close enough to box the robot in.
pub open spec fn close_range(now: Now) -> bool {
    match now.range.nearest_mm {
        Some(d) => d < CLOSE_RANGE_MM,
        None => false,
    }
}

/// Bonus of the conductor's recovery action while boxed in.
pub open spec fn recovery_term(now: Now, a: ActionPrimitive, recovery: Option<ActionPrimitive>) -> int {
    match recovery {
        Some(b) => if close_range(now) && actions_match(b, a) {
            RECOVERY_BONUS_PERMILLE as int
        } else {
            0
        },
        None => 0,
    }
}

/// Whether some model signal is missing.
pub open spec fn uses_fallback(s: CandidateModelSignals) -> bool {
    s.danger is None || s.charge is None || s.action_value is None
}

/// The score of a candidate.
pub open spec fn candidate_score(
    now: Now,
    a: ActionPrimitive,
    s: CandidateModelSignals,
    recovery: Option<ActionPrimitive>,
) -> int {
    value_term(s) + charge_term(now, a, s) + curiosity_term(now, a) + recovery_term(now, a, recovery)
        - danger_term(a, s)
}

/// Position of the best scored candidate: the highest score, the earliest
/// among equals.
pub open spec fn best_index(s: Seq<ActionSelectionCandidateScore>) -> int
    decreases s.len(),
{
    if s.len() <= 1 {
        0
    } else {
        let b = best_index(s.drop_last());
        if s.last().score > s[b].score {
            s.len() - 1
        } else {
            b
        }
    }
}

/// Whether some candidate was scored without all model signals.
pub open spec fn any_fallback(s: Seq<ActionSelectionCandidateScore>) -> bool {
    exists|i: int| 0 <= i < s.len() && (#[trigger] s[i]).fallback_used
}

/// The warning given when scores were computed without all model signals.
pub open spec fn fallback_warning() -> Seq<char> {
    "model signals missing; candidates scored with fallbacks"@
}

/// The best scored candidate has the highest score, and every earlier one a
/// lower score.
pub proof fn lemma_best_index_is_highest(s: Seq<ActionSelectionCandidateScore>)
    requires
        s.len() > 0,
    ensures
        0 <= best_index(s) < s.len(),
        forall|j: int| 0 <= j < s.len() ==> (#[trigger] s[j]).score <= s[best_index(s)].score,
        forall|j: int| 0 <= j < best_index(s) ==> (#[trigger] s[j]).score < s[best_index(s)].score,
    decreases s.len(),
{
    if s.len() > 1 {
        let t = s.drop_last();
        lemma_best_index_is_highest(t);
        assert forall|j: int| 0 <= j < t.len() implies (#[trigger] s[j]).score == t[j].score by {}
    }
}

fn unit_of(x: u32) -> (r: i64)
    ensures
        r == unit(x),
        0 <= r <= 1000,
{
    if x > 1000 {
        1000
    } else {
        x as i64
    }
}

fn signed_unit_of(x: i32) -> (r: i64)
    ensures
        r == signed_unit(x),
        -1000 <= r <= 1000,
{
    if x > 1000 {
        1000
    } else if x < -1000 {
        -1000
    } else {
        x as i64
    }
}

proof fn lemma_scale_bounds(a: int, b: int)
    requires
        -1_000_000 <= a <= 1_000_000,
        0 <= b <= 1000,
    ensures
        a >= 0 ==> 0 <= scale(a, b) <= a,
        a < 0 ==> a <= scale(a, b) <= 0,
{
    if a >= 0 {
        assert(0 <= a * b <= a * 1000) by (nonlinear_arith)
            requires
                0 <= a,
                0 <= b <= 1000,
        ;
        assert(a * b / 1000 <= a) by (nonlinear_arith)
            requires
                0 <= a * b <= a * 1000,
        ;
    } else {
        let m = -a;
        assert(0 <= m * b <= m * 1000) by (nonlinear_arith)
            requires
                0 <= m,
                0 <= b <= 1000,
        ;
        assert(m * b / 1000 <= m) by (nonlinear_arith)
            requires
                0 <= m * b <= m * 1000,
        ;
    }
}

fn scale_of(a: i64, b: i64) -> (r: i64)
    requires
        -1_000_000 <= a <= 1_000_000,
        0 <= b <= 1000,
    ensures
        r == scale(a as int, b as int),
        a >= 0 ==> 0 <= r <= a,
        a < 0 ==> a <= r <= 0,
{
    proof {
        lemma_scale_bounds(a as int, b as int);
    }
    if a >= 0 {
        assert(0 <= a * b <= 1_000_000_000) by (nonlinear_arith)
            requires
                0 <= a <= 1_000_000,
                0 <= b <= 1000,
        ;
        a * b / 1000
    } else {
        let m = -a;
        assert(0 <= m * b <= 1_000_000_000) by (nonlinear_arith)
            requires
                0 <= m <= 1_000_000,
                0 <= b <= 1000,
        ;
        -(m * b / 1000)
    }
}

fn is_motion_action(a: &ActionPrimitive) -> (r: bool)
    ensures
        r == is_motion(*a),
{
    match a {
        ActionPrimitive::Go { .. } => true,
        ActionPrimitive::Turn { .. } => true,
        ActionPrimitive::Drive { .. } => true,
        ActionPrimitive::Explore { .. } => true,
        ActionPrimitive::Approach { .. } => true,
        ActionPrimitive::Dock => true,
        _ => false,
    }
}

fn danger_of(a: &ActionPrimitive, s: &CandidateModelSignals) -> (r: i64)
    ensures
        r == danger_term(*a, *s),
        0 <= r <= 2000,
{
    if !is_motion_action(a) {
        return 0;
    }
    match s.danger {
        Some(d) => {
            let bump = unit_of(d.bump_risk_permille);
            let cliff = unit_of(d.cliff_risk_permille);
            let risk = if bump >= cliff {
                bump
            } else {
                cliff
            };
            DANGER_WEIGHT * scale_of(risk, unit_of(d.confidence_permille))
        },
        None => 0,
    }
}

fn charger_need_of(now: &Now) -> (r: i64)
    ensures
        r == charger_need(*now),
        0 <= r <= 1000,
{
    scale_of(1000 - unit_of(now.body.battery_permille), unit_of(now.memory.place_charge_value_permille))
}

fn charge_of(now: &Now, a: &ActionPrimitive, s: &CandidateModelSignals) -> (r: i64)
    ensures
        r == charge_term(*now, *a, *s),
        -1000 <= r <= 3000,
{
    let docking = match a {
        ActionPrimitive::Approach { .. } => false,
        ActionPrimitive::Dock => true,
        _ => {
            return 0;
        },
    };
    let need = charger_need_of(now);
    match s.charge {
        Some(c) => {
            let conf = unit_of(c.confidence_permille);
            let chance = if docking {
                scale_of(
                    scale_of(unit_of(c.charge_probability_permille), unit_of(c.dock_likelihood_permille)),
                    conf,
                )
            } else {
                scale_of(unit_of(c.charge_probability_permille), conf)
            };
            let gain = scale_of(signed_unit_of(c.expected_battery_delta_permille), conf);
            need + (chance + gain)
        },
        None => need,
    }
}

fn value_of(s: &CandidateModelSignals) -> (r: i64)
    ensures
        r == value_term(*s),
        -1000 <= r <= 1000,
{
    match s.action_value {
        Some(v) => scale_of(signed_unit_of(v.value_permille), unit_of(v.confidence_permille)),
        None => 0,
    }
}

fn curiosity_of(now: &Now, a: &ActionPrimitive) -> (r: i64)
    ensures
        r == curiosity_term(*now, *a),
        0 <= r <= 1000,
{
    match a {
        ActionPrimitive::Inspect { .. } => scale_of(
            unit_of(now.drives.curiosity_permille),
            unit_of(now.memory.place_novelty_permille),
        ),
        _ => 0,
    }
}

fn recovery_of(now: &Now, a: &ActionPrimitive, recovery: Option<&ActionPrimitive>) -> (r: i64)
    ensures
        r == recovery_term(*now, *a, match recovery {
            Some(b) => Some(*b),
            None => None,
        }),
        0 <= r <= RECOVERY_BONUS_PERMILLE,
{
    match recovery {
        Some(b) => {
            let close = match now.range.nearest_mm {
                Some(d) => d < CLOSE_RANGE_MM,
                None => false,
            };
            if close && b.same_as(a) {
                RECOVERY_BONUS_PERMILLE
            } else {
                0
            }
        },
        None => 0,
    }
}

/// Scores candidate `action` at moment `now` from the model `signals`; while
/// boxed in, the conductor's `recovery` action earns a bonus.
pub fn score_action_candidate(
    now: &Now,
    action: &ActionPrimitive,
    signals: CandidateModelSignals,
    recovery: Option<&ActionPrimitive>,
) -> (r: ActionSelectionCandidateScore)
    ensures
        r.action == *action,
        r.danger == danger_term(*action, signals),
        r.charge == charge_term(*now, *action, signals),
        r.action_value == value_term(signals),
        r.curiosity == curiosity_term(*now, *action),
        r.recovery == recovery_term(*now, *action, match recovery {
            Some(b) => Some(*b),
            None => None,
        }),
        r.score == candidate_score(*now, *action, signals, match recovery {
            Some(b) => Some(*b),
            None => None,
        }),
        r.fallback_used == uses_fallback(signals),
{
    let danger = danger_of(action, &signals);
    let charge = charge_of(now, action, &signals);
    let action_value = value_of(&signals);
    let curiosity = curiosity_of(now, action);
    let recovery_bonus = recovery_of(now, action, recovery);
    let score = action_value + charge + curiosity + recovery_bonus - danger;
    ActionSelectionCandidateScore {
        action: action.clone(),
        score,
        danger,
        charge,
        action_value,
        curiosity,
        recovery: recovery_bonus,
        fallback_used: signals.danger.is_none() || signals.charge.is_none()
            || signals.action_value.is_none(),
    }
}

/// Scores every candidate action, each with its own model signals, in order.
pub fn score_candidates(
    now: &Now,
    actions: &Vec<ActionPrimitive>,
    signals: &Vec<CandidateModelSignals>,
    recovery: Option<&ActionPrimitive>,
) -> (r: Vec<ActionSelectionCandidateScore>)
    requires
        actions.len() == signals.len(),
    ensures
        r.len() == actions.len(),
        forall|i: int|
            0 <= i < r.len() ==> {
                &&& (#[trigger] r@[i]).action == actions@[i]
                &&& r@[i].score == candidate_score(*now, actions@[i], signals@[i], match recovery {
                    Some(b) => Some(*b),
                    None => None,
                })
                &&& r@[i].fallback_used == uses_fallback(signals@[i])
                &&& r@[i].danger == danger_term(actions@[i], signals@[i])
                &&& r@[i].charge == charge_term(*now, actions@[i], signals@[i])
                &&& r@[i].action_value == value_term(signals@[i])
                &&& r@[i].curiosity == curiosity_term(*now, actions@[i])
                &&& r@[i].recovery == recovery_term(*now, actions@[i], match recovery {
                    Some(b) => Some(*b),
                    None => None,
                })
            },
{
    let mut out: Vec<ActionSelectionCandidateScore> = Vec::new();
    let mut i: usize = 0;
    while i < actions.len()
        invariant
            actions.len() == signals.len(),
            i <= actions.len(),
            out.len() == i,
            forall|j: int|
                0 <= j < i ==> {
                    &&& (#[trigger] out@[j]).action == actions@[j]
                    &&& out@[j].score == candidate_score(*now, actions@[j], signals@[j], match recovery {
                        Some(b) => Some(*b),
                        None => None,
                    })
                    &&& out@[j].fallback_used == uses_fallback(signals@[j])
                    &&& out@[j].danger == danger_term(actions@[j], signals@[j])
                    &&& out@[j].charge == charge_term(*now, actions@[j], signals@[j])
                    &&& out@[j].action_value == value_term(signals@[j])
                    &&& out@[j].curiosity == curiosity_term(*now, actions@[j])
                    &&& out@[j].recovery == recovery_term(*now, actions@[j], match recovery {
                        Some(b) => Some(*b),
                        None => None,
                    })
                },
        decreases actions.len() - i,
    {
        out.push(score_action_candidate(now, &actions[i], signals[i], recovery));
        i += 1;
    }
    out
}

fn best_candidate(candidates: &Vec<ActionSelectionCandidateScore>) -> (r: usize)
    requires
        candidates.len() > 0,
    ensures
        r == best_index(candidates@),
        r < candidates.len(),
{
    let mut best: usize = 0;
    let mut i: usize = 1;
    while i < candidates.len()
        invariant
            1 <= i <= candidates.len(),
            best < i,
            best == best_index(candidates@.take(i as int)),
        decreases candidates.len() - i,
    {
        let ghost t = candidates@.take(i as int + 1);
        assert(t.drop_last() =~= candidates@.take(i as int));
        assert(t.last() == candidates@[i as int]);
        assert(t[best as int] == candidates@[best as int]);
        if candidates[i].score > candidates[best].score {
            best = i;
        }
        i += 1;
    }
    assert(candidates@.take(candidates.len() as int) =~= candidates@);
    best
}

fn has_fallback(candidates: &Vec<ActionSelectionCandidateScore>) -> (r: bool)
    ensures
        r == any_fallback(candidates@),
{
    let mut i: usize = 0;
    while i < candidates.len()
        invariant
            i <= candidates.len(),
            forall|j: int| 0 <= j < i ==> !(#[trigger] candidates@[j]).fallback_used,
        decreases candidates.len() - i,
    {
        if candidates[i].fallback_used {
            return true;
        }
        i += 1;
    }
    false
}

/// Selects the action to take at `now`. A reflex demanded by the body
/// overrides everything; otherwise model-assisted mode takes the best scored
/// candidate (the conductor's `baseline` when there is none) and the other
/// modes take `baseline`. Warns once when some candidate was scored with
/// fallbacks.
pub fn select_action_from_scores(
    mode: ActionSelectorMode,
    now: &Now,
    baseline: ActionPrimitive,
    candidates: Vec<ActionSelectionCandidateScore>,
) -> (d: ActionSelectionDecision)
    ensures
        d.mode == mode,
        d.baseline_action == baseline,
        d.candidates@ == candidates@,
        d.safety_overrode == reflex_action(now.body) is Some,
        match reflex_action(now.body) {
            Some(a) => d.selected_action == Some(a) && d.selected_score is None,
            None => if mode == ActionSelectorMode::ModelAssisted && candidates.len() > 0 {
                &&& d.selected_action == Some(candidates@[best_index(candidates@)].action)
                &&& d.selected_score == Some(candidates@[best_index(candidates@)].score)
            } else {
                d.selected_action == Some(baseline) && d.selected_score is None
            },
        },
        d.fallback_warnings@.len() == (if any_fallback(candidates@) {
            1int
        } else {
            0int
        }),
        any_fallback(candidates@) ==> d.fallback_warnings@[0]@ == fallback_warning(),
{
    let mut fallback_warnings: Vec<String> = Vec::new();
    if has_fallback(&candidates) {
        let w = "model signals missing; candidates scored with fallbacks";
        fallback_warnings.push(w.to_owned());
    }
    let reflex = hard_safety_action(now);
    let safety_overrode = reflex.is_some();
    let (selected_action, selected_score) = match reflex {
        Some(a) => (Some(a), None),
        None => if mode == ActionSelectorMode::ModelAssisted && candidates.len() > 0 {
            let b = best_candidate(&candidates);
            (Some(candidates[b].action.clone()), Some(candidates[b].score))
        } else {
            (Some(baseline.clone()), None)
        },
    };
    ActionSelectionDecision {
        mode,
        baseline_action: baseline,
        candidates,
        selected_action,
        selected_score,
        safety_overrode,
        fallback_warnings,
    }
}

proof fn lemma_scale_monotone(a1: int, a2: int, b: int)
    requires
        0 <= a1 <= a2,
        0 <= b <= 1000,
    ensures
        scale(a1, b) <= scale(a2, b),
{
    assert(a1 * b <= a2 * b) by (nonlinear_arith)
        requires
            0 <= a1 <= a2,
            0 <= b,
    ;
    assert(a1 * b / 1000 <= a2 * b / 1000) by (nonlinear_arith)
        requires
            0 <= a1 * b <= a2 * b,
    ;
}

/// A higher predicted risk of harm, at the same confidence, never makes a
/// candidate score higher; every other term is unchanged by the risk.
pub proof fn lemma_more_danger_never_scores_higher(
    now: Now,
    a: ActionPrimitive,
    s: CandidateModelSignals,
    low: DangerOutput,
    high: DangerOutput,
    recovery: Option<ActionPrimitive>,
)
    requires
        low.bump_risk_permille <= high.bump_risk_permille,
        low.cliff_risk_permille <= high.cliff_risk_permille,
        low.confidence_permille == high.confidence_permille,
    ensures
        candidate_score(now, a, CandidateModelSignals { danger: Some(high), ..s }, recovery)
            <= candidate_score(now, a, CandidateModelSignals { danger: Some(low), ..s }, recovery),
{
    let rl = if unit(low.bump_risk_permille) >= unit(low.cliff_risk_permille) {
        unit(low.bump_risk_permille)
    } else {
        unit(low.cliff_risk_permille)
    };
    let rh = if unit(high.bump_risk_permille) >= unit(high.cliff_risk_permille) {
        unit(high.bump_risk_permille)
    } else {
        unit(high.cliff_risk_permille)
    };
    lemma_scale_monotone(rl, rh, unit(low.confidence_permille));
}

/// A higher predicted chance of charging, all else equal, never makes heading
/// for a charger score lower.
pub proof fn lemma_charge_chance_never_lowers_approach(
    now: Now,
    a: ActionPrimitive,
    s: CandidateModelSignals,
    low: ChargeOutput,
    high: ChargeOutput,
    recovery: Option<ActionPrimitive>,
)
    requires
        a is Approach,
        low.charge_probability_permille <= high.charge_probability_permille,
        low.expected_battery_delta_permille == high.expected_battery_delta_permille,
        low.dock_likelihood_permille == high.dock_likelihood_permille,
        low.confidence_permille == high.confidence_permille,
    ensures
        candidate_score(now, a, CandidateModelSignals { charge: Some(low), ..s }, recovery)
            <= candidate_score(now, a, CandidateModelSignals { charge: Some(high), ..s }, recovery),
{
    lemma_scale_monotone(
        unit(low.charge_probability_permille),
        unit(high.charge_probability_permille),
        unit(low.confidence_permille),
    );
}

/// The conductor's recovery action earns no bonus unless an obstacle is
/// closer than the close range: in open space (or with no range return) the
/// recovery term is zero and the score is the sum of the other terms. When
/// boxed in, the candidate matching the recovery action earns exactly the bonus.
pub proof fn lemma_recovery_bonus_only_when_boxed_in(
    now: Now,
    a: ActionPrimitive,
    s: CandidateModelSignals,
    recovery: Option<ActionPrimitive>,
)
    ensures
        (now.range.nearest_mm is None || now.range.nearest_mm->0 >= CLOSE_RANGE_MM) ==> {
            &&& recovery_term(now, a, recovery) == 0
            &&& candidate_score(now, a, s, recovery) == value_term(s) + charge_term(now, a, s)
                + curiosity_term(now, a) - danger_term(a, s)
        },
        recovery is None ==> recovery_term(now, a, recovery) == 0,
        (now.range.nearest_mm matches Some(d) && d < CLOSE_RANGE_MM) && recovery == Some(a) && !(
        a is Speak) ==> recovery_term(now, a, recovery) == RECOVERY_BONUS_PERMILLE,
        0 <= recovery_term(now, a, recovery) <= RECOVERY_BONUS_PERMILLE,
{
}

/// Curiosity draws the robot only to inspection: an inspection candidate
/// gains the curiosity drive times the novelty of the place (in thousandths,
/// rounded down, each capped at unity), and every other candidate gains nothing.
pub proof fn lemma_curiosity_draws_only_inspection(now: Now, a: ActionPrimitive)
    ensures
        !(a is Inspect) ==> curiosity_term(now, a) == 0,
        a is Inspect ==> 0 <= curiosity_term(now, a) <= 1000,
        a is Inspect && now.drives.curiosity_permille <= 1000 && now.memory.place_novelty_permille
            <= 1000 ==> curiosity_term(now, a) == now.drives.curiosity_permille
            * now.memory.place_novelty_permille / 1000,
{
    if a is Inspect {
        lemma_scale_bounds(
            unit(now.drives.curiosity_permille),
            unit(now.memory.place_novelty_permille),
        );
    }
}

} // verus!
