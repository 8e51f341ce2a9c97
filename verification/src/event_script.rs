//! Scripted reactions to body events: the bump escape script, the bring-up
//! greeting, and the regimes under which a learned model may replace a script.

use vstd::prelude::*;
use crate::actions::ChirpPattern;

verus! {

/// One step of an event script.
#[derive(Debug, PartialEq, Eq)]
pub enum EventScriptAction {
    Stop,
    Rotate { deg: i32 },
    Go,
    Say { text: String },
    Song { name: String },
    Chirp { pattern: ChirpPattern },
}

/// The steps a script asks for, in order.
#[derive(Debug, PartialEq, Eq)]
pub struct EventScriptOutput {
    pub actions: Vec<EventScriptAction>,
}

impl Clone for EventScriptAction {
    fn clone(&self) -> (r: Self)
        ensures
            r == *self,
    {
        match self {
            EventScriptAction::Stop => EventScriptAction::Stop,
            EventScriptAction::Rotate { deg } => EventScriptAction::Rotate { deg: *deg },
            EventScriptAction::Go => EventScriptAction::Go,
            EventScriptAction::Say { text } => EventScriptAction::Say { text: text.clone() },
            EventScriptAction::Song { name } => EventScriptAction::Song { name: name.clone() },
            EventScriptAction::Chirp { pattern } => EventScriptAction::Chirp { pattern: *pattern },
        }
    }
}

impl Clone for EventScriptOutput {
    fn clone(&self) -> (r: Self)
        ensures
            r.actions@ == self.actions@,
    {
        let mut actions: Vec<EventScriptAction> = Vec::new();
        let mut i: usize = 0;
        while i < self.actions.len()
            invariant
                i <= self.actions@.len(),
                actions@ == self.actions@.subrange(0, i as int),
            decreases self.actions@.len() - i,
        {
            actions.push(self.actions[i].clone());
            i += 1;
        }
        assert(actions@ =~= self.actions@);
        EventScriptOutput { actions }
    }
}

/// Whether a script step is one of the bump laments.
pub open spec fn is_lament(a: EventScriptAction) -> bool {
    match a {
        EventScriptAction::Say { text } => {
            ||| text@ == "Uh-oh"@
            ||| text@ == "Oh no!"@
            ||| text@ == "Oopsie!"@
            ||| text@ == "Oh dear!"@
        },
        EventScriptAction::Song { name } => name@ == "mournful_bump"@,
        _ => false,
    }
}

/// Whether a script step is a lament over a bump: saying "Uh-oh", "Oh no!",
/// "Oopsie!" or "Oh dear!", or playing the mournful bump song.
pub fn is_bump_lament_action(action: &EventScriptAction) -> (r: bool)
    ensures
        r == is_lament(*action),
{
    match action {
        EventScriptAction::Say { text } => {
            *text == String::from_str("Uh-oh") || *text == String::from_str("Oh no!") || *text
                == String::from_str("Oopsie!") || *text == String::from_str("Oh dear!")
        },
        EventScriptAction::Song { name } => *name == String::from_str("mournful_bump"),
        _ => false,
    }
}

/// What the bump script is told about the bump.
pub struct BumpEventInput {
    pub t_ms: u64,
    pub bump_left: bool,
    pub bump_right: bool,
}

impl Default for BumpEventInput {
    fn default() -> (r: BumpEventInput)
        ensures
            r.t_ms == 0,
            !r.bump_left,
            !r.bump_right,
    {
        BumpEventInput { t_ms: 0, bump_left: false, bump_right: false }
    }
}

/// The lament chosen at time `t_ms`: the four spoken laments and the song in turn.
pub open spec fn lament_at(t_ms: u64) -> Seq<char> {
    let k = t_ms % 5;
    if k == 0 {
        "Uh-oh"@
    } else if k == 1 {
        "Oh no!"@
    } else if k == 2 {
        "Oopsie!"@
    } else if k == 3 {
        "Oh dear!"@
    } else {
        "mournful_bump"@
    }
}

/// Whether `a` is the lament chosen at `t_ms`.
pub open spec fn is_lament_at(a: EventScriptAction, t_ms: u64) -> bool {
    if t_ms % 5 == 4 {
        a matches EventScriptAction::Song { name } && name@ == lament_at(t_ms)
    } else {
        a matches EventScriptAction::Say { text } && text@ == lament_at(t_ms)
    }
}

/// The bump escape script: a warning chirp, a lament, then stop, turn around
/// and go.
pub open spec fn is_bump_escape_script(s: Seq<EventScriptAction>, t_ms: u64) -> bool {
    &&& s.len() == 5
    &&& s[0] == EventScriptAction::Chirp { pattern: ChirpPattern::Warning }
    &&& is_lament_at(s[1], t_ms)
    &&& s[2] == EventScriptAction::Stop
    &&& s[3] == EventScriptAction::Rotate { deg: 180 }
    &&& s[4] == EventScriptAction::Go
}

fn lament(t_ms: u64) -> (r: EventScriptAction)
    ensures
        is_lament_at(r, t_ms),
{
    let k = t_ms % 5;
    if k == 0 {
        EventScriptAction::Say { text: String::from_str("Uh-oh") }
    } else if k == 1 {
        EventScriptAction::Say { text: String::from_str("Oh no!") }
    } else if k == 2 {
        EventScriptAction::Say { text: String::from_str("Oopsie!") }
    } else if k == 3 {
        EventScriptAction::Say { text: String::from_str("Oh dear!") }
    } else {
        EventScriptAction::Song { name: String::from_str("mournful_bump") }
    }
}

/// The hard-coded reaction to a bump.
pub fn bump_escape_script(input: &BumpEventInput) -> (r: EventScriptOutput)
    ensures
        is_bump_escape_script(r.actions@, input.t_ms),
{
    let mut actions: Vec<EventScriptAction> = Vec::new();
    actions.push(EventScriptAction::Chirp { pattern: ChirpPattern::Warning });
    actions.push(lament(input.t_ms));
    actions.push(EventScriptAction::Stop);
    actions.push(EventScriptAction::Rotate { deg: 180 });
    actions.push(EventScriptAction::Go);
    EventScriptOutput { actions }
}

/// Every bump lament chosen by the script is one `is_bump_lament_action` recognises.
pub proof fn lemma_chosen_lament_is_recognised(a: EventScriptAction, t_ms: u64)
    requires
        is_lament_at(a, t_ms),
    ensures
        is_lament(a),
{
}

/// Who decides an event behaviour's output.
#[derive(Clone, Copy, Debug, PartialEq, Eq, Structural)]
pub enum BehaviorRegime {
    /// The hard-coded script decides.
    Hardcoded,
    /// The script decides; the model is observed and trained alongside.
    ShadowTrain,
    /// The model decides.
    ModelInfer,
}

/// What to do when the model cannot decide.
#[derive(Clone, Copy, Debug, PartialEq, Eq, Structural)]
pub enum FallbackPolicy {
    UseHardcoded,
    Fail,
}

#[derive(Clone, Copy, Debug, PartialEq, Eq, Structural)]
pub enum BehaviorError {
    ModelUnavailable,
}

/// What one decision of an event behaviour recorded.
pub struct BehaviorRunRecord {
    pub t_ms: u64,
    pub regime: BehaviorRegime,
    pub hardcoded_output: Option<EventScriptOutput>,
    pub model_output: Option<EventScriptOutput>,
    pub error: Option<String>,
}

/// One decision of an event behaviour.
pub struct BehaviorRun {
    pub chosen: EventScriptOutput,
    pub fallback_used: bool,
    pub training_sample_emitted: bool,
    pub record: BehaviorRunRecord,
}

/// The bump behaviour: the escape script, replaceable by a learned model.
pub struct BumpEventBehavior {
    pub regime: BehaviorRegime,
    pub model_id: Option<String>,
    pub fallback: FallbackPolicy,
    /// What the loaded model proposes, when a model is loaded.
    pub model_output: Option<EventScriptOutput>,
    pub training_samples: u64,
}

/// A bump behaviour under `regime`, naming model `model_id`, with no model output loaded yet.
pub fn bump_event_behavior(regime: BehaviorRegime, model_id: Option<String>, fallback: FallbackPolicy) -> (r: BumpEventBehavior)
    ensures
        r.regime == regime,
        r.model_id == model_id,
        r.fallback == fallback,
        r.model_output is None,
        r.training_samples == 0,
{
    BumpEventBehavior { regime, model_id, fallback, model_output: None, training_samples: 0 }
}

pub open spec fn opt_actions(o: Option<EventScriptOutput>) -> Option<Seq<EventScriptAction>> {
    match o {
        Some(out) => Some(out.actions@),
        None => None,
    }
}

impl BumpEventBehavior {
    /// Loads what the learned model proposes.
    pub fn with_model_output(self, output: EventScriptOutput) -> (r: BumpEventBehavior)
        ensures
            r.regime == self.regime,
            r.model_id == self.model_id,
            r.fallback == self.fallback,
            opt_actions(r.model_output) == Some(output.actions@),
            r.training_samples == self.training_samples,
    {
        BumpEventBehavior { model_output: Some(output), ..self }
    }

    /// Decides the reaction to a bump at host time `now_ms`. Under the
    /// hard-coded regime and in shadow training the escape script is chosen;
    /// shadow training also emits a training sample when a model is named.
    /// Under model inference the model's proposal is chosen; without one the
    /// script is used when the fallback policy allows it, and an error is
    /// returned otherwise.
    pub fn infer(&mut self, input: &BumpEventInput, now_ms: u64) -> (r: Result<BehaviorRun, BehaviorError>)
        ensures
            final(self).regime == old(self).regime,
            final(self).model_id == old(self).model_id,
            final(self).fallback == old(self).fallback,
            opt_actions(final(self).model_output) == opt_actions(old(self).model_output),
            match r {
                Err(e) => {
                    &&& e == BehaviorError::ModelUnavailable
                    &&& old(self).regime == BehaviorRegime::ModelInfer
                    &&& old(self).model_output is None
                    &&& old(self).fallback == FallbackPolicy::Fail
                    &&& final(self).training_samples == old(self).training_samples
                },
                Ok(run) => {
                    &&& !(old(self).regime == BehaviorRegime::ModelInfer
                        && old(self).model_output is None && old(self).fallback
                        == FallbackPolicy::Fail)
                    &&& run.record.t_ms == now_ms
                    &&& run.record.regime == old(self).regime
                    &&& opt_actions(run.record.hardcoded_output) is Some
                    &&& is_bump_escape_script(opt_actions(run.record.hardcoded_output)->0, input.t_ms)
                    &&& if old(self).regime == BehaviorRegime::ModelInfer
                        && old(self).model_output is Some {
                        &&& run.chosen.actions@ == opt_actions(old(self).model_output)->0
                        &&& !run.fallback_used
                        &&& run.record.error is None
                    } else {
                        &&& is_bump_escape_script(run.chosen.actions@, input.t_ms)
                        &&& run.fallback_used == (old(self).regime == BehaviorRegime::ModelInfer)
                        &&& run.record.error is Some == run.fallback_used
                    }
                    &&& run.training_sample_emitted == (old(self).regime
                        == BehaviorRegime::ShadowTrain && old(self).model_id is Some)
                    &&& final(self).training_samples == if run.training_sample_emitted
                        && old(self).training_samples < u64::MAX {
                        (old(self).training_samples + 1) as u64
                    } else {
                        old(self).training_samples
                    }
                    &&& opt_actions(run.record.model_output) == (if old(self).regime
                        == BehaviorRegime::Hardcoded {
                        None
                    } else {
                        opt_actions(old(self).model_output)
                    })
                },
            },
    {
        let teacher = bump_escape_script(input);
        match self.regime {
            BehaviorRegime::Hardcoded => {
                let chosen = teacher.clone();
                Ok(BehaviorRun {
                    chosen,
                    fallback_used: false,
                    training_sample_emitted: false,
                    record: BehaviorRunRecord {
                        t_ms: now_ms,
                        regime: BehaviorRegime::Hardcoded,
                        hardcoded_output: Some(teacher),
                        model_output: None,
                        error: None,
                    },
                })
            },
            BehaviorRegime::ShadowTrain => {
                let emitted = self.model_id.is_some();
                if emitted && self.training_samples < u64::MAX {
                    self.training_samples = self.training_samples + 1;
                }
                let observed = match &self.model_output {
                    Some(m) => Some(m.clone()),
                    None => None,
                };
                let chosen = teacher.clone();
                Ok(BehaviorRun {
                    chosen,
                    fallback_used: false,
                    training_sample_emitted: emitted,
                    record: BehaviorRunRecord {
                        t_ms: now_ms,
                        regime: BehaviorRegime::ShadowTrain,
                        hardcoded_output: Some(teacher),
                        model_output: observed,
                        error: None,
                    },
                })
            },
            BehaviorRegime::ModelInfer => {
                match &self.model_output {
                    Some(m) => {
                        let chosen = m.clone();
                        let observed = m.clone();
                        Ok(BehaviorRun {
                            chosen,
                            fallback_used: false,
                            training_sample_emitted: false,
                            record: BehaviorRunRecord {
                                t_ms: now_ms,
                                regime: BehaviorRegime::ModelInfer,
                                hardcoded_output: Some(teacher),
                                model_output: Some(observed),
                                error: None,
                            },
                        })
                    },
                    None => {
                        if self.fallback == FallbackPolicy::Fail {
                            return Err(BehaviorError::ModelUnavailable);
                        }
                        let chosen = teacher.clone();
                        Ok(BehaviorRun {
                            chosen,
                            fallback_used: true,
                            training_sample_emitted: false,
                            record: BehaviorRunRecord {
                                t_ms: now_ms,
                                regime: BehaviorRegime::ModelInfer,
                                hardcoded_output: Some(teacher),
                                model_output: None,
                                error: Some(
                                    String::from_str("model produced no output; hard-coded script used"),
                                ),
                            },
                        })
                    },
                }
            },
        }
    }
}

/// What the bring-up greeting is told about the robot that just started.
pub struct RobotInitializedEventInput {
    pub t_ms: u64,
    pub mode: String,
    pub body: String,
    pub battery_percent: Option<u32>,
    pub charging: Option<bool>,
    pub active_sensors: u32,
    pub requested_sensors: u32,
    pub ledger: String,
    pub tick_ms: u64,
    pub dashboard: Option<String>,
    pub capture: Option<String>,
}

/// The greeting played once the robot has initialised.
pub struct RobotInitializedScriptBehavior;

/// The spoken announcement of a finished bring-up in `mode`.
pub open spec fn bring_up_announcement(mode: Seq<char>) -> Seq<char> {
    "Pete robot initialization complete in "@ + mode + " mode."@
}

impl RobotInitializedScriptBehavior {
    /// The bring-up song, a confirming chirp, then the spoken announcement.
    pub fn infer(&mut self, input: &RobotInitializedEventInput) -> (r: Result<EventScriptOutput, BehaviorError>)
        ensures
            r is Ok,
            r->Ok_0.actions@.len() == 3,
            (r->Ok_0.actions@[0] matches EventScriptAction::Song { name } && name@ == "bring_up"@),
            (r->Ok_0.actions@[1] == EventScriptAction::Chirp { pattern: ChirpPattern::Confirm }),
            (r->Ok_0.actions@[2] matches EventScriptAction::Say { text } && text@
                == bring_up_announcement(input.mode@)),
    {
        let mut text = String::from_str("Pete robot initialization complete in ");
        text.append(input.mode.as_str());
        text.append(" mode.");
        let mut actions: Vec<EventScriptAction> = Vec::new();
        actions.push(EventScriptAction::Song { name: String::from_str("bring_up") });
        actions.push(EventScriptAction::Chirp { pattern: ChirpPattern::Confirm });
        actions.push(EventScriptAction::Say { text });
        Ok(EventScriptOutput { actions })
    }
}

} // verus!
