//! Motor and expressive action primitives, the default candidate actions the
//! selector scores, and the fixed conductor used by scripted runs.

use vstd::prelude::*;

verus! {

#[derive(Clone, Copy, Debug, PartialEq, Eq, Structural)]
pub enum TurnDir {
    Left,
    Right,
}

#[derive(Clone, Copy, Debug, PartialEq, Eq, Structural)]
pub enum InspectTarget {
    Novelty,
}

#[derive(Clone, Copy, Debug, PartialEq, Eq, Structural)]
pub enum ApproachTarget {
    Charger,
}

#[derive(Clone, Copy, Debug, PartialEq, Eq, Structural)]
pub enum ExploreStyle {
    Wander,
    RandomWalk,
}

#[derive(Clone, Copy, Debug, PartialEq, Eq, Structural)]
pub enum ChirpPattern {
    Confirm,
    Warning,
}

/// One action the body can be asked to perform. Intensities are in
/// thousandths of full effort; negative forward intensity drives backwards.
#[derive(Debug, PartialEq, Eq)]
pub enum ActionPrimitive {
    Stop,
    Go { intensity_permille: i32, duration_ms: u64 },
    Turn { direction: TurnDir, intensity_permille: i32, duration_ms: u64 },
    Drive { forward_permille: i32, turn_permille: i32, duration_ms: u64 },
    Explore { style: ExploreStyle, duration_ms: u64 },
    Inspect { target: InspectTarget },
    Approach { target: ApproachTarget },
    Dock,
    Chirp { pattern: ChirpPattern },
    Speak { text: String },
}

/// Whether two actions ask for the same thing (spoken text compared by content).
pub open spec fn actions_match(a: ActionPrimitive, b: ActionPrimitive) -> bool {
    match a {
        ActionPrimitive::Speak { text: x } => match b {
            ActionPrimitive::Speak { text: y } => x@ == y@,
            _ => false,
        },
        _ => a == b,
    }
}

impl Clone for ActionPrimitive {
    fn clone(&self) -> (r: Self)
        ensures
            r == *self,
    {
        match self {
            ActionPrimitive::Stop => ActionPrimitive::Stop,
            ActionPrimitive::Go { intensity_permille, duration_ms } => ActionPrimitive::Go {
                intensity_permille: *intensity_permille,
                duration_ms: *duration_ms,
            },
            ActionPrimitive::Turn { direction, intensity_permille, duration_ms } => {
                ActionPrimitive::Turn {
                    direction: *direction,
                    intensity_permille: *intensity_permille,
                    duration_ms: *duration_ms,
                }
            },
            ActionPrimitive::Drive { forward_permille, turn_permille, duration_ms } => {
                ActionPrimitive::Drive {
                    forward_permille: *forward_permille,
                    turn_permille: *turn_permille,
                    duration_ms: *duration_ms,
                }
            },
            ActionPrimitive::Explore { style, duration_ms } => ActionPrimitive::Explore {
                style: *style,
                duration_ms: *duration_ms,
            },
            ActionPrimitive::Inspect { target } => ActionPrimitive::Inspect { target: *target },
            ActionPrimitive::Approach { target } => ActionPrimitive::Approach { target: *target },
            ActionPrimitive::Dock => ActionPrimitive::Dock,
            ActionPrimitive::Chirp { pattern } => ActionPrimitive::Chirp { pattern: *pattern },
            ActionPrimitive::Speak { text } => ActionPrimitive::Speak { text: text.clone() },
        }
    }
}

impl ActionPrimitive {
    /// Whether `self` and `other` ask for the same thing.
    pub fn same_as(&self, other: &ActionPrimitive) -> (r: bool)
        ensures
            r == actions_match(*self, *other),
    {
        match (self, other) {
            (ActionPrimitive::Stop, ActionPrimitive::Stop) => true,
            (
                ActionPrimitive::Go { intensity_permille: i1, duration_ms: d1 },
                ActionPrimitive::Go { intensity_permille: i2, duration_ms: d2 },
            ) => *i1 == *i2 && *d1 == *d2,
            (
                ActionPrimitive::Turn { direction: r1, intensity_permille: i1, duration_ms: d1 },
                ActionPrimitive::Turn { direction: r2, intensity_permille: i2, duration_ms: d2 },
            ) => *r1 == *r2 && *i1 == *i2 && *d1 == *d2,
            (
                ActionPrimitive::Drive { forward_permille: f1, turn_permille: t1, duration_ms: d1 },
                ActionPrimitive::Drive { forward_permille: f2, turn_permille: t2, duration_ms: d2 },
            ) => *f1 == *f2 && *t1 == *t2 && *d1 == *d2,
            (
                ActionPrimitive::Explore { style: s1, duration_ms: d1 },
                ActionPrimitive::Explore { style: s2, duration_ms: d2 },
            ) => *s1 == *s2 && *d1 == *d2,
            (ActionPrimitive::Inspect { target: t1 }, ActionPrimitive::Inspect { target: t2 }) => *t1
                == *t2,
            (ActionPrimitive::Approach { target: t1 }, ActionPrimitive::Approach { target: t2 }) => *t1
                == *t2,
            (ActionPrimitive::Dock, ActionPrimitive::Dock) => true,
            (ActionPrimitive::Chirp { pattern: p1 }, ActionPrimitive::Chirp { pattern: p2 }) => *p1
                == *p2,
            (ActionPrimitive::Speak { text: x }, ActionPrimitive::Speak { text: y }) => *x == *y,
            _ => false,
        }
    }
}

/// The actions the selector always considers, in order.
pub open spec fn default_candidates() -> Seq<ActionPrimitive> {
    seq![
        ActionPrimitive::Stop,
        ActionPrimitive::Go { intensity_permille: 150, duration_ms: 1_000 },
        ActionPrimitive::Go { intensity_permille: -180i32, duration_ms: 300 },
        ActionPrimitive::Turn { direction: TurnDir::Left, intensity_permille: 250, duration_ms: 750 },
        ActionPrimitive::Turn { direction: TurnDir::Right, intensity_permille: 250, duration_ms: 750 },
        ActionPrimitive::Explore { style: ExploreStyle::Wander, duration_ms: 1_000 },
        ActionPrimitive::Inspect { target: InspectTarget::Novelty },
        ActionPrimitive::Approach { target: ApproachTarget::Charger },
        ActionPrimitive::Dock,
    ]
}

/// The default candidate actions: stop, a short forward move, a short
/// backing-off move, turns both ways, wandering, inspecting novelty,
/// approaching the charger and docking.
pub fn default_candidate_actions() -> (r: Vec<ActionPrimitive>)
    ensures
        r@ == default_candidates(),
{
    let mut v: Vec<ActionPrimitive> = Vec::new();
    v.push(ActionPrimitive::Stop);
    v.push(ActionPrimitive::Go { intensity_permille: 150, duration_ms: 1_000 });
    v.push(ActionPrimitive::Go { intensity_permille: -180, duration_ms: 300 });
    v.push(ActionPrimitive::Turn { direction: TurnDir::Left, intensity_permille: 250, duration_ms: 750 });
    v.push(ActionPrimitive::Turn { direction: TurnDir::Right, intensity_permille: 250, duration_ms: 750 });
    v.push(ActionPrimitive::Explore { style: ExploreStyle::Wander, duration_ms: 1_000 });
    v.push(ActionPrimitive::Inspect { target: InspectTarget::Novelty });
    v.push(ActionPrimitive::Approach { target: ApproachTarget::Charger });
    v.push(ActionPrimitive::Dock);
    assert(v@ =~= default_candidates());
    v
}

/// What the language-model tick offered the selector.
pub struct LlmTickResult {
    pub proposed_action: Option<ActionPrimitive>,
}

impl Default for LlmTickResult {
    fn default() -> (r: LlmTickResult)
        ensures
            r.proposed_action is None,
    {
        LlmTickResult { proposed_action: None }
    }
}

/// Whether some entry of `s` asks for the same thing as `a`.
pub open spec fn contains_match(s: Seq<ActionPrimitive>, a: ActionPrimitive) -> bool {
    exists|i: int| 0 <= i < s.len() && actions_match(#[trigger] s[i], a)
}

/// `s` with every action that repeats an earlier one left out.
pub open spec fn without_repeats(s: Seq<ActionPrimitive>) -> Seq<ActionPrimitive>
    decreases s.len(),
{
    if s.len() == 0 {
        Seq::empty()
    } else {
        let kept = without_repeats(s.drop_last());
        if contains_match(kept, s.last()) {
            kept
        } else {
            kept.push(s.last())
        }
    }
}

pub open spec fn optional(o: Option<ActionPrimitive>) -> Seq<ActionPrimitive> {
    match o {
        Some(a) => seq![a],
        None => Seq::empty(),
    }
}

/// Every action the action-value selector may consider, before repeats are removed:
/// the defaults, the baseline, the given proposals and the model's proposal.
pub open spec fn candidate_sources(
    proposals: Seq<ActionPrimitive>,
    baseline: Option<ActionPrimitive>,
    llm: LlmTickResult,
) -> Seq<ActionPrimitive> {
    default_candidates() + optional(baseline) + proposals + optional(llm.proposed_action)
}

fn push_if_new(out: &mut Vec<ActionPrimitive>, a: &ActionPrimitive)
    ensures
        final(out)@ == (if contains_match(old(out)@, *a) {
            old(out)@
        } else {
            old(out)@.push(*a)
        }),
{
    let mut i: usize = 0;
    let n = out.len();
    while i < n
        invariant
            n == out@.len(),
            i <= n,
            forall|j: int| 0 <= j < i ==> !actions_match(#[trigger] out@[j], *a),
        decreases n - i,
    {
        if out[i].same_as(a) {
            return;
        }
        i += 1;
    }
    out.push(a.clone());
}

/// The candidate actions scored by the action-value selector: the default
/// candidates, then the baseline action, then `proposals`, then the language
/// model's proposal, each kept only the first time it occurs.
pub fn action_value_candidate_actions(
    proposals: &[ActionPrimitive],
    baseline: Option<&ActionPrimitive>,
    llm: &LlmTickResult,
) -> (r: Vec<ActionPrimitive>)
    ensures
        r@ == without_repeats(
            candidate_sources(
                proposals@,
                match baseline {
                    Some(b) => Some(*b),
                    None => None,
                },
                *llm,
            ),
        ),
{
    let ghost base = match baseline {
        Some(b) => Some(*b),
        None => None,
    };
    let ghost src = candidate_sources(proposals@, base, *llm);
    let defaults = default_candidate_actions();
    let mut out: Vec<ActionPrimitive> = Vec::new();
    let mut i: usize = 0;
    while i < defaults.len()
        invariant
            defaults@ == default_candidates(),
            i <= defaults@.len(),
            src == candidate_sources(proposals@, base, *llm),
            out@ == without_repeats(src.subrange(0, i as int)),
        decreases defaults@.len() - i,
    {
        assert(src.subrange(0, i + 1).drop_last() =~= src.subrange(0, i as int));
        push_if_new(&mut out, &defaults[i]);
        i += 1;
    }
    let ghost after_defaults: int = defaults@.len() as int;
    match baseline {
        Some(b) => {
            assert(src.subrange(0, after_defaults + 1).drop_last() =~= src.subrange(0, after_defaults));
            push_if_new(&mut out, b);
        },
        None => {},
    }
    let ghost k: int = after_defaults + optional(base).len() as int;
    assert(out@ == without_repeats(src.subrange(0, k)));
    let mut j: usize = 0;
    while j < proposals.len()
        invariant
            j <= proposals@.len(),
            src == candidate_sources(proposals@, base, *llm),
            k == default_candidates().len() + optional(base).len(),
            out@ == without_repeats(src.subrange(0, k + j)),
        decreases proposals@.len() - j,
    {
        assert(src.subrange(0, k + j + 1).drop_last() =~= src.subrange(0, k + j));
        assert(src[k + j] == proposals@[j as int]);
        push_if_new(&mut out, &proposals[j]);
        j += 1;
    }
    let ghost k2: int = k + proposals@.len();
    match &llm.proposed_action {
        Some(p) => {
            assert(src.subrange(0, k2 + 1).drop_last() =~= src.subrange(0, k2));
            push_if_new(&mut out, p);
            assert(src.subrange(0, k2 + 1) =~= src);
        },
        None => {
            assert(src.subrange(0, k2) =~= src);
        },
    }
    out
}

proof fn lemma_match_is_equivalence(a: ActionPrimitive, b: ActionPrimitive, c: ActionPrimitive)
    ensures
        actions_match(a, a),
        actions_match(a, b) ==> actions_match(b, a),
        actions_match(a, b) && actions_match(b, c) ==> actions_match(a, c),
{
}

/// Removing repeats leaves no two entries asking for the same thing, keeps
/// something matching every entry of the input, and invents nothing.
pub proof fn lemma_without_repeats(s: Seq<ActionPrimitive>)
    ensures
        forall|i: int, j: int|
            0 <= i < j < without_repeats(s).len() ==> !actions_match(
                #[trigger] without_repeats(s)[i],
                #[trigger] without_repeats(s)[j],
            ),
        forall|k: int| 0 <= k < s.len() ==> contains_match(without_repeats(s), #[trigger] s[k]),
        forall|i: int|
            0 <= i < without_repeats(s).len() ==> #[trigger] s.contains(without_repeats(s)[i]),
    decreases s.len(),
{
    if s.len() > 0 {
        let p = s.drop_last();
        lemma_without_repeats(p);
        let kept = without_repeats(p);
        let d = without_repeats(s);
        assert forall|k: int| 0 <= k < s.len() implies contains_match(d, #[trigger] s[k]) by {
            if k < s.len() - 1 {
                assert(p[k] == s[k]);
                assert(contains_match(kept, p[k]));
                let w = choose|w: int| 0 <= w < kept.len() && actions_match(#[trigger] kept[w], p[k]);
                assert(d[w] == kept[w]);
            } else if contains_match(kept, s.last()) {
            } else {
                lemma_match_is_equivalence(s.last(), s.last(), s.last());
                assert(d[kept.len() as int] == s.last());
            }
        }
        assert forall|i: int| 0 <= i < d.len() implies #[trigger] s.contains(d[i]) by {
            if i < kept.len() {
                assert(d[i] == kept[i]);
                assert(p.contains(kept[i]));
                let w = choose|w: int| 0 <= w < p.len() && p[w] == kept[i];
                assert(s[w] == p[w]);
            } else {
                assert(d[i] == s[s.len() - 1]);
            }
        }
        assert forall|i: int, j: int| 0 <= i < j < d.len() implies !actions_match(
            #[trigger] d[i],
            #[trigger] d[j],
        ) by {
            if j < kept.len() {
                assert(d[i] == kept[i] && d[j] == kept[j]);
            } else {
                assert(d[j] == s.last());
                assert(d[i] == kept[i]);
                if actions_match(d[i], d[j]) {
                    assert(contains_match(kept, s.last()));
                }
            }
        }
    }
}

/// Every default candidate, the baseline and every proposal are among the
/// action-value candidates, which never repeat one another.
pub proof fn lemma_candidates_cover_sources(
    proposals: Seq<ActionPrimitive>,
    baseline: Option<ActionPrimitive>,
    llm: LlmTickResult,
)
    ensures
        forall|k: int|
            0 <= k < default_candidates().len() ==> contains_match(
                without_repeats(candidate_sources(proposals, baseline, llm)),
                #[trigger] default_candidates()[k],
            ),
        forall|k: int|
            0 <= k < proposals.len() ==> contains_match(
                without_repeats(candidate_sources(proposals, baseline, llm)),
                #[trigger] proposals[k],
            ),
        baseline is Some ==> contains_match(
            without_repeats(candidate_sources(proposals, baseline, llm)),
            baseline->0,
        ),
{
    let src = candidate_sources(proposals, baseline, llm);
    lemma_without_repeats(src);
    let nd = default_candidates().len() as int;
    let nb = optional(baseline).len() as int;
    assert forall|k: int| 0 <= k < nd implies contains_match(
        without_repeats(src),
        #[trigger] default_candidates()[k],
    ) by {
        assert(src[k] == default_candidates()[k]);
    }
    assert forall|k: int| 0 <= k < proposals.len() implies contains_match(
        without_repeats(src),
        #[trigger] proposals[k],
    ) by {
        assert(src[nd + nb + k] == proposals[k]);
    }
    if baseline is Some {
        assert(src[nd] == baseline->0);
    }
}

/// A conductor that always chooses the same action.
pub struct FixedConductor {
    pub action: ActionPrimitive,
}

impl FixedConductor {
    pub fn new(action: ActionPrimitive) -> (r: FixedConductor)
        ensures
            r.action == action,
    {
        FixedConductor { action }
    }

    /// The action this conductor always chooses.
    pub fn choose_action(&mut self) -> (r: ActionPrimitive)
        ensures
            r == old(self).action,
            *final(self) == *old(self),
    {
        self.action.clone()
    }
}

/// The floor of a simulated arena, in millimetres.
#[derive(Clone, Copy, Debug, PartialEq, Eq, Structural)]
pub struct ArenaConfig {
    pub width_mm: u32,
    pub height_mm: u32,
}

/// The square four-metre arena of the simulated scenarios.
pub fn arena() -> (r: ArenaConfig)
    ensures
        r == (ArenaConfig { width_mm: 4_000, height_mm: 4_000 }),
{
    ArenaConfig { width_mm: 4_000, height_mm: 4_000 }
}

} // verus!
