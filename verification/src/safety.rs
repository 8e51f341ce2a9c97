//! The reflexes that pre-empt every other choice: stop at a cliff or a dropped
//! wheel, turn away from a bump.

use vstd::prelude::*;
use crate::actions::{ActionPrimitive, TurnDir};
use crate::body::{any_cliff, BodySense};
use crate::now::Now;

verus! {

/// Intensity of a bump escape turn, in thousandths.
pub const BUMP_ESCAPE_INTENSITY_PERMILLE: i32 = 700;

/// Duration of a bump escape turn.
pub const BUMP_ESCAPE_DURATION_MS: u64 = 1_200;

/// The reflex action the body demands, if any: stop at any cliff sensor or a
/// dropped wheel; otherwise turn away from a bump (right for the left bumper,
/// left for the right bumper).
pub open spec fn reflex_action(body: BodySense) -> Option<ActionPrimitive> {
    if any_cliff(body.flags) || body.flags.wheel_drop {
        Some(ActionPrimitive::Stop)
    } else if body.flags.bump_left {
        Some(
            ActionPrimitive::Turn {
                direction: TurnDir::Right,
                intensity_permille: BUMP_ESCAPE_INTENSITY_PERMILLE,
                duration_ms: BUMP_ESCAPE_DURATION_MS,
            },
        )
    } else if body.flags.bump_right {
        Some(
            ActionPrimitive::Turn {
                direction: TurnDir::Left,
                intensity_permille: BUMP_ESCAPE_INTENSITY_PERMILLE,
                duration_ms: BUMP_ESCAPE_DURATION_MS,
            },
        )
    } else {
        None
    }
}

/// The reflex action that pre-empts every other choice at this moment, if any.
pub fn hard_safety_action(now: &Now) -> (r: Option<ActionPrimitive>)
    ensures
        r == reflex_action(now.body),
{
    let f = &now.body.flags;
    if f.cliff_left || f.cliff_front_left || f.cliff_front_right || f.cliff_right || f.wheel_drop {
        Some(ActionPrimitive::Stop)
    } else if f.bump_left {
        Some(
            ActionPrimitive::Turn {
                direction: TurnDir::Right,
                intensity_permille: BUMP_ESCAPE_INTENSITY_PERMILLE,
                duration_ms: BUMP_ESCAPE_DURATION_MS,
            },
        )
    } else if f.bump_right {
        Some(
            ActionPrimitive::Turn {
                direction: TurnDir::Left,
                intensity_permille: BUMP_ESCAPE_INTENSITY_PERMILLE,
                duration_ms: BUMP_ESCAPE_DURATION_MS,
            },
        )
    } else {
        None
    }
}

/// A cliff always means stopping, whatever else the body reports; and a body
/// whose reflexes demand nothing may start slow motion unless it is charging.
pub proof fn lemma_cliff_always_stops(body: BodySense)
    ensures
        any_cliff(body.flags) ==> reflex_action(body) == Some(ActionPrimitive::Stop),
        any_cliff(body.flags) ==> crate::body::slow_block_reason(body) == Some(
            "cliff sensor active"@,
        ),
        reflex_action(body) is None ==> (crate::body::slow_block_reason(body) is Some
            <==> body.charging),
{
}

/// A bump turns the body away from the bumper that was hit (right for the
/// left bumper, left for the right), at the escape intensity and duration,
/// unless a cliff or a dropped wheel demands a stop; a dropped wheel always
/// stops; a body with no contact, cliff or drop demands nothing.
pub proof fn lemma_reflexes_turn_away_from_bumps(body: BodySense)
    ensures
        body.flags.wheel_drop ==> reflex_action(body) == Some(ActionPrimitive::Stop),
        !any_cliff(body.flags) && !body.flags.wheel_drop && body.flags.bump_left ==> reflex_action(
            body,
        ) == Some(
            ActionPrimitive::Turn { direction: TurnDir::Right, intensity_permille: 700, duration_ms: 1_200 },
        ),
        !any_cliff(body.flags) && !body.flags.wheel_drop && !body.flags.bump_left
            && body.flags.bump_right ==> reflex_action(body) == Some(
            ActionPrimitive::Turn { direction: TurnDir::Left, intensity_permille: 700, duration_ms: 1_200 },
        ),
        !body.flags.cliff_left && !body.flags.cliff_front_left && !body.flags.cliff_front_right
            && !body.flags.cliff_right && !body.flags.wheel_drop && !body.flags.bump_left
            && !body.flags.bump_right ==> reflex_action(body) is None,
{
}

} // verus!
