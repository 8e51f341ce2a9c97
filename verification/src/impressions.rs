//! Direct impressions: what the robot's own senses make it say about itself,
//! in the first person and with a plain word for how sure it is.

use vstd::prelude::*;
use crate::body::{any_cliff, BodySense, CliffLevels};
use crate::now::Now;

verus! {

/// Analog cliff risk, in thousandths, from which an unflagged cliff sensor
/// makes the robot unsure of the floor.
pub const UNCERTAIN_CLIFF_RISK_PERMILLE: u32 = 500;

/// A reading that an impression is about.
pub struct Sensation {
    pub kind: String,
}

/// A first-person statement about a sensation.
pub struct Impression {
    pub kind: String,
    pub text: String,
    /// Which generator wrote the text.
    pub generator: String,
    /// Kind of the sensation the impression is about.
    pub sensation_kind: String,
}

/// The highest analog cliff risk of the four sensors.
pub open spec fn highest_cliff_risk(c: CliffLevels) -> u32 {
    let a = if c.left >= c.front_left {
        c.left
    } else {
        c.front_left
    };
    let b = if c.front_right >= c.right {
        c.front_right
    } else {
        c.right
    };
    if a >= b {
        a
    } else {
        b
    }
}

/// What the robot says about the floor: a fired cliff flag means it falls
/// away; a high analog risk without a flag only makes the robot unsure.
pub open spec fn floor_phrase(b: BodySense) -> Seq<char> {
    if any_cliff(b.flags) {
        "I'm pretty sure the floor feels like it falls away near me."@
    } else if highest_cliff_risk(b.cliff_sensors) >= UNCERTAIN_CLIFF_RISK_PERMILLE {
        "I think my cliff IR signal is uncertain, so I'm not sure the floor is there."@
    } else {
        "I'm confident the floor is solid under me."@
    }
}

pub open spec fn wheel_phrase(b: BodySense) -> Seq<char> {
    if b.flags.wheel_drop {
        " I'm confident a wheel has dropped."@
    } else {
        Seq::empty()
    }
}

pub open spec fn bump_phrase(b: BodySense) -> Seq<char> {
    if b.flags.bump_left || b.flags.bump_right {
        " I'm pretty sure I bumped into something."@
    } else {
        Seq::empty()
    }
}

pub open spec fn charging_phrase(b: BodySense) -> Seq<char> {
    if b.charging {
        " I'm confident I'm charging."@
    } else {
        Seq::empty()
    }
}

/// The body-state impression text: the floor, then a dropped wheel, a bump
/// and charging, each only when it holds.
pub open spec fn body_state_text(b: BodySense) -> Seq<char> {
    floor_phrase(b) + wheel_phrase(b) + bump_phrase(b) + charging_phrase(b)
}

fn highest_cliff_risk_of(c: &CliffLevels) -> (r: u32)
    ensures
        r == highest_cliff_risk(*c),
{
    let a = if c.left >= c.front_left {
        c.left
    } else {
        c.front_left
    };
    let b = if c.front_right >= c.right {
        c.front_right
    } else {
        c.right
    };
    if a >= b {
        a
    } else {
        b
    }
}

/// The first-person text of the body-state impression.
pub fn body_state_impression_text(body: &BodySense) -> (r: String)
    ensures
        r@ == body_state_text(*body),
{
    let f = &body.flags;
    let mut text = if f.cliff_left || f.cliff_front_left || f.cliff_front_right || f.cliff_right {
        "I'm pretty sure the floor feels like it falls away near me.".to_owned()
    } else if highest_cliff_risk_of(&body.cliff_sensors) >= UNCERTAIN_CLIFF_RISK_PERMILLE {
        "I think my cliff IR signal is uncertain, so I'm not sure the floor is there.".to_owned()
    } else {
        "I'm confident the floor is solid under me.".to_owned()
    };
    let ghost floor = text@;
    if f.wheel_drop {
        text.append(" I'm confident a wheel has dropped.");
    }
    assert(text@ =~= floor + wheel_phrase(*body));
    let ghost with_wheel = text@;
    if f.bump_left || f.bump_right {
        text.append(" I'm pretty sure I bumped into something.");
    }
    assert(text@ =~= with_wheel + bump_phrase(*body));
    let ghost with_bump = text@;
    if body.charging {
        text.append(" I'm confident I'm charging.");
    }
    assert(text@ =~= with_bump + charging_phrase(*body));
    text
}

/// The impressions the senses of `now` give directly, with the sensations
/// they are about: the body's state, written by the mechanical generator.
pub fn derive_direct_impressions_from_now(now: &Now) -> (r: (Vec<Sensation>, Vec<Impression>))
    ensures
        r.0@.len() == 1,
        r.0@[0].kind@ == "body.state"@,
        r.1@.len() == 1,
        r.1@[0].kind@ == "body.state.impression"@,
        r.1@[0].text@ == body_state_text(now.body),
        r.1@[0].generator@ == "mechanical"@,
        r.1@[0].sensation_kind@ == "body.state"@,
{
    let mut sensations: Vec<Sensation> = Vec::new();
    sensations.push(Sensation { kind: "body.state".to_owned() });
    let mut impressions: Vec<Impression> = Vec::new();
    impressions.push(
        Impression {
            kind: "body.state.impression".to_owned(),
            text: body_state_impression_text(&now.body),
            generator: "mechanical".to_owned(),
            sensation_kind: "body.state".to_owned(),
        },
    );
    (sensations, impressions)
}

/// The robot says the floor falls away exactly when a cliff flag fired: an
/// analog cliff risk alone only makes it unsure.
pub proof fn lemma_floor_falls_away_only_on_a_flag(b: BodySense)
    ensures
        (floor_phrase(b) == "I'm pretty sure the floor feels like it falls away near me."@)
            <==> any_cliff(b.flags),
        !any_cliff(b.flags) && highest_cliff_risk(b.cliff_sensors) >= UNCERTAIN_CLIFF_RISK_PERMILLE
            ==> floor_phrase(b)
            == "I think my cliff IR signal is uncertain, so I'm not sure the floor is there."@,
{
    reveal_strlit("I'm pretty sure the floor feels like it falls away near me.");
    reveal_strlit("I think my cliff IR signal is uncertain, so I'm not sure the floor is there.");
    reveal_strlit("I'm confident the floor is solid under me.");
    let falls = "I'm pretty sure the floor feels like it falls away near me."@;
    let unsure = "I think my cliff IR signal is uncertain, so I'm not sure the floor is there."@;
    let solid = "I'm confident the floor is solid under me."@;
    assert(falls != unsure) by {
        assert(falls.len() != unsure.len());
    }
    assert(falls != solid) by {
        assert(falls.len() != solid.len());
    }
}

/// The body-state impression speaks in the first person: it starts with "I".
pub proof fn lemma_body_state_text_is_first_person(b: BodySense)
    ensures
        body_state_text(b).len() > 0,
        body_state_text(b)[0] == 'I',
{
    reveal_strlit("I'm pretty sure the floor feels like it falls away near me.");
    reveal_strlit("I think my cliff IR signal is uncertain, so I'm not sure the floor is there.");
    reveal_strlit("I'm confident the floor is solid under me.");
    let f = floor_phrase(b);
    assert(f.len() > 0 && f[0] == 'I');
    assert(body_state_text(b)[0] == f[0]);
}

} // verus!
