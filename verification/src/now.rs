//! What the runtime knows at one instant: the body, the nearest range return,
//! the drives and what memory says of the current place.

use vstd::prelude::*;
use crate::body::BodySense;

verus! {

/// What the range sensors see.
#[derive(Debug)]
pub struct RangeSense {
    /// Distance to the nearest return, in millimetres, if any.
    pub nearest_mm: Option<u32>,
    /// Distance along each beam, in millimetres, from the leftmost beam to the rightmost.
    pub beams_mm: Vec<u32>,
}

/// Drive levels, in thousandths.
#[derive(Clone, Copy, Debug, PartialEq, Eq, Structural)]
pub struct DriveSense {
    pub curiosity_permille: u32,
}

/// What memory says about the current place, in thousandths.
#[derive(Clone, Copy, Debug, PartialEq, Eq, Structural)]
pub struct MemorySense {
    pub place_novelty_permille: u32,
    pub place_charge_value_permille: u32,
}

/// What the runtime knows at one instant.
#[derive(Debug)]
pub struct Now {
    pub t_ms: u64,
    pub body: BodySense,
    pub range: RangeSense,
    pub drives: DriveSense,
    pub memory: MemorySense,
}

impl Clone for RangeSense {
    fn clone(&self) -> (r: RangeSense)
        ensures
            r.nearest_mm == self.nearest_mm,
            r.beams_mm@ == self.beams_mm@,
    {
        RangeSense { nearest_mm: self.nearest_mm, beams_mm: self.beams_mm.clone() }
    }
}

impl Clone for Now {
    fn clone(&self) -> (r: Now)
        ensures
            r.t_ms == self.t_ms,
            r.body == self.body,
            r.range.nearest_mm == self.range.nearest_mm,
            r.range.beams_mm@ == self.range.beams_mm@,
            r.drives == self.drives,
            r.memory == self.memory,
    {
        Now {
            t_ms: self.t_ms,
            body: self.body,
            range: self.range.clone(),
            drives: self.drives,
            memory: self.memory,
        }
    }
}

impl Now {
    /// The moment `t_ms` with only the body known: no range return, no drive,
    /// nothing remembered of the place.
    pub fn blank(t_ms: u64, body: BodySense) -> (r: Now)
        ensures
            r.t_ms == t_ms,
            r.body == body,
            r.range.nearest_mm is None,
            r.range.beams_mm@.len() == 0,
            r.drives.curiosity_permille == 0,
            r.memory.place_novelty_permille == 0,
            r.memory.place_charge_value_permille == 0,
    {
        Now {
            t_ms,
            body,
            range: RangeSense { nearest_mm: None, beams_mm: Vec::new() },
            drives: DriveSense { curiosity_permille: 0 },
            memory: MemorySense { place_novelty_permille: 0, place_charge_value_permille: 0 },
        }
    }
}

} // verus!
