//! Operator reign: commands from a remote or gamepad that the runtime
//! considers until they expire or are cleared.

use vstd::prelude::*;
use crate::actions::{ActionPrimitive, ChirpPattern, TurnDir};

verus! {

#[derive(Clone, Copy, Debug, PartialEq, Eq, Structural)]
pub enum ReignSource {
    WebRemote,
    Gamepad,
}

/// How much authority an operator command claims.
#[derive(Clone, Copy, Debug, PartialEq, Eq, Structural)]
pub enum ReignMode {
    ObserveOnly,
    Suggest,
    Assist,
    Direct,
}

/// An operator command. Intensities are in thousandths of full effort.
#[derive(Debug, PartialEq, Eq)]
pub enum ReignCommand {
    Stop,
    Go { intensity_permille: i32, duration_ms: u64 },
    Reverse { intensity_permille: i32, duration_ms: u64 },
    Turn { direction: TurnDir, intensity_permille: i32, duration_ms: u64 },
    Drive { forward_permille: i32, turn_permille: i32, duration_ms: u64 },
    Dock,
    Chirp { pattern: ChirpPattern },
    Speak { text: String },
}

/// One operator command with its lifetime.
#[derive(Debug, PartialEq, Eq)]
pub struct ReignInput {
    pub id: u128,
    pub issued_at_ms: u64,
    pub expires_at_ms: u64,
    pub source: ReignSource,
    pub mode: ReignMode,
    pub command: ReignCommand,
    /// Priority in thousandths.
    pub priority_permille: u32,
    pub note: Option<String>,
}

/// What the runtime senses of operator reign at one moment.
pub struct ReignSense {
    pub active: bool,
    pub latest: Option<ReignInput>,
    pub pending_count: u64,
    pub clear_sequence: u64,
}

/// Operator commands waiting to be honoured, oldest first.
pub struct ReignQueue {
    pub pending: Vec<ReignInput>,
    /// How many times the queue was cleared.
    pub clear_sequence: u64,
}

impl Clone for ReignCommand {
    fn clone(&self) -> (r: Self)
        ensures
            r == *self,
    {
        match self {
            ReignCommand::Stop => ReignCommand::Stop,
            ReignCommand::Go { intensity_permille, duration_ms } => ReignCommand::Go {
                intensity_permille: *intensity_permille,
                duration_ms: *duration_ms,
            },
            ReignCommand::Reverse { intensity_permille, duration_ms } => ReignCommand::Reverse {
                intensity_permille: *intensity_permille,
                duration_ms: *duration_ms,
            },
            ReignCommand::Turn { direction, intensity_permille, duration_ms } => ReignCommand::Turn {
                direction: *direction,
                intensity_permille: *intensity_permille,
                duration_ms: *duration_ms,
            },
            ReignCommand::Drive { forward_permille, turn_permille, duration_ms } => {
                ReignCommand::Drive {
                    forward_permille: *forward_permille,
                    turn_permille: *turn_permille,
                    duration_ms: *duration_ms,
                }
            },
            ReignCommand::Dock => ReignCommand::Dock,
            ReignCommand::Chirp { pattern } => ReignCommand::Chirp { pattern: *pattern },
            ReignCommand::Speak { text } => ReignCommand::Speak { text: text.clone() },
        }
    }
}

impl Clone for ReignInput {
    fn clone(&self) -> (r: Self)
        ensures
            r == *self,
    {
        ReignInput {
            id: self.id,
            issued_at_ms: self.issued_at_ms,
            expires_at_ms: self.expires_at_ms,
            source: self.source,
            mode: self.mode,
            command: self.command.clone(),
            priority_permille: self.priority_permille,
            note: match &self.note {
                Some(n) => Some(n.clone()),
                None => None,
            },
        }
    }
}

/// The action an operator command asks for; reversing drives backwards.
pub open spec fn command_action(c: ReignCommand) -> ActionPrimitive {
    match c {
        ReignCommand::Stop => ActionPrimitive::Stop,
        ReignCommand::Go { intensity_permille, duration_ms } => ActionPrimitive::Go {
            intensity_permille,
            duration_ms,
        },
        ReignCommand::Reverse { intensity_permille, duration_ms } => ActionPrimitive::Go {
            intensity_permille: if intensity_permille > 0 {
                (-intensity_permille) as i32
            } else {
                intensity_permille
            },
            duration_ms,
        },
        ReignCommand::Turn { direction, intensity_permille, duration_ms } => ActionPrimitive::Turn {
            direction,
            intensity_permille,
            duration_ms,
        },
        ReignCommand::Drive { forward_permille, turn_permille, duration_ms } => {
            ActionPrimitive::Drive { forward_permille, turn_permille, duration_ms }
        },
        ReignCommand::Dock => ActionPrimitive::Dock,
        ReignCommand::Chirp { pattern } => ActionPrimitive::Chirp { pattern },
        ReignCommand::Speak { text } => ActionPrimitive::Speak { text },
    }
}

impl ReignCommand {
    /// The action this command asks the body for.
    pub fn to_action(&self) -> (r: Option<ActionPrimitive>)
        ensures
            r == Some(command_action(*self)),
    {
        Some(
            match self {
                ReignCommand::Stop => ActionPrimitive::Stop,
                ReignCommand::Go { intensity_permille, duration_ms } => ActionPrimitive::Go {
                    intensity_permille: *intensity_permille,
                    duration_ms: *duration_ms,
                },
                ReignCommand::Reverse { intensity_permille, duration_ms } => ActionPrimitive::Go {
                    intensity_permille: if *intensity_permille > 0 {
                        -*intensity_permille
                    } else {
                        *intensity_permille
                    },
                    duration_ms: *duration_ms,
                },
                ReignCommand::Turn { direction, intensity_permille, duration_ms } => {
                    ActionPrimitive::Turn {
                        direction: *direction,
                        intensity_permille: *intensity_permille,
                        duration_ms: *duration_ms,
                    }
                },
                ReignCommand::Drive { forward_permille, turn_permille, duration_ms } => {
                    ActionPrimitive::Drive {
                        forward_permille: *forward_permille,
                        turn_permille: *turn_permille,
                        duration_ms: *duration_ms,
                    }
                },
                ReignCommand::Dock => ActionPrimitive::Dock,
                ReignCommand::Chirp { pattern } => ActionPrimitive::Chirp { pattern: *pattern },
                ReignCommand::Speak { text } => ActionPrimitive::Speak { text: text.clone() },
            },
        )
    }
}

/// Whether an input is still in force at host time `now_ms`.
pub open spec fn is_live(input: ReignInput, now_ms: u64) -> bool {
    now_ms < input.expires_at_ms
}

/// The inputs of `s` still in force at `now_ms`, in order.
pub open spec fn live_inputs(s: Seq<ReignInput>, now_ms: u64) -> Seq<ReignInput>
    decreases s.len(),
{
    if s.len() == 0 {
        Seq::empty()
    } else {
        let rest = live_inputs(s.drop_last(), now_ms);
        if is_live(s.last(), now_ms) {
            rest.push(s.last())
        } else {
            rest
        }
    }
}

/// The sense the runtime has of `pending` at `now_ms`.
pub open spec fn sense_of(pending: Seq<ReignInput>, clear_sequence: u64, now_ms: u64) -> (bool, Option<ReignInput>, nat, u64) {
    let live = live_inputs(pending, now_ms);
    (
        live.len() > 0,
        if live.len() > 0 {
            Some(live.last())
        } else {
            None
        },
        live.len(),
        clear_sequence,
    )
}

/// Whether a reign sense reports `pending` at `now_ms`.
pub open spec fn sense_reports(r: ReignSense, pending: Seq<ReignInput>, clear_sequence: u64, now_ms: u64) -> bool {
    let (active, latest, count, seq) = sense_of(pending, clear_sequence, now_ms);
    &&& r.active == active
    &&& r.latest == latest
    &&& r.pending_count == count
    &&& r.clear_sequence == seq
}

proof fn lemma_live_inputs_len(s: Seq<ReignInput>, now_ms: u64)
    ensures
        live_inputs(s, now_ms).len() <= s.len(),
        forall|i: int|
            0 <= i < live_inputs(s, now_ms).len() ==> is_live(
                #[trigger] live_inputs(s, now_ms)[i],
                now_ms,
            ),
    decreases s.len(),
{
    if s.len() > 0 {
        lemma_live_inputs_len(s.drop_last(), now_ms);
    }
}

impl Default for ReignQueue {
    fn default() -> (r: ReignQueue)
        ensures
            r.pending@.len() == 0,
            r.clear_sequence == 0,
    {
        ReignQueue { pending: Vec::new(), clear_sequence: 0 }
    }
}

impl ReignQueue {
    /// Queues an operator command behind those already waiting.
    pub fn push(&mut self, input: ReignInput)
        ensures
            final(self).pending@ == old(self).pending@.push(input),
            final(self).clear_sequence == old(self).clear_sequence,
    {
        self.pending.push(input);
    }

    /// Drops every command that has expired by host time `now_ms`.
    pub fn drain_expired(&mut self, now_ms: u64)
        ensures
            final(self).pending@ == live_inputs(old(self).pending@, now_ms),
            final(self).clear_sequence == old(self).clear_sequence,
    {
        let mut kept: Vec<ReignInput> = Vec::new();
        let mut i: usize = 0;
        let n = self.pending.len();
        while i < n
            invariant
                n == self.pending@.len(),
                i <= n,
                kept@ == live_inputs(self.pending@.subrange(0, i as int), now_ms),
            decreases n - i,
        {
            assert(self.pending@.subrange(0, i + 1).drop_last() =~= self.pending@.subrange(0, i as int));
            if now_ms < self.pending[i].expires_at_ms {
                kept.push(self.pending[i].clone());
            }
            i += 1;
        }
        assert(self.pending@.subrange(0, n as int) =~= self.pending@);
        self.pending = kept;
    }

    /// Drops every waiting command and counts the clearing.
    pub fn clear(&mut self)
        ensures
            final(self).pending@.len() == 0,
            final(self).clear_sequence == (if old(self).clear_sequence < u64::MAX {
                (old(self).clear_sequence + 1) as u64
            } else {
                u64::MAX
            }),
    {
        self.pending = Vec::new();
        if self.clear_sequence < u64::MAX {
            self.clear_sequence = self.clear_sequence + 1;
        }
    }

    /// What is sensed of operator reign at host time `now_ms`: whether a
    /// command is in force, the newest such command, how many are in force,
    /// and how many times the queue was cleared.
    pub fn sense(&self, now_ms: u64) -> (r: ReignSense)
        ensures
            sense_reports(r, self.pending@, self.clear_sequence, now_ms),
    {
        let mut count: u64 = 0;
        let mut latest: Option<ReignInput> = None;
        let mut i: usize = 0;
        let n = self.pending.len();
        while i < n
            invariant
                n == self.pending@.len(),
                i <= n,
                count == live_inputs(self.pending@.subrange(0, i as int), now_ms).len(),
                count <= i,
                latest == (if count > 0 {
                    Some(live_inputs(self.pending@.subrange(0, i as int), now_ms).last())
                } else {
                    None::<ReignInput>
                }),
            decreases n - i,
        {
            assert(self.pending@.subrange(0, i + 1).drop_last() =~= self.pending@.subrange(0, i as int));
            if now_ms < self.pending[i].expires_at_ms {
                latest = Some(self.pending[i].clone());
                count = count + 1;
            }
            i += 1;
        }
        assert(self.pending@.subrange(0, n as int) =~= self.pending@);
        ReignSense { active: count > 0, latest, pending_count: count, clear_sequence: self.clear_sequence }
    }
}

/// Whether a 128-bit id is laid out as a random (version 4) UUID of the
/// RFC 4122 variant: version nibble 4, variant bits `10`.
pub open spec fn is_random_uuid(id: u128) -> bool {
    &&& (id >> 76u128) & 0xfu128 == 4
    &&& (id >> 62u128) & 3u128 == 2
}

/// Draws a random 128-bit id with `uuid::Uuid::new_v4` and returns it as
/// `Uuid::as_u128` (big-endian). The contract claims only the version and
/// variant bits that `new_v4` sets; the other 122 bits come from the random
/// number source (which panics only if the platform refuses to supply randomness).
#[verifier::external_body]
fn random_reign_id() -> (r: u128)
    ensures
        is_random_uuid(r),
{
    uuid::Uuid::new_v4().as_u128()
}

/// A web-remote command issued at `issued_at_ms` that stays in force for
/// `ttl_ms` milliseconds, at full priority and without a note, under a fresh
/// random version 4 id.
pub fn test_reign_input(issued_at_ms: u64, mode: ReignMode, command: ReignCommand, ttl_ms: u64) -> (r: ReignInput)
    requires
        issued_at_ms + ttl_ms <= u64::MAX,
    ensures
        r.issued_at_ms == issued_at_ms,
        r.expires_at_ms == issued_at_ms + ttl_ms,
        r.source == ReignSource::WebRemote,
        r.mode == mode,
        r.command == command,
        r.priority_permille == 1000,
        r.note is None,
        is_random_uuid(r.id),
{
    ReignInput {
        id: random_reign_id(),
        issued_at_ms,
        expires_at_ms: issued_at_ms + ttl_ms,
        source: ReignSource::WebRemote,
        mode,
        command,
        priority_permille: 1000,
        note: None,
    }
}

/// A command read right after it was queued, while still in force, is the
/// newest command in force.
pub proof fn lemma_pushed_command_is_latest(pending: Seq<ReignInput>, input: ReignInput, clear_sequence: u64, now_ms: u64)
    requires
        is_live(input, now_ms),
    ensures
        sense_of(pending.push(input), clear_sequence, now_ms).0,
        sense_of(pending.push(input), clear_sequence, now_ms).1 == Some(input),
        sense_of(pending.push(input), clear_sequence, now_ms).2 == sense_of(pending, clear_sequence, now_ms).2 + 1,
{
    assert(pending.push(input).drop_last() =~= pending);
}

/// Keeping only the commands in force twice keeps the same commands as once.
pub proof fn lemma_live_inputs_idempotent(s: Seq<ReignInput>, now_ms: u64)
    ensures
        live_inputs(live_inputs(s, now_ms), now_ms) == live_inputs(s, now_ms),
    decreases s.len(),
{
    if s.len() > 0 {
        let rest = live_inputs(s.drop_last(), now_ms);
        lemma_live_inputs_idempotent(s.drop_last(), now_ms);
        if is_live(s.last(), now_ms) {
            assert(rest.push(s.last()).drop_last() =~= rest);
        }
    }
}

/// Draining expired commands at `now_ms` does not change what is sensed at
/// `now_ms`, and leaves only commands still in force.
pub proof fn lemma_drain_preserves_sense(pending: Seq<ReignInput>, clear_sequence: u64, now_ms: u64)
    ensures
        sense_of(live_inputs(pending, now_ms), clear_sequence, now_ms) == sense_of(pending, clear_sequence, now_ms),
        forall|i: int|
            0 <= i < live_inputs(pending, now_ms).len() ==> is_live(
                #[trigger] live_inputs(pending, now_ms)[i],
                now_ms,
            ),
{
    lemma_live_inputs_idempotent(pending, now_ms);
    lemma_live_inputs_len(pending, now_ms);
}

/// An expired command is never sensed, and a cleared queue senses nothing.
pub proof fn lemma_expired_never_sensed(pending: Seq<ReignInput>, clear_sequence: u64, now_ms: u64)
    ensures
        sense_of(pending, clear_sequence, now_ms).1 matches Some(i) ==> is_live(i, now_ms),
        !sense_of(Seq::empty(), clear_sequence, now_ms).0,
        sense_of(Seq::empty(), clear_sequence, now_ms).1 is None,
{
    lemma_live_inputs_len(pending, now_ms);
}

/// A reverse command drives backwards: with intensity `i > 0` it becomes a
/// go at intensity `-i` for the same time, and it never drives forwards. A go
/// command keeps its intensity.
pub proof fn lemma_reverse_drives_backwards(c: ReignCommand)
    ensures
        (c matches ReignCommand::Reverse { intensity_permille: i, duration_ms: d } && i > 0)
            ==> command_action(c) == (ActionPrimitive::Go {
            intensity_permille: (-c->Reverse_intensity_permille) as i32,
            duration_ms: c->Reverse_duration_ms,
        }),
        c is Reverse ==> (command_action(c) matches ActionPrimitive::Go { intensity_permille: i, .. }
            && i <= 0),
        c is Go ==> command_action(c) == (ActionPrimitive::Go {
            intensity_permille: c->Go_intensity_permille,
            duration_ms: c->Go_duration_ms,
        }),
{
}

} // verus!
