//! The reaction pipeline connects session state changes to pet reactions,
//! with a cooldown between reactions.

use vstd::prelude::*;
use vstd::string::*;
use crate::clock::unix_time_precise;
use crate::event::Event;
use crate::mood::{Mood, interacted, next_mood_name, lemma_interaction_mood};
use crate::opencode_state::StateChange;
use crate::reaction::{Reaction, ReactionMode, TaskSummary, generate_reaction, reaction_for, reaction_is};
use crate::species::PetState;
use crate::xp::{award_xp, awarded, can_award, lemma_settle, settle};

verus! {

/// The reaction pipeline. `last_reaction` is the instant of the last
/// reaction, as whole seconds since the Unix epoch and nanoseconds past
/// that second.
#[derive(Debug, Clone, Copy)]
pub struct ReactionPipeline {
    mode: ReactionMode,
    cooldown_secs: u64,
    last_reaction: Option<(i64, u32)>,
}

/// The nanoseconds from the instant `last` to the instant `now`, each given
/// as whole seconds and nanoseconds past them.
pub open spec fn elapsed_nanos(now: (i64, u32), last: (i64, u32)) -> int {
    (now.0 - last.0) * 1_000_000_000 + (now.1 - last.1)
}

/// Whole seconds from `last` to `now`, truncated toward zero.
pub open spec fn elapsed_secs(now: (i64, u32), last: (i64, u32)) -> int {
    let d = elapsed_nanos(now, last);
    if d >= 0 {
        d / 1_000_000_000
    } else {
        -((-d) / 1_000_000_000)
    }
}

/// Whether a reaction at `last` still blocks reactions at `now`: fewer
/// whole seconds than the cooldown (read as `i64`) have passed.
pub open spec fn in_cooldown(last: Option<(i64, u32)>, cooldown_secs: u64, now: (i64, u32)) -> bool {
    match last {
        Some(l) => elapsed_secs(now, l) < (cooldown_secs as i64),
        None => false,
    }
}

/// Whether `b` is what a reaction to a task leaves of the pet `a`: the
/// pet earns `xp` and then has an interaction at `now`.
pub open spec fn rewarded(a: PetState, xp: u32, success: bool, errors: u32, now: i64, b: PetState) -> bool {
    exists|mid: PetState, events: Seq<Event>|
        awarded(a, xp, mid, events) && interacted(mid, success, errors, now, b)
}

/// Whether `change`, if it gets a reaction in `mode`, can be rewarded to
/// `pet` without the XP award overflowing. Only a finished task or an error
/// gets a reaction, and only in a mode other than Silent.
pub open spec fn can_process(pet: PetState, change: StateChange, mode: ReactionMode) -> bool {
    mode != ReactionMode::Silent ==> match change {
        StateChange::TaskCompleted { .. } => can_award(pet, 50),
        StateChange::Error { .. } => can_award(pet, 10),
        StateChange::AgentStateChanged { .. } => true,
    }
}

/// Whether processing `change` at the instant `now` (whole seconds and
/// nanoseconds) takes the pipeline from `a` to `b` and the pet from `p` to
/// `q`, answering `r`.
pub open spec fn processed(
    a: ReactionPipeline,
    b: ReactionPipeline,
    p: PetState,
    q: PetState,
    change: StateChange,
    r: Option<Reaction>,
    now: (i64, u32),
) -> bool {
    &&& b.spec_mode() == a.spec_mode()
    &&& b.spec_cooldown() == a.spec_cooldown()
    &&& in_cooldown(a.spec_last_reaction(), a.spec_cooldown(), now) ==> {
        &&& r is None
        &&& b == a
        &&& q == p
    }
    &&& !in_cooldown(a.spec_last_reaction(), a.spec_cooldown(), now) ==> {
            let task = match change {
                StateChange::TaskCompleted { summary } => Some(
                    (summary.task_name@, summary.success, summary.error_count, 50u32),
                ),
                StateChange::Error { message } => Some(("error: "@ + message@, false, 1u32, 10u32)),
                StateChange::AgentStateChanged { .. } => None,
            };
            match task {
                None => r is None && b == a && q == p,
                Some((name, success, errors, xp)) => match (
                    r,
                    reaction_for(p.stats, name, success, errors, a.spec_mode()),
                ) {
                    (Some(x), Some(s)) => {
                        &&& reaction_is(x, s)
                        &&& b.spec_last_reaction() == Some(now)
                        &&& rewarded(p, xp, success, errors, now.0, q)
                    },
                    (None, None) => b == a && q == p,
                    _ => false,
                },
            }
        }
}

/// The cooldown law: once a change has been answered with a reaction at
/// `t1`, a change processed fewer whole seconds than the cooldown later
/// gets no reaction and leaves the pipeline and the pet as they were.
pub proof fn lemma_cooldown_blocks(
    a: ReactionPipeline,
    b: ReactionPipeline,
    c: ReactionPipeline,
    p: PetState,
    q: PetState,
    q2: PetState,
    first: StateChange,
    second: StateChange,
    x: Reaction,
    r2: Option<Reaction>,
    t1: (i64, u32),
    t2: (i64, u32),
)
    requires
        processed(a, b, p, q, first, Some(x), t1),
        processed(b, c, q, q2, second, r2, t2),
        elapsed_secs(t2, t1) < (a.spec_cooldown() as i64),
    ensures
        r2 is None,
        c == b,
        q2 == q,
{
}

/// Changes of agent state never get a reaction, and leave the pipeline
/// and the pet as they were.
pub proof fn lemma_state_changes_are_silent(
    a: ReactionPipeline,
    b: ReactionPipeline,
    p: PetState,
    q: PetState,
    change: StateChange,
    r: Option<Reaction>,
    t: (i64, u32),
)
    requires
        processed(a, b, p, q, change, r, t),
        change is AgentStateChanged,
    ensures
        r is None,
        b == a,
        q == p,
{
}

/// A reaction to a finished task moves the pet's mood as an interaction
/// with that task's own outcome does: the new mood is the next mood of the
/// pet's mood for the task's success and error count, so a failed task with
/// more than two errors leaves the pet grumpy, one with one or two errors
/// curious, and a success lifts a neutral or grumpy pet to content and a
/// content one to happy. The interaction is dated at the instant's whole
/// seconds, and the pet earns 50 XP before its level bonuses.
pub proof fn lemma_reaction_sets_mood(
    a: ReactionPipeline,
    b: ReactionPipeline,
    p: PetState,
    q: PetState,
    summary: TaskSummary,
    x: Reaction,
    now: (i64, u32),
)
    requires
        processed(a, b, p, q, StateChange::TaskCompleted { summary }, Some(x), now),
    ensures
        q.mood@ == next_mood_name(p.mood@, summary.success, summary.error_count),
        !summary.success && summary.error_count > 2 ==> q.mood@ == "grumpy"@,
        !summary.success && 0 < summary.error_count <= 2 ==> q.mood@ == "curious"@,
        !summary.success && summary.error_count == 0 ==> q.mood@ == p.mood@,
        summary.success && (p.mood@ == "neutral"@ || p.mood@ == "grumpy"@) ==> q.mood@ == "content"@,
        summary.success && p.mood@ == "content"@ ==> q.mood@ == "happy"@,
        q.last_interaction == Some(now.0),
        (q.level as int, q.xp as int) == settle(p.level as int, p.xp + 50),
        q.xp >= p.xp + 50,
        q.stats == p.stats,
        reaction_for(p.stats, summary.task_name@, summary.success, summary.error_count, a.spec_mode())
            matches Some(s) && reaction_is(x, s),
        b.spec_last_reaction() == Some(now),
        b.spec_mode() == a.spec_mode(),
{
    let (mid, events) = choose|mid: PetState, events: Seq<Event>|
        awarded(p, 50, mid, events) && interacted(mid, summary.success, summary.error_count, now.0, q);
    assert(mid.mood == p.mood);
    lemma_interaction_mood(mid, summary.success, summary.error_count, now.0, q);
    lemma_settle(p.level as int, p.xp + 50);
}

/// A reaction to an error moves the pet's mood as a failed task with one
/// error does: the pet turns curious, earning 10 XP before its level
/// bonuses.
pub proof fn lemma_error_makes_curious(
    a: ReactionPipeline,
    b: ReactionPipeline,
    p: PetState,
    q: PetState,
    message: String,
    x: Reaction,
    now: (i64, u32),
)
    requires
        processed(a, b, p, q, StateChange::Error { message }, Some(x), now),
    ensures
        q.mood@ == "curious"@,
        q.last_interaction == Some(now.0),
        (q.level as int, q.xp as int) == settle(p.level as int, p.xp + 10),
        q.xp >= p.xp + 10,
        reaction_for(p.stats, "error: "@ + message@, false, 1, a.spec_mode()) matches Some(s)
            && reaction_is(x, s),
        b.spec_last_reaction() == Some(now),
{
    let (mid, events) = choose|mid: PetState, events: Seq<Event>|
        awarded(p, 10, mid, events) && interacted(mid, false, 1, now.0, q);
    assert(mid.mood == p.mood);
    lemma_interaction_mood(mid, false, 1, now.0, q);
    lemma_settle(p.level as int, p.xp + 10);
}

impl ReactionPipeline {
    /// The reaction mode.
    pub closed spec fn spec_mode(&self) -> ReactionMode {
        self.mode
    }

    /// The cooldown between reactions, in seconds.
    pub closed spec fn spec_cooldown(&self) -> u64 {
        self.cooldown_secs
    }

    /// When the last reaction happened (seconds and nanoseconds), if ever.
    pub closed spec fn spec_last_reaction(&self) -> Option<(i64, u32)> {
        self.last_reaction
    }

    /// A pipeline in `mode` with a cooldown of `cooldown_secs` seconds.
    pub fn new(mode: ReactionMode, cooldown_secs: u64) -> (p: Self)
        ensures
            p.spec_mode() == mode,
            p.spec_cooldown() == cooldown_secs,
            p.spec_last_reaction() is None,
    {
        ReactionPipeline { mode, cooldown_secs, last_reaction: None }
    }

    /// A pipeline in `mode` with the default 30 second cooldown.
    pub fn from_config(mode: ReactionMode) -> (p: Self)
        ensures
            p.spec_mode() == mode,
            p.spec_cooldown() == 30,
            p.spec_last_reaction() is None,
    {
        Self::new(mode, 30)
    }

    /// Process a state change at the instant `now_secs` seconds and
    /// `now_nanos` nanoseconds after the Unix epoch, and optionally return a
    /// pet reaction.
    ///
    /// Within the cooldown of the last reaction nothing happens. Agent
    /// state changes never trigger a reaction. A finished task, or an
    /// error (as a failed task "error: {message}" with one error), gets the
    /// reaction of the mode; when there is one, the pet earns 50 XP for a
    /// task (10 for an error), its mood follows the outcome, and the
    /// cooldown starts.
    pub fn process_at(&mut self, pet: &mut PetState, change: StateChange, now_secs: i64, now_nanos: u32) -> (r: Option<Reaction>)
        requires
            !in_cooldown(old(self).spec_last_reaction(), old(self).spec_cooldown(), (now_secs, now_nanos))
                ==> can_process(*old(pet), change, old(self).spec_mode()),
        ensures
            processed(*old(self), *final(self), *old(pet), *final(pet), change, r, (now_secs, now_nanos)),
    {
        if let Some(last) = self.last_reaction {
            let ds: i128 = now_secs as i128 - last.0 as i128;
            let dn: i128 = now_nanos as i128 - last.1 as i128;
            assert(-0x1_0000_0000_0000_0000 < ds < 0x1_0000_0000_0000_0000);
            assert(ds * 1_000_000_000 < 0x1_0000_0000_0000_0000 * 1_000_000_000 && -0x1_0000_0000_0000_0000 * 1_000_000_000 < ds * 1_000_000_000) by (nonlinear_arith)
                requires
                    -0x1_0000_0000_0000_0000 < ds < 0x1_0000_0000_0000_0000,
            ;
            let d: i128 = ds * 1_000_000_000 + dn;
            assert(d == elapsed_nanos((now_secs, now_nanos), last));
            let elapsed: i128 = if d >= 0 {
                d / 1_000_000_000
            } else {
                -((-d) / 1_000_000_000)
            };
            if elapsed < (self.cooldown_secs as i64) as i128 {
                return None;
            }
        }
        match change {
            StateChange::TaskCompleted { summary } => {
                let reaction = generate_reaction(pet, &summary, &self.mode);
                if reaction.is_some() {
                    self.last_reaction = Some((now_secs, now_nanos));
                    let mut reason = "task:".to_owned();
                    reason.append(summary.task_name.as_str());
                    let ghost before = *pet;
                    let events = award_xp(pet, 50, reason.as_str());
                    let ghost mid = *pet;
                    Mood::apply_interaction(pet, summary.success, summary.error_count, now_secs);
                    assert(awarded(before, 50, mid, events@));
                }
                reaction
            },
            StateChange::AgentStateChanged { .. } => None,
            StateChange::Error { message } => {
                let mut name = "error: ".to_owned();
                name.append(message.as_str());
                let summary = TaskSummary::new(name.as_str(), false, 1);
                let reaction = generate_reaction(pet, &summary, &self.mode);
                if reaction.is_some() {
                    self.last_reaction = Some((now_secs, now_nanos));
                    let mut reason = "error:".to_owned();
                    reason.append(message.as_str());
                    let ghost before = *pet;
                    let events = award_xp(pet, 10, reason.as_str());
                    let ghost mid = *pet;
                    Mood::apply_interaction(pet, false, 1, now_secs);
                    assert(awarded(before, 10, mid, events@));
                }
                reaction
            },
        }
    }

    /// Process a state change now (by the wall clock, read once) and
    /// optionally return a pet reaction; see `process_at`.
    pub fn process(&mut self, pet: &mut PetState, change: StateChange) -> (r: Option<Reaction>)
        requires
            can_process(*old(pet), change, old(self).spec_mode()),
        ensures
            exists|now: (i64, u32)|
                processed(*old(self), *final(self), *old(pet), *final(pet), change, r, now),
    {
        let now = unix_time_precise();
        self.process_at(pet, change, now.0, now.1)
    }

    /// Switch the reaction mode.
    pub fn set_mode(&mut self, mode: ReactionMode)
        ensures
            final(self).spec_mode() == mode,
            final(self).spec_cooldown() == old(self).spec_cooldown(),
            final(self).spec_last_reaction() == old(self).spec_last_reaction(),
    {
        self.mode = mode;
    }

    /// The reaction mode.
    pub fn mode(&self) -> (m: &ReactionMode)
        ensures
            *m == self.spec_mode(),
    {
        &self.mode
    }
}

} // verus!
