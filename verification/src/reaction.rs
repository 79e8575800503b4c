//! Reactions of the pet to a finished task, shaped by its reaction mode
//! and personality.

use vstd::prelude::*;
use vstd::string::*;
use crate::species::PetState;
use crate::stats::PersonalityStats;
use crate::text::{decimal, u32_to_decimal, contains_seq};

verus! {

/// How the pet reacts to tasks.
#[derive(Debug, Clone, Copy, PartialEq, Eq, Structural)]
pub enum ReactionMode {
    Backseat,
    Cheerleader,
    Both,
    /// Silent: the pet shows but does not react.
    Silent,
}

/// A finished task.
#[derive(Debug, Clone)]
pub struct TaskSummary {
    pub task_name: String,
    pub success: bool,
    pub error_count: u32,
}

impl TaskSummary {
    /// A summary of the task `task_name`.
    pub fn new(task_name: &str, success: bool, error_count: u32) -> (t: Self)
        ensures
            t.task_name@ == task_name@,
            t.success == success,
            t.error_count == error_count,
    {
        TaskSummary { task_name: task_name.to_owned(), success, error_count }
    }
}

/// A reaction: its text, its effect on mood and whether it is technical.
#[derive(Debug, Clone)]
pub struct Reaction {
    pub text: String,
    pub mood_impact: i8,
    pub is_technical: bool,
}

/// The content of a reaction: text, mood impact, technical flag.
pub type ReactionSpec = (Seq<char>, i8, bool);

/// Whether `r` has the content `s`.
pub open spec fn reaction_is(r: Reaction, s: ReactionSpec) -> bool {
    r.text@ == s.0 && r.mood_impact == s.1 && r.is_technical == s.2
}

/// The cheering reaction to a success; a snarky pet (snark above 10) is
/// grudging.
pub open spec fn cheerleader_spec(name: Seq<char>, stats: PersonalityStats) -> ReactionSpec {
    if stats.snark > 10 {
        ("'"@ + name + "'? I mean, sure, you did it."@, 1, false)
    } else {
        ("Great job on "@ + name + "! That was awesome!"@, 2, false)
    }
}

/// The backseat reaction to a failure: gleeful for a chaotic pet (chaos
/// above 15), technical advice for a debugging-minded one (debugging above
/// 10), otherwise a plain remark.
pub open spec fn backseat_error_spec(name: Seq<char>, errors: u32, stats: PersonalityStats) -> ReactionSpec {
    if stats.chaos > 15 {
        (decimal(errors as nat) + " errors in '"@ + name + "'. Chaos reigns. Good."@, 1, false)
    } else if stats.debugging > 10 {
        (
            "'"@ + name + "' failed "@ + decimal(errors as nat)
                + " times. Check error handling and edge cases."@,
            1,
            true,
        )
    } else {
        ("'"@ + name + "' had "@ + decimal(errors as nat) + " errors. Something's off."@, 1, false)
    }
}

/// The backseat reaction to a success: advice from a wise pet (wisdom
/// above 10), otherwise approval.
pub open spec fn backseat_success_spec(name: Seq<char>, stats: PersonalityStats) -> ReactionSpec {
    if stats.wisdom > 10 {
        (
            "'"@ + name + "' completed. Consider adding tests and error handling next time."@,
            0,
            true,
        )
    } else {
        ("'"@ + name + "' done. Looks clean!"@, 1, false)
    }
}

/// The encouraging reaction to a failure.
pub open spec fn encouragement_spec(name: Seq<char>) -> ReactionSpec {
    (name + " didn't work out, but you'll get there! Keep going!"@, 0, false)
}

/// The reaction that `mode` gives to a task: none in mode Silent; to a
/// success, cheering where cheering is allowed and backseat approval
/// otherwise; to a failure, backseat criticism where it is allowed and
/// encouragement otherwise.
pub open spec fn reaction_for(
    stats: PersonalityStats,
    name: Seq<char>,
    success: bool,
    errors: u32,
    mode: ReactionMode,
) -> Option<ReactionSpec> {
    match mode {
        ReactionMode::Silent => None,
        ReactionMode::Cheerleader => if success {
            Some(cheerleader_spec(name, stats))
        } else {
            Some(encouragement_spec(name))
        },
        ReactionMode::Backseat => if success {
            Some(backseat_success_spec(name, stats))
        } else {
            Some(backseat_error_spec(name, errors, stats))
        },
        ReactionMode::Both => if success {
            Some(cheerleader_spec(name, stats))
        } else {
            Some(backseat_error_spec(name, errors, stats))
        },
    }
}

/// Whether `r` is the reaction that `mode` gives to `task` for `state`.
pub open spec fn reacts(state: PetState, task: TaskSummary, mode: ReactionMode, r: Option<Reaction>) -> bool {
    match (r, reaction_for(state.stats, task.task_name@, task.success, task.error_count, mode)) {
        (Some(x), Some(s)) => reaction_is(x, s),
        (None, None) => true,
        _ => false,
    }
}

/// Generate a reaction to a completed task; mode Silent stays silent.
pub fn generate_reaction(state: &PetState, task: &TaskSummary, mode: &ReactionMode) -> (r: Option<Reaction>)
    ensures
        reacts(*state, *task, *mode, r),
        r is Some <==> *mode != ReactionMode::Silent,
{
    if matches!(mode, ReactionMode::Silent) {
        return None;
    }
    let allow_cheerleader = matches!(mode, ReactionMode::Cheerleader | ReactionMode::Both);
    let allow_backseat = matches!(mode, ReactionMode::Backseat | ReactionMode::Both);
    if task.success {
        if allow_cheerleader {
            return Some(cheerleader_reaction(task, state));
        }
        if allow_backseat {
            return Some(backseat_success_reaction(task, state));
        }
    } else {
        if allow_backseat {
            return Some(backseat_error_reaction(task, state));
        }
        if allow_cheerleader {
            return Some(encouragement_reaction(task, state));
        }
    }
    None
}

/// The cheering reaction.
fn cheerleader_reaction(task: &TaskSummary, state: &PetState) -> (r: Reaction)
    ensures
        reaction_is(r, cheerleader_spec(task.task_name@, state.stats)),
{
    if state.stats.snark > 10 {
        let mut text = "'".to_owned();
        text.append(task.task_name.as_str());
        text.append("'? I mean, sure, you did it.");
        Reaction { text, mood_impact: 1, is_technical: false }
    } else {
        let mut text = "Great job on ".to_owned();
        text.append(task.task_name.as_str());
        text.append("! That was awesome!");
        Reaction { text, mood_impact: 2, is_technical: false }
    }
}

/// The backseat reaction to a failed task.
pub fn backseat_error_reaction(task: &TaskSummary, state: &PetState) -> (r: Reaction)
    ensures
        reaction_is(r, backseat_error_spec(task.task_name@, task.error_count, state.stats)),
{
    if state.stats.chaos > 15 {
        let mut text = u32_to_decimal(task.error_count);
        text.append(" errors in '");
        text.append(task.task_name.as_str());
        text.append("'. Chaos reigns. Good.");
        Reaction { text, mood_impact: 1, is_technical: false }
    } else if state.stats.debugging > 10 {
        let mut text = "'".to_owned();
        text.append(task.task_name.as_str());
        text.append("' failed ");
        text.append(u32_to_decimal(task.error_count).as_str());
        text.append(" times. Check error handling and edge cases.");
        Reaction { text, mood_impact: 1, is_technical: true }
    } else {
        let mut text = "'".to_owned();
        text.append(task.task_name.as_str());
        text.append("' had ");
        text.append(u32_to_decimal(task.error_count).as_str());
        text.append(" errors. Something's off.");
        Reaction { text, mood_impact: 1, is_technical: false }
    }
}

/// The backseat reaction to a successful task.
pub fn backseat_success_reaction(task: &TaskSummary, state: &PetState) -> (r: Reaction)
    ensures
        reaction_is(r, backseat_success_spec(task.task_name@, state.stats)),
{
    if state.stats.wisdom > 10 {
        let mut text = "'".to_owned();
        text.append(task.task_name.as_str());
        text.append("' completed. Consider adding tests and error handling next time.");
        Reaction { text, mood_impact: 0, is_technical: true }
    } else {
        let mut text = "'".to_owned();
        text.append(task.task_name.as_str());
        text.append("' done. Looks clean!");
        Reaction { text, mood_impact: 1, is_technical: false }
    }
}

/// The encouraging reaction to a failed task.
pub fn encouragement_reaction(task: &TaskSummary, _state: &PetState) -> (r: Reaction)
    ensures
        reaction_is(r, encouragement_spec(task.task_name@)),
{
    let mut text = task.task_name.clone();
    text.append(" didn't work out, but you'll get there! Keep going!");
    Reaction { text, mood_impact: 0, is_technical: false }
}

/// `b` occurs in `a + b + c`.
pub proof fn lemma_contains_middle(a: Seq<char>, b: Seq<char>, c: Seq<char>)
    ensures
        contains_seq(a + b + c, b),
{
    let s = a + b + c;
    assert(s.subrange(a.len() as int, (a.len() + b.len()) as int) =~= b);
}

/// Every reaction names the task it reacts to.
pub proof fn lemma_reaction_names_task(
    stats: PersonalityStats,
    name: Seq<char>,
    success: bool,
    errors: u32,
    mode: ReactionMode,
)
    ensures
        reaction_for(stats, name, success, errors, mode) matches Some(s) ==> contains_seq(s.0, name),
{
    let d = decimal(errors as nat);
    lemma_contains_middle("'"@, name, "'? I mean, sure, you did it."@);
    lemma_contains_middle("Great job on "@, name, "! That was awesome!"@);
    lemma_contains_middle(d + " errors in '"@, name, "'. Chaos reigns. Good."@);
    lemma_contains_middle(
        "'"@,
        name,
        "' failed "@ + d + " times. Check error handling and edge cases."@,
    );
    lemma_contains_middle("'"@, name, "' had "@ + d + " errors. Something's off."@);
    lemma_contains_middle(
        "'"@,
        name,
        "' completed. Consider adding tests and error handling next time."@,
    );
    lemma_contains_middle("'"@, name, "' done. Looks clean!"@);
    lemma_contains_middle(Seq::empty(), name, " didn't work out, but you'll get there! Keep going!"@);
    assert("'"@ + name + ("' failed "@ + d + " times. Check error handling and edge cases."@)
        =~= "'"@ + name + "' failed "@ + d + " times. Check error handling and edge cases."@);
    assert("'"@ + name + ("' had "@ + d + " errors. Something's off."@) =~= "'"@ + name
        + "' had "@ + d + " errors. Something's off."@);
    assert(Seq::<char>::empty() + name + " didn't work out, but you'll get there! Keep going!"@
        =~= name + " didn't work out, but you'll get there! Keep going!"@);
}

/// How the backseat judges a failed task (in modes Backseat and Both): a
/// chaotic pet (chaos above 15) gloats "{errors} errors in '{name}'. Chaos
/// reigns. Good." whatever its other stats; only a pet that is not chaotic
/// and likes debugging (above 10) gives technical advice, "'{name}' failed
/// {errors} times. ..."; any other pet remarks "'{name}' had {errors}
/// errors. ...". Each of these moves the mood by 1, and only the advice is
/// technical.
pub proof fn lemma_backseat_error_choice(
    stats: PersonalityStats,
    name: Seq<char>,
    errors: u32,
    mode: ReactionMode,
)
    requires
        mode == ReactionMode::Backseat || mode == ReactionMode::Both,
    ensures
        reaction_for(stats, name, false, errors, mode) matches Some(r) && {
            &&& r.1 == 1
            &&& r.2 <==> (stats.chaos <= 15 && stats.debugging > 10)
            &&& stats.chaos > 15 ==> r.0 == decimal(errors as nat) + " errors in '"@ + name
                + "'. Chaos reigns. Good."@
            &&& stats.chaos <= 15 && stats.debugging > 10 ==> r.0 == "'"@ + name + "' failed "@
                + decimal(errors as nat) + " times. Check error handling and edge cases."@
            &&& stats.chaos <= 15 && stats.debugging <= 10 ==> r.0 == "'"@ + name + "' had "@
                + decimal(errors as nat) + " errors. Something's off."@
        },
{
}

/// Which reaction each mode gives. Silent never reacts; every other mode
/// always does. A success is cheered in modes Cheerleader and Both (a
/// snarky pet, snark above 10, grudgingly: "'{name}'? I mean, sure, you did
/// it.", otherwise "Great job on {name}! That was awesome!"), and approved in
/// mode Backseat (with technical advice from a wise pet, wisdom above 10). A
/// failure is judged in modes Backseat and Both (see
/// `lemma_backseat_error_choice`) and met with encouragement in mode
/// Cheerleader: "{name} didn't work out, but you'll get there! Keep going!".
pub proof fn lemma_reaction_choice(
    stats: PersonalityStats,
    name: Seq<char>,
    success: bool,
    errors: u32,
    mode: ReactionMode,
)
    ensures
        reaction_for(stats, name, success, errors, mode) is None <==> mode == ReactionMode::Silent,
        success && (mode == ReactionMode::Cheerleader || mode == ReactionMode::Both) ==> {
            let r = reaction_for(stats, name, success, errors, mode)->0;
            &&& !r.2
            &&& stats.snark > 10 ==> r.0 == "'"@ + name + "'? I mean, sure, you did it."@ && r.1 == 1
            &&& stats.snark <= 10 ==> r.0 == "Great job on "@ + name + "! That was awesome!"@ && r.1
                == 2
        },
        success && mode == ReactionMode::Backseat ==> {
            let r = reaction_for(stats, name, success, errors, mode)->0;
            &&& r.2 <==> stats.wisdom > 10
            &&& stats.wisdom > 10 ==> r.0 == "'"@ + name
                + "' completed. Consider adding tests and error handling next time."@ && r.1 == 0
            &&& stats.wisdom <= 10 ==> r.0 == "'"@ + name + "' done. Looks clean!"@ && r.1 == 1
        },
        !success && mode == ReactionMode::Cheerleader ==> reaction_for(
            stats,
            name,
            success,
            errors,
            mode,
        ) == Some((name + " didn't work out, but you'll get there! Keep going!"@, 0i8, false)),
{
}

} // verus!
