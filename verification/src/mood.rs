//! Mood: the five mood states, how mood is read from a pet, and how an
//! interaction changes it.

use vstd::prelude::*;
use crate::clock::unix_time_seconds;
use crate::species::PetState;
use crate::text::{unicode_lowercase, to_lowercase, str_equal, ascii_lower, all_ascii};

verus! {

/// The five moods.
#[derive(Debug, Clone, Copy, PartialEq, Eq, Structural)]
pub enum MoodState {
    Happy,
    Content,
    Neutral,
    Curious,
    Grumpy,
}

/// The name of a mood.
pub open spec fn mood_name(m: MoodState) -> Seq<char> {
    match m {
        MoodState::Happy => "happy"@,
        MoodState::Content => "content"@,
        MoodState::Neutral => "neutral"@,
        MoodState::Curious => "curious"@,
        MoodState::Grumpy => "grumpy"@,
    }
}

/// The mood a lowercase name denotes; unknown names denote Neutral.
pub open spec fn mood_of_lowercase(s: Seq<char>) -> MoodState {
    if s == "happy"@ {
        MoodState::Happy
    } else if s == "content"@ {
        MoodState::Content
    } else if s == "curious"@ {
        MoodState::Curious
    } else if s == "grumpy"@ {
        MoodState::Grumpy
    } else {
        MoodState::Neutral
    }
}

/// The mood a name denotes, whatever its case.
pub open spec fn mood_of_name(s: Seq<char>) -> MoodState {
    mood_of_lowercase(unicode_lowercase(s))
}

/// Whether a mood is positive (Happy, Content or Curious).
pub open spec fn mood_is_positive(m: MoodState) -> bool {
    m == MoodState::Happy || m == MoodState::Content || m == MoodState::Curious
}

impl MoodState {
    /// The mood that an already lowercased name denotes; unknown names give
    /// Neutral.
    pub fn from_lowercase(s: &str) -> (m: Self)
        ensures
            m == mood_of_lowercase(s@),
    {
        if str_equal(s, "happy") {
            MoodState::Happy
        } else if str_equal(s, "content") {
            MoodState::Content
        } else if str_equal(s, "curious") {
            MoodState::Curious
        } else if str_equal(s, "grumpy") {
            MoodState::Grumpy
        } else {
            MoodState::Neutral
        }
    }

    /// The mood a name denotes, ignoring case; unknown names give Neutral.
    pub fn from_str(s: &str) -> (m: Self)
        ensures
            m == mood_of_name(s@),
    {
        let lower = to_lowercase(s);
        Self::from_lowercase(lower.as_str())
    }

    /// The name of this mood.
    pub fn as_str(&self) -> (s: &'static str)
        ensures
            s@ == mood_name(*self),
    {
        match self {
            MoodState::Happy => "happy",
            MoodState::Content => "content",
            MoodState::Neutral => "neutral",
            MoodState::Curious => "curious",
            MoodState::Grumpy => "grumpy",
        }
    }

    /// Whether this mood is Happy, Content or Curious.
    pub fn is_positive(&self) -> (b: bool)
        ensures
            b == mood_is_positive(*self),
    {
        match self {
            MoodState::Happy | MoodState::Content | MoodState::Curious => true,
            _ => false,
        }
    }
}

/// Hours since the last interaction as the mood calculation counts them:
/// both times are read as `u64`; without an interaction (or at time 0) the
/// count is 999.
pub open spec fn hours_since(now: i64, last: Option<i64>) -> int {
    let now_u = now as u64;
    let last_u = (match last {
        Some(t) => t,
        None => 0i64,
    }) as u64;
    if last_u > 0 {
        (if now_u >= last_u {
            now_u - last_u
        } else {
            0
        }) / 3600
    } else {
        999
    }
}

/// The mood of a pet at time `now`: Neutral after more than 48 hours
/// without interaction, Content for a pet with chaos above 15, and
/// otherwise the mood its mood name denotes.
pub open spec fn calculated_mood(p: PetState, now: i64) -> MoodState {
    if hours_since(now, p.last_interaction) > 48 {
        MoodState::Neutral
    } else if p.stats.chaos > 15 {
        MoodState::Content
    } else {
        mood_of_name(p.mood@)
    }
}

/// The mood name after an interaction. A success lifts neutral or grumpy
/// to content and content to happy; a failure with more than two errors
/// makes the pet grumpy, one with one or two errors curious.
pub open spec fn next_mood_name(m: Seq<char>, success: bool, error_count: u32) -> Seq<char> {
    if success {
        if m == "neutral"@ || m == "grumpy"@ {
            "content"@
        } else if m == "content"@ {
            "happy"@
        } else {
            m
        }
    } else if error_count > 2 {
        "grumpy"@
    } else if error_count > 0 {
        "curious"@
    } else {
        m
    }
}

/// Whether `b` is `a` after an interaction at time `now`.
pub open spec fn interacted(a: PetState, success: bool, error_count: u32, now: i64, b: PetState) -> bool {
    &&& b.last_interaction == Some(now)
    &&& b.mood@ == next_mood_name(a.mood@, success, error_count)
    &&& b == PetState { mood: b.mood, last_interaction: b.last_interaction, ..a }
}

/// Mood calculations.
pub struct Mood;

impl Mood {
    /// The mood a name denotes (see `MoodState::from_str`).
    pub fn new(mood_str: &str) -> (m: MoodState)
        ensures
            m == mood_of_name(mood_str@),
    {
        MoodState::from_str(mood_str)
    }

    /// Calculate the current mood of a pet at time `now` (seconds since
    /// the epoch).
    pub fn calculate_at(state: &PetState, now: i64) -> (m: MoodState)
        ensures
            m == calculated_mood(*state, now),
    {
        let now_u = now as u64;
        let last = match state.last_interaction {
            Some(t) => t,
            None => 0,
        };
        let last_u = last as u64;
        let hours_since_interaction = if last_u > 0 {
            now_u.saturating_sub(last_u) / 3600
        } else {
            999
        };
        if hours_since_interaction > 48 {
            return MoodState::Neutral;
        }
        if state.stats.chaos > 15 {
            return MoodState::Content;
        }
        MoodState::from_str(state.mood.as_str())
    }

    /// Calculate the current mood of a pet from the wall clock.
    pub fn calculate(state: &PetState) -> (m: MoodState)
        ensures
            exists|now: i64| m == calculated_mood(*state, now),
    {
        let now = unix_time_seconds();
        Self::calculate_at(state, now)
    }

    /// Records an interaction at time `now` and updates the mood name.
    pub fn apply_interaction(state: &mut PetState, success: bool, error_count: u32, now: i64)
        ensures
            interacted(*old(state), success, error_count, now, *final(state)),
    {
        state.last_interaction = Some(now);
        if success {
            if str_equal(state.mood.as_str(), "neutral") || str_equal(state.mood.as_str(), "grumpy") {
                state.mood = "content".to_owned();
            } else if str_equal(state.mood.as_str(), "content") {
                state.mood = "happy".to_owned();
            }
        } else if error_count > 2 {
            state.mood = "grumpy".to_owned();
        } else if error_count > 0 {
            state.mood = "curious".to_owned();
        }
    }

    /// Records an interaction now (by the wall clock) and updates the mood.
    pub fn update_after_interaction(state: &mut PetState, success: bool, error_count: u32)
        ensures
            exists|now: i64| interacted(*old(state), success, error_count, now, *final(state)),
    {
        let now = unix_time_seconds();
        Self::apply_interaction(state, success, error_count, now);
    }
}

/// Whether `s` is the name of one of the five moods.
pub open spec fn is_mood_name(s: Seq<char>) -> bool {
    s == "happy"@ || s == "content"@ || s == "neutral"@ || s == "curious"@ || s == "grumpy"@
}

/// The mood names are lowercase ASCII, so case folding keeps them, and
/// they are pairwise distinct.
proof fn lemma_mood_names_fold()
    ensures
        unicode_lowercase("happy"@) == "happy"@,
        unicode_lowercase("content"@) == "content"@,
        unicode_lowercase("neutral"@) == "neutral"@,
        unicode_lowercase("curious"@) == "curious"@,
        unicode_lowercase("grumpy"@) == "grumpy"@,
        "happy"@ != "content"@,
        "happy"@ != "curious"@,
        "happy"@ != "grumpy"@,
        "content"@ != "curious"@,
        "content"@ != "grumpy"@,
        "curious"@ != "grumpy"@,
        "neutral"@ != "happy"@,
        "neutral"@ != "content"@,
        "neutral"@ != "curious"@,
        "neutral"@ != "grumpy"@,
{
    reveal_strlit("happy");
    reveal_strlit("content");
    reveal_strlit("neutral");
    reveal_strlit("curious");
    reveal_strlit("grumpy");
    assert(all_ascii("happy"@));
    assert(all_ascii("content"@));
    assert(all_ascii("neutral"@));
    assert(all_ascii("curious"@));
    assert(all_ascii("grumpy"@));
    assert(ascii_lower("happy"@) =~= "happy"@);
    assert(ascii_lower("content"@) =~= "content"@);
    assert(ascii_lower("neutral"@) =~= "neutral"@);
    assert(ascii_lower("curious"@) =~= "curious"@);
    assert(ascii_lower("grumpy"@) =~= "grumpy"@);
    assert("happy"@[0] != "content"@[0]);
    assert("happy"@[0] != "curious"@[0]);
    assert("happy"@[0] != "grumpy"@[0]);
    assert("content"@[1] != "curious"@[1]);
    assert("content"@[0] != "grumpy"@[0]);
    assert("curious"@[0] != "grumpy"@[0]);
    assert("neutral"@[0] != "happy"@[0]);
    assert("neutral"@[0] != "content"@[0]);
    assert("neutral"@[0] != "curious"@[0]);
    assert("neutral"@[0] != "grumpy"@[0]);
}

/// Reading back the name of a mood gives the mood.
pub proof fn lemma_mood_name_round_trip(m: MoodState)
    ensures
        mood_of_name(mood_name(m)) == m,
{
    lemma_mood_names_fold();
}

/// A successful interaction leaves a pet with a known mood in a positive
/// mood for the next two days: its mood reads as positive at any time
/// from the interaction until 48 hours (and 59 minutes) later.
pub proof fn lemma_success_makes_mood_positive(a: PetState, errors: u32, t: i64, b: PetState, later: i64)
    requires
        interacted(a, true, errors, t, b),
        is_mood_name(a.mood@),
        t > 0,
        t <= later,
        later - t < 49 * 3600,
    ensures
        mood_is_positive(calculated_mood(b, later)),
{
    lemma_mood_names_fold();
    assert(hours_since(later, b.last_interaction) <= 48);
}

/// Case does not matter to the mood an ASCII name denotes: the name and
/// its lowercase denote the same mood, the mood that the lowercase spells.
pub proof fn lemma_mood_name_ignores_case(s: Seq<char>)
    requires
        all_ascii(s),
    ensures
        mood_of_name(s) == mood_of_name(ascii_lower(s)),
        mood_of_name(s) == mood_of_lowercase(ascii_lower(s)),
{
    let l = ascii_lower(s);
    assert forall|i: int| 0 <= i < l.len() implies (#[trigger] l[i] as u32) < 128 by {
        assert((s[i] as u32) < 128);
    }
    assert(ascii_lower(l) =~= l);
}

/// Mood drifts to neutral without interaction: a pet that was never
/// interacted with (or whose last interaction is at time 0), or whose
/// last interaction lies 49 hours or more before `now`, reads as Neutral,
/// whatever its stats and mood name. Within 48 hours of an interaction a
/// chaotic pet (chaos above 15) reads as Content, and any other pet as its
/// mood name says.
pub proof fn lemma_stale_pet_is_neutral(p: PetState, now: i64)
    ensures
        p.last_interaction is None ==> calculated_mood(p, now) == MoodState::Neutral,
        p.last_interaction == Some(0i64) ==> calculated_mood(p, now) == MoodState::Neutral,
        p.last_interaction matches Some(t) && 0 < t && now - t >= 49 * 3600 ==> calculated_mood(
            p,
            now,
        ) == MoodState::Neutral,
        p.last_interaction matches Some(t) && 0 < t && t <= now && now - t < 49 * 3600
            ==> calculated_mood(p, now) == (if p.stats.chaos > 15 {
            MoodState::Content
        } else {
            mood_of_name(p.mood@)
        }),
{
    if let Some(t) = p.last_interaction {
        if 0 < t && t <= now {
            assert(t as u64 == t);
            assert(now as u64 == now);
            if now - t >= 49 * 3600 {
                assert((now - t) / 3600 >= 49);
            } else {
                assert((now - t) / 3600 <= 48);
            }
        }
    }
}

/// What an interaction does to the mood name: a success lifts neutral or
/// grumpy to content and content to happy, and keeps any other mood; a
/// failure with more than two errors makes the pet grumpy, one with one or
/// two errors curious, and one without errors keeps the mood. Nothing but
/// the mood name and the time of the last interaction changes.
pub proof fn lemma_interaction_mood(a: PetState, success: bool, errors: u32, now: i64, b: PetState)
    requires
        interacted(a, success, errors, now, b),
    ensures
        success && (a.mood@ == "neutral"@ || a.mood@ == "grumpy"@) ==> b.mood@ == "content"@,
        success && a.mood@ == "content"@ ==> b.mood@ == "happy"@,
        success && a.mood@ != "neutral"@ && a.mood@ != "grumpy"@ && a.mood@ != "content"@
            ==> b.mood@ == a.mood@,
        !success && errors > 2 ==> b.mood@ == "grumpy"@,
        !success && 0 < errors <= 2 ==> b.mood@ == "curious"@,
        !success && errors == 0 ==> b.mood@ == a.mood@,
        b.last_interaction == Some(now),
        b.level == a.level && b.xp == a.xp && b.stats == a.stats && b.species_id == a.species_id,
{
    reveal_strlit("content");
    reveal_strlit("neutral");
    reveal_strlit("grumpy");
    assert("content"@[0] != "neutral"@[0] && "content"@[0] != "grumpy"@[0]);
}

} // verus!
