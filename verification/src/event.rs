//! Events that the engine reports: level-ups, mood changes, petting.

use vstd::prelude::*;
use vstd::string::*;
use crate::text::{decimal, u32_to_decimal};

verus! {

/// The kinds of event.
#[derive(Debug, Clone, Copy, PartialEq, Eq, Structural)]
pub enum EventType {
    LevelUp,
    MoodChange,
    Reaction,
    Petted,
    Milestone,
}

/// The structured details that go with an event.
#[derive(Debug, Clone, PartialEq, Eq)]
pub enum EventDetails {
    /// A level-up from one level to the next.
    Levels { from: u32, to: u32 },
    /// A change of mood, by mood name.
    Moods { from: String, to: String },
    /// What caused the event.
    Source { source: String },
}

/// An event, with a description and the XP it earned.
#[derive(Debug, Clone)]
pub struct Event {
    pub event_type: EventType,
    pub description: String,
    pub xp_earned: u32,
    pub details: EventDetails,
}

/// "Leveled up from {from} to {to}! (+{to * 10} bonus XP)"
pub open spec fn level_up_text(from: u32, to: u32) -> Seq<char> {
    "Leveled up from "@ + decimal(from as nat) + " to "@ + decimal(to as nat) + "! (+"@ + decimal(
        (to * 10) as nat,
    ) + " bonus XP)"@
}

/// Whether `e` is the level-up event from `from` to `to`.
pub open spec fn is_level_up(e: Event, from: u32, to: u32) -> bool {
    &&& e.event_type == EventType::LevelUp
    &&& e.description@ == level_up_text(from, to)
    &&& e.xp_earned == to * 10
    &&& e.details == EventDetails::Levels { from, to }
}

impl Event {
    /// A level-up event; it earns ten times the new level as bonus XP.
    pub fn level_up(from: u32, to: u32) -> (e: Self)
        requires
            to * 10 <= u32::MAX,
        ensures
            is_level_up(e, from, to),
    {
        let xp_milestone = to * 10;
        let mut description = "Leveled up from ".to_owned();
        description.append(u32_to_decimal(from).as_str());
        description.append(" to ");
        description.append(u32_to_decimal(to).as_str());
        description.append("! (+");
        description.append(u32_to_decimal(xp_milestone).as_str());
        description.append(" bonus XP)");
        Event {
            event_type: EventType::LevelUp,
            description,
            xp_earned: xp_milestone,
            details: EventDetails::Levels { from, to },
        }
    }

    /// A mood-change event; it earns no XP.
    pub fn mood_changed(from: &str, to: &str) -> (e: Self)
        ensures
            e.event_type == EventType::MoodChange,
            e.description@ == "Mood changed from "@ + from@ + " to "@ + to@,
            e.xp_earned == 0,
            e.details matches EventDetails::Moods { from: f, to: t } && f@ == from@ && t@ == to@,
    {
        let mut description = "Mood changed from ".to_owned();
        description.append(from);
        description.append(" to ");
        description.append(to);
        Event {
            event_type: EventType::MoodChange,
            description,
            xp_earned: 0,
            details: EventDetails::Moods { from: from.to_owned(), to: to.to_owned() },
        }
    }

    /// A petting event earning `xp`.
    pub fn petted(xp: u32) -> (e: Self)
        ensures
            e.event_type == EventType::Petted,
            e.description@ == "Pet interaction"@,
            e.xp_earned == xp,
            e.details matches EventDetails::Source { source: s } && s@ == "petting"@,
    {
        Event {
            event_type: EventType::Petted,
            description: "Pet interaction".to_owned(),
            xp_earned: xp,
            details: EventDetails::Source { source: "petting".to_owned() },
        }
    }
}

} // verus!
