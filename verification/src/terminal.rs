//! The terminal companion's commands and what each does to the pet. The
//! prompt, the printing and the saving belong to the program that runs it.

use vstd::prelude::*;
use crate::clock::unix_time_seconds;
use crate::event::Event;
use crate::mood::{Mood, interacted};
use crate::reaction::{ReactionMode, TaskSummary, generate_reaction, cheerleader_spec};
use crate::species::PetState;
use crate::text::{str_equal, to_lowercase, trim, trimmed, unicode_lowercase};
use crate::xp::{award_xp, awarded, can_award};

verus! {

/// A command typed at the terminal companion.
#[derive(Debug, Clone, Copy, PartialEq, Eq, Structural)]
pub enum Command {
    Pet,
    Status,
    Sleep,
    Exit,
    Blank,
    Unknown,
}

/// The command that a trimmed, lowercased line denotes: pet, status,
/// sleep, exit or quit, the empty line, or anything else.
pub open spec fn command_of(s: Seq<char>) -> Command {
    if s == "pet"@ {
        Command::Pet
    } else if s == "status"@ {
        Command::Status
    } else if s == "sleep"@ {
        Command::Sleep
    } else if s == "exit"@ || s == "quit"@ {
        Command::Exit
    } else if s.len() == 0 {
        Command::Blank
    } else {
        Command::Unknown
    }
}

impl Command {
    /// The command that an already trimmed and lowercased line denotes.
    pub fn from_normalized(s: &str) -> (c: Self)
        ensures
            c == command_of(s@),
    {
        if str_equal(s, "pet") {
            Command::Pet
        } else if str_equal(s, "status") {
            Command::Status
        } else if str_equal(s, "sleep") {
            Command::Sleep
        } else if str_equal(s, "exit") || str_equal(s, "quit") {
            Command::Exit
        } else if s.unicode_len() == 0 {
            Command::Blank
        } else {
            Command::Unknown
        }
    }

    /// The command a typed line denotes, ignoring surrounding white space
    /// and case.
    pub fn from_input(line: &str) -> (c: Self)
        ensures
            c == command_of(unicode_lowercase(trimmed(line@))),
    {
        let lower = to_lowercase(trim(line));
        Self::from_normalized(lower.as_str())
    }
}

/// What the companion answers a command with.
#[derive(Debug, Clone)]
pub enum Reply {
    /// The pet was petted, and says `reaction`.
    Petted { reaction: String },
    /// The pet's status is to be shown.
    Status,
    /// The pet went to sleep.
    Slept,
    /// The companion is left.
    Farewell,
    /// Nothing to do.
    Nothing,
    /// The command is not known.
    Unknown,
}

/// Whether the pet can take command `c`: petting must be able to award
/// its 5 XP.
pub open spec fn can_respond(p: PetState, c: Command) -> bool {
    c == Command::Pet ==> can_award(p, 5)
}

/// Whether `b` and `r` are what command `c` at time `now` makes of the pet
/// `a`. Petting earns 5 XP, counts as a successful interaction and gets a
/// cheer; sleeping makes the pet neutral; the other commands leave it as
/// it is.
pub open spec fn responded(a: PetState, c: Command, now: i64, b: PetState, r: Reply) -> bool {
    match c {
        Command::Pet => {
            &&& exists|mid: PetState, events: Seq<Event>|
                awarded(a, 5, mid, events) && interacted(mid, true, 0, now, b)
            &&& r matches Reply::Petted { reaction } && reaction@ == cheerleader_spec(
                "petting"@,
                b.stats,
            ).0
        },
        Command::Sleep => b == (PetState { mood: b.mood, ..a }) && b.mood@ == "neutral"@ && r is Slept,
        Command::Status => b == a && r is Status,
        Command::Exit => b == a && r is Farewell,
        Command::Blank => b == a && r is Nothing,
        Command::Unknown => b == a && r is Unknown,
    }
}

/// Carries out `command` on `pet` at time `now` (seconds since the epoch).
pub fn respond_at(pet: &mut PetState, command: Command, now: i64) -> (r: Reply)
    requires
        can_respond(*old(pet), command),
    ensures
        responded(*old(pet), command, now, *final(pet), r),
{
    match command {
        Command::Pet => {
            let ghost before = *pet;
            let events = award_xp(pet, 5, "petting");
            let ghost mid = *pet;
            Mood::apply_interaction(pet, true, 0, now);
            assert(awarded(before, 5, mid, events@));
            let task = TaskSummary::new("petting", true, 0);
            let reaction = generate_reaction(pet, &task, &ReactionMode::Cheerleader);
            match reaction {
                Some(x) => Reply::Petted { reaction: x.text },
                None => Reply::Nothing,
            }
        },
        Command::Status => Reply::Status,
        Command::Sleep => {
            pet.mood = "neutral".to_owned();
            Reply::Slept
        },
        Command::Exit => Reply::Farewell,
        Command::Blank => Reply::Nothing,
        Command::Unknown => Reply::Unknown,
    }
}

/// Carries out `command` on `pet` now (by the wall clock); see
/// `respond_at`.
pub fn respond(pet: &mut PetState, command: Command) -> (r: Reply)
    requires
        can_respond(*old(pet), command),
    ensures
        exists|now: i64| responded(*old(pet), command, now, *final(pet), r),
{
    let now = unix_time_seconds();
    respond_at(pet, command, now)
}

} // verus!
