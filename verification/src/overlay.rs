//! The desktop overlay's state and how its messages change it: the
//! animation clock, the speech bubble and petting. Drawing is left to the
//! user interface.

use vstd::prelude::*;
use vstd::string::*;
use crate::event::Event;
use crate::species::PetState;
use crate::text::{decimal, u32_to_decimal, str_equal};
use crate::xp::{award_xp, awarded, can_award};

verus! {

/// The overlay's state, apart from its sprite images.
#[derive(Debug, Clone)]
pub struct OverlayState {
    pub pet: PetState,
    pub animation_frame: u32,
    pub status_text: Option<String>,
    pub speech_bubble: Option<String>,
    pub speech_bubble_visible: bool,
    pub animation_speed: u64,
    pub running: bool,
}

/// The emoji shown for a species when no sprite is available.
pub open spec fn emoji_of(id: Seq<char>) -> Seq<char> {
    if id == "void-cat"@ {
        "\u{1F431}"@
    } else if id == "code-hound"@ {
        "\u{1F415}"@
    } else if id == "terminal-turtle"@ {
        "\u{1F422}"@
    } else if id == "pixel-parrot"@ {
        "\u{1F99C}"@
    } else if id == "debug-dragon"@ {
        "\u{1F409}"@
    } else if id == "rust-fox"@ {
        "\u{1F98A}"@
    } else {
        "\u{1F43E}"@
    }
}

/// The emoji shown for a species when no sprite is available.
pub fn species_emoji(id: &str) -> (e: &'static str)
    ensures
        e@ == emoji_of(id@),
{
    if str_equal(id, "void-cat") {
        "\u{1F431}"
    } else if str_equal(id, "code-hound") {
        "\u{1F415}"
    } else if str_equal(id, "terminal-turtle") {
        "\u{1F422}"
    } else if str_equal(id, "pixel-parrot") {
        "\u{1F99C}"
    } else if str_equal(id, "debug-dragon") {
        "\u{1F409}"
    } else if str_equal(id, "rust-fox") {
        "\u{1F98A}"
    } else {
        "\u{1F43E}"
    }
}

/// Which of `count` sprite frames the animation frame `frame` shows: none
/// when there are no frames, else the frame number modulo the count.
pub fn sprite_frame(frame: u32, count: usize) -> (r: Option<usize>)
    ensures
        count == 0 ==> r is None,
        count > 0 ==> r == Some((frame as int % count as int) as usize),
{
    if count == 0 {
        None
    } else {
        Some(frame as usize % count)
    }
}

/// The text shown instead of a sprite: the emoji, then the species and
/// level, then the mood, on three lines.
pub open spec fn fallback_text_of(p: PetState) -> Seq<char> {
    emoji_of(p.species_id@) + "\n"@ + p.species_name@ + " (Lvl "@ + decimal(p.level as nat) + ")\n"@
        + p.mood@
}

/// The text shown instead of a sprite.
pub fn fallback_text(pet: &PetState) -> (t: String)
    ensures
        t@ == fallback_text_of(*pet),
{
    let mut t = species_emoji(pet.species_id.as_str()).to_owned();
    t.append("\n");
    t.append(pet.species_name.as_str());
    t.append(" (Lvl ");
    t.append(u32_to_decimal(pet.level).as_str());
    t.append(")\n");
    t.append(pet.mood.as_str());
    t
}

/// The mood name that petting gives: happy, or content for a pet that is
/// already happy.
pub open spec fn petted_mood(m: Seq<char>) -> Seq<char> {
    if m != "happy"@ {
        "happy"@
    } else {
        "content"@
    }
}

impl OverlayState {
    /// The overlay's state at start: first frame, waiting for the agent,
    /// no speech, animating at 100 ms per frame.
    pub fn new(pet: PetState) -> (s: Self)
        ensures
            s.pet == pet,
            s.animation_frame == 0,
            s.status_text matches Some(t) && t@ == "Waiting for OpenCode..."@,
            s.speech_bubble is None,
            s.speech_bubble_visible,
            s.animation_speed == 100,
            s.running,
    {
        OverlayState {
            pet,
            animation_frame: 0,
            status_text: Some("Waiting for OpenCode...".to_owned()),
            speech_bubble: None,
            speech_bubble_visible: true,
            animation_speed: 100,
            running: true,
        }
    }

    /// One animation tick: the frame advances (four frames, cyclic); a
    /// visible speech bubble is hidden, and a hidden one is dropped.
    pub fn tick(&mut self)
        requires
            old(self).animation_frame < u32::MAX,
        ensures
            final(self).animation_frame == (old(self).animation_frame + 1) % 4,
            final(self).pet == old(self).pet,
            final(self).status_text == old(self).status_text,
            final(self).animation_speed == old(self).animation_speed,
            final(self).running == old(self).running,
            if old(self).speech_bubble_visible && old(self).speech_bubble is Some {
                !final(self).speech_bubble_visible && final(self).speech_bubble
                    == old(self).speech_bubble
            } else if !old(self).speech_bubble_visible {
                !final(self).speech_bubble_visible && final(self).speech_bubble is None
            } else {
                final(self).speech_bubble_visible && final(self).speech_bubble
                    == old(self).speech_bubble
            },
    {
        self.animation_frame = (self.animation_frame + 1) % 4;
        if self.speech_bubble_visible && self.speech_bubble.is_some() {
            self.speech_bubble_visible = false;
        } else if !self.speech_bubble_visible {
            self.speech_bubble = None;
        }
    }

    /// Petting: the pet turns happy (content if it already was), earns
    /// 5 XP, and says that it is happy.
    pub fn pet_interaction(&mut self)
        requires
            can_award(old(self).pet, 5),
        ensures
            final(self).pet.mood@ == petted_mood(old(self).pet.mood@),
            exists|before: PetState, events: Seq<Event>|
                before == (PetState { mood: before.mood, ..old(self).pet }) && before.mood@
                    == petted_mood(old(self).pet.mood@) && awarded(
                    before,
                    5,
                    final(self).pet,
                    events,
                ),
            final(self).speech_bubble matches Some(t) && t@ == old(self).pet.species_name@
                + " is happy!"@,
            final(self).speech_bubble_visible,
            final(self).animation_frame == old(self).animation_frame,
            final(self).status_text == old(self).status_text,
            final(self).animation_speed == old(self).animation_speed,
            final(self).running == old(self).running,
    {
        if !str_equal(self.pet.mood.as_str(), "happy") {
            self.pet.mood = "happy".to_owned();
        } else {
            self.pet.mood = "content".to_owned();
        }
        let ghost before = self.pet;
        let events = award_xp(&mut self.pet, 5, "petting");
        assert(awarded(before, 5, self.pet, events@));
        let mut text = self.pet.species_name.clone();
        text.append(" is happy!");
        self.show_speech(text);
    }

    /// Shows `text` in the speech bubble.
    pub fn show_speech(&mut self, text: String)
        ensures
            final(self).speech_bubble == Some(text),
            final(self).speech_bubble_visible,
            final(self).pet == old(self).pet,
            final(self).animation_frame == old(self).animation_frame,
            final(self).status_text == old(self).status_text,
            final(self).animation_speed == old(self).animation_speed,
            final(self).running == old(self).running,
    {
        self.speech_bubble = Some(text);
        self.speech_bubble_visible = true;
    }

    /// Hides and drops the speech bubble.
    pub fn hide_speech(&mut self)
        ensures
            final(self).speech_bubble is None,
            !final(self).speech_bubble_visible,
            final(self).pet == old(self).pet,
            final(self).animation_frame == old(self).animation_frame,
            final(self).status_text == old(self).status_text,
            final(self).animation_speed == old(self).animation_speed,
            final(self).running == old(self).running,
    {
        self.speech_bubble = None;
        self.speech_bubble_visible = false;
    }

    /// The sprite set to show: idle while running, sleeping otherwise.
    pub fn sprite_state(&self) -> (s: &'static str)
        ensures
            s@ == (if self.running {
                "idle"@
            } else {
                "sleeping"@
            }),
    {
        if self.running {
            "idle"
        } else {
            "sleeping"
        }
    }
}

} // verus!
