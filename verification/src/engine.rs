//! The main entry point for pet engine operations.

use vstd::prelude::*;
use vstd::string::*;
use crate::clock::unix_time_seconds;
use crate::digest::{sha256, sha256_digest};
use crate::event::Event;
use crate::mood::{Mood, MoodState, calculated_mood, interacted};
use crate::reaction::{Reaction, ReactionMode, TaskSummary, reacts};
use crate::species::{PetState, is_hatched_from, hatch_from_digest, hatched_species, species_table_spec, lemma_hatched_species_in_table};
use crate::xp::{can_award, awarded};

verus! {

/// The main entry point for pet engine operations.
pub struct Engine;

impl Engine {
    /// Hatch a new pet from a seed string: the SHA-256 digest of the seed
    /// selects species, shininess and stats, so the same seed always
    /// produces the same pet; only the creation time comes from the clock.
    pub fn hatch(seed: &str) -> (p: PetState)
        ensures
            sha256(seed.spec_bytes()).len() == 32,
            is_hatched_from(p, sha256(seed.spec_bytes()), p.created_at),
            species_table_spec().contains(hatched_species(sha256(seed.spec_bytes()))),
            p.stats.in_range(),
    {
        let digest = sha256_digest(seed.as_bytes());
        let now = unix_time_seconds();
        proof {
            lemma_hatched_species_in_table(digest@);
        }
        hatch_from_digest(digest.as_slice(), now)
    }

    /// Calculate the current mood from pet state (by the wall clock).
    pub fn calculate_mood(state: &PetState) -> (m: MoodState)
        ensures
            exists|now: i64| m == calculated_mood(*state, now),
    {
        Mood::calculate(state)
    }

    /// Award XP and return any events (level-ups).
    pub fn award_xp(state: &mut PetState, amount: u32, reason: &str) -> (events: Vec<Event>)
        requires
            can_award(*old(state), amount),
        ensures
            awarded(*old(state), amount, *final(state), events@),
    {
        crate::xp::award_xp(state, amount, reason)
    }

    /// Generate a reaction for a completed task.
    pub fn generate_reaction(state: &PetState, task: &TaskSummary, mode: ReactionMode) -> (r: Option<Reaction>)
        ensures
            reacts(*state, *task, mode, r),
            r is Some <==> mode != ReactionMode::Silent,
    {
        crate::reaction::generate_reaction(state, task, &mode)
    }

    /// Update mood after an interaction (now, by the wall clock).
    pub fn update_mood(state: &mut PetState, success: bool, error_count: u32)
        ensures
            exists|now: i64| interacted(*old(state), success, error_count, now, *final(state)),
    {
        Mood::update_after_interaction(state, success, error_count);
    }
}

/// Hatching is deterministic: two pets hatched from the same seed agree on
/// everything but their creation time.
pub proof fn lemma_hatch_deterministic(seed: Seq<u8>, p1: PetState, t1: i64, p2: PetState, t2: i64)
    requires
        is_hatched_from(p1, sha256(seed), t1),
        is_hatched_from(p2, sha256(seed), t2),
    ensures
        p1.species_id@ == p2.species_id@,
        p1.species_name@ == p2.species_name@,
        p1.rarity_tier == p2.rarity_tier,
        p1.is_shiny == p2.is_shiny,
        p1.stats == p2.stats,
        p1.level == p2.level,
        p1.xp == p2.xp,
        p1.mood@ == p2.mood@,
        p1.pet_name == p2.pet_name,
        p1.muted == p2.muted,
{
}

} // verus!
