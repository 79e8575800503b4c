//! Core logic of a desktop pet companion: species hatching, personality
//! stats, mood, experience and levels, reactions to finished tasks, the
//! pet's memory, and the tracking of coding-agent sessions.

pub mod text;
pub mod rank;
pub mod xp;
pub mod clock;
pub mod digest;
pub mod stats;
pub mod species;
pub mod event;
pub mod mood;
pub mod reaction;
pub mod memory;
pub mod engine;
pub mod opencode_state;
pub mod session_tracker;
pub mod reaction_pipeline;
pub mod config;
pub mod status_panel;
pub mod overlay;
pub mod terminal;

pub use engine::Engine;
pub use event::{Event, EventDetails, EventType};
pub use memory::{Memory, MemoryCategory, MemoryStore};
pub use mood::{Mood, MoodState};
pub use reaction::{
    backseat_error_reaction, backseat_success_reaction, encouragement_reaction, generate_reaction,
    Reaction, ReactionMode, TaskSummary,
};
pub use species::{species_table, PetState, RarityTier, SpeciesDef};
pub use stats::PersonalityStats;
pub use xp::{total_xp_for_level, xp_to_next_level, LevelInfo};
pub use config::SyncConfig;
pub use opencode_state::{AgentState, OpenCodeState, RawOpenCodeState, StateChange};
pub use reaction_pipeline::ReactionPipeline;
pub use session_tracker::SessionTracker;
