//! Sync configuration: the reaction mode, the poll interval and where the
//! state lives, and how a reaction mode is named in the configuration.

use vstd::prelude::*;
use crate::reaction::ReactionMode;
use crate::text::str_equal;

verus! {

/// Declares `std::path::PathBuf`, which the configuration carries as is.
#[verifier::external_type_specification]
#[verifier::external_body]
pub struct ExPathBuf(std::path::PathBuf);

/// The name of a reaction mode in the configuration.
pub open spec fn config_name_of(m: ReactionMode) -> Seq<char> {
    match m {
        ReactionMode::Backseat => "backseat"@,
        ReactionMode::Cheerleader => "cheerleader"@,
        ReactionMode::Both => "both"@,
        ReactionMode::Silent => "none"@,
    }
}

/// The reaction mode a configuration name denotes; unknown names denote
/// Silent.
pub open spec fn mode_of_config_name(s: Seq<char>) -> ReactionMode {
    if s == "backseat"@ {
        ReactionMode::Backseat
    } else if s == "cheerleader"@ {
        ReactionMode::Cheerleader
    } else if s == "both"@ {
        ReactionMode::Both
    } else {
        ReactionMode::Silent
    }
}

impl ReactionMode {
    /// The reaction mode a configuration name denotes: backseat,
    /// cheerleader or both; anything else is Silent.
    pub fn from_config_name(s: &str) -> (m: Self)
        ensures
            m == mode_of_config_name(s@),
    {
        if str_equal(s, "backseat") {
            ReactionMode::Backseat
        } else if str_equal(s, "cheerleader") {
            ReactionMode::Cheerleader
        } else if str_equal(s, "both") {
            ReactionMode::Both
        } else {
            ReactionMode::Silent
        }
    }

    /// The configuration name of this mode (Silent is "none").
    pub fn config_name(&self) -> (s: &'static str)
        ensures
            s@ == config_name_of(*self),
    {
        match self {
            ReactionMode::Backseat => "backseat",
            ReactionMode::Cheerleader => "cheerleader",
            ReactionMode::Both => "both",
            ReactionMode::Silent => "none",
        }
    }
}

/// Reading back the name of a mode gives the mode.
pub proof fn lemma_config_name_round_trip(m: ReactionMode)
    ensures
        mode_of_config_name(config_name_of(m)) == m,
{
    reveal_strlit("backseat");
    reveal_strlit("cheerleader");
    reveal_strlit("both");
    reveal_strlit("none");
    assert("cheerleader"@.len() != "backseat"@.len());
    assert("both"@.len() != "backseat"@.len() && "both"@.len() != "cheerleader"@.len());
    assert("none"@.len() != "backseat"@.len() && "none"@.len() != "cheerleader"@.len());
    assert("none"@[0] != "both"@[0]);
}

/// Sync configuration.
#[derive(Debug)]
pub struct SyncConfig {
    pub reaction_mode: ReactionMode,
    pub poll_interval_ms: u64,
    pub state_dir: std::path::PathBuf,
}

impl SyncConfig {
    /// The default configuration, keeping its state in `state_dir`: both
    /// reaction modes and a one second poll interval.
    pub fn with_state_dir(state_dir: std::path::PathBuf) -> (c: Self)
        ensures
            c.reaction_mode == ReactionMode::Both,
            c.poll_interval_ms == 1000,
            c.state_dir == state_dir,
    {
        SyncConfig { reaction_mode: ReactionMode::Both, poll_interval_ms: 1000, state_dir }
    }

    /// The configuration that a stored reaction mode name and poll interval
    /// describe.
    pub fn from_stored(reaction_mode: &str, poll_interval_ms: u64, state_dir: std::path::PathBuf) -> (c: Self)
        ensures
            c.reaction_mode == mode_of_config_name(reaction_mode@),
            c.poll_interval_ms == poll_interval_ms,
            c.state_dir == state_dir,
    {
        SyncConfig {
            reaction_mode: ReactionMode::from_config_name(reaction_mode),
            poll_interval_ms,
            state_dir,
        }
    }
}

} // verus!
