//! The state of a coding-agent session as the pet observes it, and the
//! changes the pet reacts to.

use vstd::prelude::*;
use crate::clock::unix_time_millis;
use crate::reaction::TaskSummary;
use crate::text::{ascii_lower, to_ascii_lowercase, str_equal};

verus! {

/// Represents the current state of an agent.
#[derive(Debug, Clone, Copy, PartialEq, Eq, Structural)]
pub enum AgentState {
    /// No active task, waiting for input
    Idle,
    /// Agent is actively working on a task
    Running,
    /// Agent is waiting for user input or tool response
    Waiting,
    /// Agent is in a planning/thinking phase
    Thinking,
    /// An error has occurred
    Error,
}

/// The agent state an ASCII-lowercased label denotes; unknown labels
/// denote Idle.
pub open spec fn agent_state_of_lower(s: Seq<char>) -> AgentState {
    if s == "running"@ || s == "working"@ || s == "busy"@ {
        AgentState::Running
    } else if s == "waiting"@ || s == "blocked"@ {
        AgentState::Waiting
    } else if s == "thinking"@ || s == "planning"@ {
        AgentState::Thinking
    } else if s == "error"@ || s == "failed"@ || s == "failure"@ {
        AgentState::Error
    } else {
        AgentState::Idle
    }
}

/// The agent state a label denotes, ignoring ASCII case.
pub open spec fn agent_state_of_label(s: Seq<char>) -> AgentState {
    agent_state_of_lower(ascii_lower(s))
}

impl AgentState {
    /// The agent state a label denotes, ignoring ASCII case: running,
    /// working and busy are Running; waiting and blocked are Waiting;
    /// thinking and planning are Thinking; error, failed and failure are
    /// Error; anything else is Idle.
    pub fn from_label(label: &str) -> (a: Self)
        ensures
            a == agent_state_of_label(label@),
    {
        let lower = to_ascii_lowercase(label);
        let l = lower.as_str();
        if str_equal(l, "running") || str_equal(l, "working") || str_equal(l, "busy") {
            AgentState::Running
        } else if str_equal(l, "waiting") || str_equal(l, "blocked") {
            AgentState::Waiting
        } else if str_equal(l, "thinking") || str_equal(l, "planning") {
            AgentState::Thinking
        } else if str_equal(l, "error") || str_equal(l, "failed") || str_equal(l, "failure") {
            AgentState::Error
        } else {
            AgentState::Idle
        }
    }
}

/// How labels name agent states, ignoring ASCII case: "running",
/// "working" and "busy" name Running; "waiting" and "blocked" Waiting;
/// "thinking" and "planning" Thinking; "error", "failed" and "failure"
/// Error; every other label names Idle.
pub proof fn lemma_label_families(label: Seq<char>)
    ensures
        ({
            let l = ascii_lower(label);
            &&& (l == "running"@ || l == "working"@ || l == "busy"@) ==> agent_state_of_label(label)
                == AgentState::Running
            &&& (l == "waiting"@ || l == "blocked"@) ==> agent_state_of_label(label)
                == AgentState::Waiting
            &&& (l == "thinking"@ || l == "planning"@) ==> agent_state_of_label(label)
                == AgentState::Thinking
            &&& (l == "error"@ || l == "failed"@ || l == "failure"@) ==> agent_state_of_label(label)
                == AgentState::Error
            &&& !(l == "running"@ || l == "working"@ || l == "busy"@ || l == "waiting"@ || l
                == "blocked"@ || l == "thinking"@ || l == "planning"@ || l == "error"@ || l
                == "failed"@ || l == "failure"@) ==> agent_state_of_label(label) == AgentState::Idle
        }),
{
    reveal_strlit("running");
    reveal_strlit("working");
    reveal_strlit("busy");
    reveal_strlit("waiting");
    reveal_strlit("blocked");
    reveal_strlit("thinking");
    reveal_strlit("planning");
    reveal_strlit("error");
    reveal_strlit("failed");
    reveal_strlit("failure");
    // the Waiting labels are none of the Running labels
    assert("waiting"@[1] != "working"@[1]);
    assert("waiting"@.len() != "busy"@.len() && "blocked"@.len() != "busy"@.len());
    assert("waiting"@[0] != "running"@[0] && "blocked"@[0] != "running"@[0]);
    assert("blocked"@[0] != "working"@[0]);
    // the Thinking labels are none of the earlier ones
    assert("thinking"@[0] != "running"@[0] && "thinking"@[0] != "working"@[0]);
    assert("thinking"@[0] != "busy"@[0] && "thinking"@[0] != "waiting"@[0]);
    assert("thinking"@[0] != "blocked"@[0]);
    assert("planning"@[0] != "running"@[0] && "planning"@[0] != "working"@[0]);
    assert("planning"@[0] != "busy"@[0] && "planning"@[0] != "waiting"@[0]);
    assert("planning"@[0] != "blocked"@[0]);
    // the Error labels are none of the earlier ones
    assert("error"@[0] != "running"@[0] && "error"@[0] != "working"@[0]);
    assert("error"@[0] != "busy"@[0] && "error"@[0] != "waiting"@[0]);
    assert("error"@[0] != "blocked"@[0] && "error"@[0] != "thinking"@[0]);
    assert("error"@[0] != "planning"@[0]);
    assert("failed"@[0] != "running"@[0] && "failed"@[0] != "working"@[0]);
    assert("failed"@[0] != "busy"@[0] && "failed"@[0] != "waiting"@[0]);
    assert("failed"@[0] != "blocked"@[0] && "failed"@[0] != "thinking"@[0]);
    assert("failed"@[0] != "planning"@[0]);
    assert("failure"@[0] != "running"@[0] && "failure"@[0] != "working"@[0]);
    assert("failure"@[0] != "busy"@[0] && "failure"@[0] != "waiting"@[0]);
    assert("failure"@[0] != "blocked"@[0] && "failure"@[0] != "thinking"@[0]);
    assert("failure"@[0] != "planning"@[0]);
}

/// A change event in the session state.
#[derive(Debug, Clone)]
pub enum StateChange {
    /// Agent has changed its operational state
    AgentStateChanged { from: AgentState, to: AgentState },
    /// A task has been completed
    TaskCompleted { summary: TaskSummary },
    /// An error occurred during execution
    Error { message: String },
}

/// A state change, with its text as characters.
pub enum StateChangeView {
    AgentStateChanged { from: AgentState, to: AgentState },
    TaskCompleted { task_name: Seq<char>, success: bool, error_count: u32 },
    Error { message: Seq<char> },
}

impl View for StateChange {
    type V = StateChangeView;

    open spec fn view(&self) -> StateChangeView {
        match self {
            StateChange::AgentStateChanged { from, to } => StateChangeView::AgentStateChanged {
                from: *from,
                to: *to,
            },
            StateChange::TaskCompleted { summary } => StateChangeView::TaskCompleted {
                task_name: summary.task_name@,
                success: summary.success,
                error_count: summary.error_count,
            },
            StateChange::Error { message } => StateChangeView::Error { message: message@ },
        }
    }
}

/// Snapshot of a session's state. `last_updated` is in milliseconds since
/// the Unix epoch.
#[derive(Debug, Clone)]
pub struct OpenCodeState {
    pub session_id: Option<String>,
    pub agent_state: AgentState,
    pub current_task: Option<String>,
    pub error_count: u32,
    pub files_changed: Vec<String>,
    pub last_updated: i64,
}

impl OpenCodeState {
    /// An idle session with no task, no errors and no changed files,
    /// updated now (by the wall clock).
    pub fn idle() -> (s: Self)
        ensures
            s.session_id is None,
            s.agent_state == AgentState::Idle,
            s.current_task is None,
            s.error_count == 0,
            s.files_changed@.len() == 0,
    {
        OpenCodeState {
            session_id: None,
            agent_state: AgentState::Idle,
            current_task: None,
            error_count: 0,
            files_changed: Vec::new(),
            last_updated: unix_time_millis(),
        }
    }
}

/// A session state as a state file holds it: every field optional, the
/// agent state under one of three names, the task under one of two.
/// `last_updated` is in milliseconds since the Unix epoch.
#[derive(Debug, Clone)]
pub struct RawOpenCodeState {
    pub session_id: Option<String>,
    pub agent_state: Option<String>,
    pub state: Option<String>,
    pub status: Option<String>,
    pub current_task: Option<String>,
    pub task: Option<String>,
    pub error_count: Option<u32>,
    pub files_changed: Option<Vec<String>>,
    pub last_updated: Option<i64>,
}

/// The state label of a raw state: `agent_state`, else `state`, else
/// `status`, else "idle".
pub open spec fn raw_label(r: RawOpenCodeState) -> Seq<char> {
    match (r.agent_state, r.state, r.status) {
        (Some(a), _, _) => a@,
        (None, Some(s), _) => s@,
        (None, None, Some(s)) => s@,
        (None, None, None) => "idle"@,
    }
}

impl RawOpenCodeState {
    /// The session state a raw state describes: missing counts are zero,
    /// missing lists empty, and a missing update time is now.
    pub fn into_state(self) -> (s: OpenCodeState)
        ensures
            s.session_id == self.session_id,
            s.agent_state == agent_state_of_label(raw_label(self)),
            s.current_task == (if self.current_task is Some {
                self.current_task
            } else {
                self.task
            }),
            s.error_count == (match self.error_count {
                Some(n) => n,
                None => 0u32,
            }),
            s.files_changed@ == (match self.files_changed {
                Some(v) => v@,
                None => Seq::<String>::empty(),
            }),
            self.last_updated matches Some(t) ==> s.last_updated == t,
    {
        let ghost label = raw_label(self);
        let agent_state = match (self.agent_state, self.state, self.status) {
            (Some(a), _, _) => AgentState::from_label(a.as_str()),
            (None, Some(s), _) => AgentState::from_label(s.as_str()),
            (None, None, Some(s)) => AgentState::from_label(s.as_str()),
            (None, None, None) => AgentState::from_label("idle"),
        };
        let current_task = match self.current_task {
            Some(t) => Some(t),
            None => self.task,
        };
        let error_count = match self.error_count {
            Some(n) => n,
            None => 0,
        };
        let files_changed = match self.files_changed {
            Some(v) => v,
            None => Vec::new(),
        };
        let last_updated = match self.last_updated {
            Some(t) => t,
            None => unix_time_millis(),
        };
        OpenCodeState {
            session_id: self.session_id,
            agent_state,
            current_task,
            error_count,
            files_changed,
            last_updated,
        }
    }
}

} // verus!
