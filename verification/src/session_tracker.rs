//! Tracks several agent sessions and detects their state changes.

use vstd::prelude::*;
use vstd::string::*;
use crate::opencode_state::{AgentState, OpenCodeState, StateChange, StateChangeView};
use crate::reaction::TaskSummary;
use crate::text::{decimal, u32_to_decimal};

verus! {

/// An association list keyed by strings, with its keys as characters.
pub open spec fn keyed<V>(s: Seq<(String, V)>) -> Seq<(Seq<char>, V)> {
    s.map_values(|e: (String, V)| (e.0@, e.1))
}

/// The position of key `k` in `s` (its last occurrence), or -1.
pub open spec fn index_of_key<V>(s: Seq<(Seq<char>, V)>, k: Seq<char>) -> int
    decreases s.len(),
{
    if s.len() == 0 {
        -1
    } else if s.last().0 == k {
        s.len() - 1
    } else {
        index_of_key(s.drop_last(), k)
    }
}

/// The value stored under `k`, if any.
pub open spec fn lookup<V>(s: Seq<(Seq<char>, V)>, k: Seq<char>) -> Option<V> {
    let i = index_of_key(s, k);
    if i >= 0 {
        Some(s[i].1)
    } else {
        None
    }
}

/// `s` with `v` stored under `k`: in place of the old value, or appended.
pub open spec fn upsert<V>(s: Seq<(Seq<char>, V)>, k: Seq<char>, v: V) -> Seq<(Seq<char>, V)> {
    let i = index_of_key(s, k);
    if i >= 0 {
        s.update(i, (k, v))
    } else {
        s.push((k, v))
    }
}

/// `s` without key `k`.
pub open spec fn remove_key<V>(s: Seq<(Seq<char>, V)>, k: Seq<char>) -> Seq<(Seq<char>, V)> {
    let i = index_of_key(s, k);
    if i >= 0 {
        s.remove(i)
    } else {
        s
    }
}

/// Whether no key occurs twice.
pub open spec fn keys_unique<V>(s: Seq<(Seq<char>, V)>) -> bool {
    forall|i: int, j: int| 0 <= i < j < s.len() ==> #[trigger] s[i].0 != #[trigger] s[j].0
}

/// Where `index_of_key` points.
pub proof fn lemma_index_of_key<V>(s: Seq<(Seq<char>, V)>, k: Seq<char>)
    ensures
        -1 <= index_of_key(s, k) < s.len(),
        index_of_key(s, k) >= 0 ==> s[index_of_key(s, k)].0 == k,
        index_of_key(s, k) == -1 ==> forall|i: int| 0 <= i < s.len() ==> #[trigger] s[i].0 != k,
        forall|i: int| index_of_key(s, k) < i < s.len() ==> #[trigger] s[i].0 != k,
    decreases s.len(),
{
    if s.len() > 0 && s.last().0 != k {
        lemma_index_of_key(s.drop_last(), k);
        assert forall|i: int| 0 <= i < s.len() - 1 implies s[i] == s.drop_last()[i] by {}
    }
}

/// Storing under a key keeps keys unique.
pub proof fn lemma_upsert_unique<V>(s: Seq<(Seq<char>, V)>, k: Seq<char>, v: V)
    requires
        keys_unique(s),
    ensures
        keys_unique(upsert(s, k, v)),
        lookup(upsert(s, k, v), k) == Some(v),
{
    lemma_index_of_key(s, k);
    let t = upsert(s, k, v);
    lemma_index_of_key(t, k);
    let p = if index_of_key(s, k) >= 0 {
        index_of_key(s, k)
    } else {
        s.len() as int
    };
    assert(t[p].0 == k);
    assert forall|i: int, j: int| 0 <= i < j < t.len() implies #[trigger] t[i].0 != #[trigger] t[j].0 by {
        if index_of_key(s, k) >= 0 {
            if i != index_of_key(s, k) && j != index_of_key(s, k) {
                assert(t[i] == s[i] && t[j] == s[j]);
            }
        } else {
            if j < s.len() {
                assert(t[i] == s[i] && t[j] == s[j]);
            }
        }
    }
    assert(index_of_key(t, k) >= p);
    if index_of_key(t, k) != p {
        assert(t[p].0 != t[index_of_key(t, k)].0);
    }
}

/// Removing a key keeps keys unique.
pub proof fn lemma_remove_unique<V>(s: Seq<(Seq<char>, V)>, k: Seq<char>)
    requires
        keys_unique(s),
    ensures
        keys_unique(remove_key(s, k)),
        lookup(remove_key(s, k), k) is None,
{
    lemma_index_of_key(s, k);
    let t = remove_key(s, k);
    lemma_index_of_key(t, k);
    let x = index_of_key(s, k);
    if x >= 0 {
        assert forall|i: int, j: int| 0 <= i < j < t.len() implies #[trigger] t[i].0
            != #[trigger] t[j].0 by {
            let si = if i < x {
                i
            } else {
                i + 1
            };
            let sj = if j < x {
                j
            } else {
                j + 1
            };
            assert(t[i] == s[si] && t[j] == s[sj]);
        }
        if index_of_key(t, k) >= 0 {
            let y = index_of_key(t, k);
            let sy = if y < x {
                y
            } else {
                y + 1
            };
            assert(t[y] == s[sy]);
        }
    }
}

/// `index_of_key` is the last position that holds the key, or -1 when
/// none does.
proof fn lemma_index_of_key_is<V>(s: Seq<(Seq<char>, V)>, k: Seq<char>, y: int)
    requires
        -1 <= y < s.len(),
        y >= 0 ==> s[y].0 == k,
        forall|j: int| y < j < s.len() ==> #[trigger] s[j].0 != k,
    ensures
        index_of_key(s, k) == y,
{
    lemma_index_of_key(s, k);
    let x = index_of_key(s, k);
    if x > y {
        assert(s[x].0 == k);
    }
    if x < y {
        assert(s[y].0 != k);
    }
}

/// Map laws of the association lists: a stored value is found under its
/// key; storing or removing under one key leaves every other key's value
/// as it was; removing a key leaves nothing under it; storing adds an
/// entry exactly when the key was absent, and removing takes one away
/// exactly when it was present.
pub proof fn lemma_association_laws<V>(s: Seq<(Seq<char>, V)>, k: Seq<char>, v: V, other: Seq<char>)
    requires
        keys_unique(s),
    ensures
        lookup(upsert(s, k, v), k) == Some(v),
        lookup(remove_key(s, k), k) is None,
        other != k ==> lookup(upsert(s, k, v), other) == lookup(s, other),
        other != k ==> lookup(remove_key(s, k), other) == lookup(s, other),
        upsert(s, k, v).len() == s.len() + (if lookup(s, k) is None { 1int } else { 0int }),
        remove_key(s, k).len() == s.len() - (if lookup(s, k) is Some { 1int } else { 0int }),
{
    lemma_upsert_unique(s, k, v);
    lemma_remove_unique(s, k);
    lemma_index_of_key(s, k);
    lemma_index_of_key(s, other);
    let x = index_of_key(s, k);
    let y = index_of_key(s, other);
    if other != k {
        let t = upsert(s, k, v);
        assert forall|j: int| y < j < t.len() implies #[trigger] t[j].0 != other by {
            if j < s.len() && j != x {
                assert(t[j] == s[j]);
            }
        }
        if y >= 0 {
            assert(y != x);
            assert(t[y] == s[y]);
        }
        lemma_index_of_key_is(t, other, y);
        let r = remove_key(s, k);
        if x >= 0 {
            let y2 = if y < 0 {
                -1
            } else if y < x {
                y
            } else {
                y - 1
            };
            assert forall|j: int| y2 < j < r.len() implies #[trigger] r[j].0 != other by {
                let sj = if j < x {
                    j
                } else {
                    j + 1
                };
                assert(r[j] == s[sj]);
            }
            if y2 >= 0 {
                if y < x {
                    assert(r[y2] == s[y]);
                } else {
                    assert(r[y2] == s[y]);
                }
            }
            lemma_index_of_key_is(r, other, y2);
        }
    }
}

/// The tracker's round trip: once a session has been updated to a state,
/// updating it again to the same state reports no change, and a session
/// seen for the first time reports none either.
pub proof fn lemma_repeated_update_is_quiet(s: OpenCodeState)
    ensures
        expected_changes(Some(s.agent_state), s) == Seq::<StateChangeView>::empty(),
        expected_changes(None, s) == Seq::<StateChangeView>::empty(),
{
}

/// Only a running agent that turns idle has finished a task: a session
/// update reports the end of a task, or an error, only on a change from
/// Running to Idle, and then last reports the task (named after the state's
/// task, or "unknown_task"), successful exactly when it had no errors,
/// after an error report exactly when it had errors. Every other change of
/// agent state is reported as that change alone, and an unchanged state
/// reports nothing.
pub proof fn lemma_only_finished_tasks_complete(prev: AgentState, s: OpenCodeState)
    ensures
        (exists|i: int|
            0 <= i < expected_changes(Some(prev), s).len() && !(#[trigger] expected_changes(
                Some(prev),
                s,
            )[i] is AgentStateChanged)) ==> prev == AgentState::Running && s.agent_state
            == AgentState::Idle,
        prev != s.agent_state && !(prev == AgentState::Running && s.agent_state == AgentState::Idle)
            ==> expected_changes(Some(prev), s) == seq![
            StateChangeView::AgentStateChanged { from: prev, to: s.agent_state },
        ],
        prev == s.agent_state ==> expected_changes(Some(prev), s).len() == 0,
        prev == AgentState::Running && s.agent_state == AgentState::Idle ==> {
            let c = expected_changes(Some(prev), s);
            &&& c.len() == (if s.error_count > 0 { 3int } else { 2int })
            &&& c[0] == StateChangeView::AgentStateChanged { from: prev, to: s.agent_state }
            &&& c.last() matches StateChangeView::TaskCompleted { task_name, success, error_count }
                && success == (s.error_count == 0) && error_count == s.error_count && task_name == (
            match s.current_task {
                Some(t) => t@,
                None => "unknown_task"@,
            })
            &&& s.error_count > 0 ==> c[1] == StateChangeView::Error {
                message: decimal(s.error_count as nat) + " errors in "@ + (match s.current_task {
                    Some(t) => t@,
                    None => "unknown_task"@,
                }),
            }
        },
{
    let c = expected_changes(Some(prev), s);
    if prev != s.agent_state && !(prev == AgentState::Running && s.agent_state == AgentState::Idle) {
        assert(c =~= seq![StateChangeView::AgentStateChanged { from: prev, to: s.agent_state }]);
    }
}

/// The position of `key` in `entries`, searched from the back.
fn find_key<V>(entries: &Vec<(String, V)>, key: &String) -> (r: Option<usize>)
    ensures
        match r {
            Some(i) => i < entries@.len() && i as int == index_of_key(keyed(entries@), key@),
            None => index_of_key(keyed(entries@), key@) == -1,
        },
{
    let ghost s = keyed(entries@);
    proof {
        lemma_index_of_key(s, key@);
    }
    let mut i = entries.len();
    assert(s.take(i as int) =~= s);
    while i > 0
        invariant
            s == keyed(entries@),
            i <= entries@.len(),
            index_of_key(s, key@) == index_of_key(s.take(i as int), key@),
            -1 <= index_of_key(s, key@) < s.len(),
        decreases i,
    {
        i = i - 1;
        assert(s.take(i + 1).last() == s[i as int]);
        assert(s.take(i + 1).drop_last() =~= s.take(i as int));
        if entries[i].0 == *key {
            return Some(i);
        }
    }
    assert(s.take(0).len() == 0);
    None
}

/// The changes the tracker reports for a session whose previous agent
/// state was `prev` when its new state is `s`: a change of agent state,
/// and, when a running agent turns idle, the end of its task (named
/// "unknown_task" when the state names none), preceded by an error report
/// when the task had errors.
pub open spec fn expected_changes(prev: Option<AgentState>, s: OpenCodeState) -> Seq<StateChangeView> {
    match prev {
        None => Seq::empty(),
        Some(p) => if p == s.agent_state {
            Seq::empty()
        } else {
            let base = seq![StateChangeView::AgentStateChanged { from: p, to: s.agent_state }];
            if p == AgentState::Running && s.agent_state == AgentState::Idle {
                let name = match s.current_task {
                    Some(t) => t@,
                    None => "unknown_task"@,
                };
                let err = if s.error_count > 0 {
                    seq![
                        StateChangeView::Error {
                            message: decimal(s.error_count as nat) + " errors in "@ + name,
                        },
                    ]
                } else {
                    Seq::empty()
                };
                base + err + seq![
                    StateChangeView::TaskCompleted {
                        task_name: name,
                        success: s.error_count == 0,
                        error_count: s.error_count,
                    },
                ]
            } else {
                base
            }
        },
    }
}

/// The number of sessions whose agent is in state `a`.
pub open spec fn count_in_state(s: Seq<(Seq<char>, OpenCodeState)>, a: AgentState) -> nat {
    s.filter(|e: (Seq<char>, OpenCodeState)| e.1.agent_state == a).len()
}

/// The views of a sequence of state changes.
pub open spec fn change_views(v: Seq<StateChange>) -> Seq<StateChangeView> {
    v.map_values(|c: StateChange| c@)
}

/// Tracks multiple sessions and detects state changes.
#[derive(Debug, Clone)]
pub struct SessionTracker {
    sessions: Vec<(String, OpenCodeState)>,
    previous_states: Vec<(String, AgentState)>,
}

impl SessionTracker {
    /// The sessions, by session id, in the order they were first seen.
    pub closed spec fn sessions_model(&self) -> Seq<(Seq<char>, OpenCodeState)> {
        keyed(self.sessions@)
    }

    /// The last agent state seen of each session.
    pub closed spec fn previous_model(&self) -> Seq<(Seq<char>, AgentState)> {
        keyed(self.previous_states@)
    }

    /// No session id occurs twice.
    pub open spec fn wf(&self) -> bool {
        keys_unique(self.sessions_model()) && keys_unique(self.previous_model())
    }

    /// An empty tracker.
    pub fn new() -> (t: Self)
        ensures
            t.wf(),
            t.sessions_model() == Seq::<(Seq<char>, OpenCodeState)>::empty(),
            t.previous_model() == Seq::<(Seq<char>, AgentState)>::empty(),
    {
        let t = SessionTracker { sessions: Vec::new(), previous_states: Vec::new() };
        assert(t.sessions_model() =~= Seq::<(Seq<char>, OpenCodeState)>::empty());
        assert(t.previous_model() =~= Seq::<(Seq<char>, AgentState)>::empty());
        t
    }

    /// The aggregate state of all sessions: how many are running, waiting
    /// and idle.
    pub fn aggregate_state(&self) -> (r: (u32, u32, u32))
        requires
            self.sessions_model().len() <= u32::MAX,
        ensures
            r.0 == count_in_state(self.sessions_model(), AgentState::Running),
            r.1 == count_in_state(self.sessions_model(), AgentState::Waiting),
            r.2 == count_in_state(self.sessions_model(), AgentState::Idle),
    {
        let ghost s = self.sessions_model();
        let ghost pr = |e: (Seq<char>, OpenCodeState)| e.1.agent_state == AgentState::Running;
        let ghost pw = |e: (Seq<char>, OpenCodeState)| e.1.agent_state == AgentState::Waiting;
        let ghost pi = |e: (Seq<char>, OpenCodeState)| e.1.agent_state == AgentState::Idle;
        let mut running: u32 = 0;
        let mut waiting: u32 = 0;
        let mut idle: u32 = 0;
        let mut i: usize = 0;
        while i < self.sessions.len()
            invariant
                s == self.sessions_model(),
                s.len() == self.sessions@.len(),
                s.len() <= u32::MAX,
                i <= s.len(),
                pr == (|e: (Seq<char>, OpenCodeState)| e.1.agent_state == AgentState::Running),
                pw == (|e: (Seq<char>, OpenCodeState)| e.1.agent_state == AgentState::Waiting),
                pi == (|e: (Seq<char>, OpenCodeState)| e.1.agent_state == AgentState::Idle),
                running == s.take(i as int).filter(pr).len(),
                waiting == s.take(i as int).filter(pw).len(),
                idle == s.take(i as int).filter(pi).len(),
                running + waiting + idle <= i,
            decreases s.len() - i,
        {
            proof {
                assert(s.take(i + 1) =~= s.take(i as int).push(s[i as int]));
                s.take(i as int).lemma_filter_push(s[i as int], pr);
                s.take(i as int).lemma_filter_push(s[i as int], pw);
                s.take(i as int).lemma_filter_push(s[i as int], pi);
            }
            match self.sessions[i].1.agent_state {
                AgentState::Running => running = running + 1,
                AgentState::Waiting => waiting = waiting + 1,
                AgentState::Idle => idle = idle + 1,
                _ => {},
            }
            i = i + 1;
        }
        assert(s.take(s.len() as int) =~= s);
        (running, waiting, idle)
    }

    /// Update a session's state and return the state changes it brings.
    pub fn update_session(&mut self, session_id: &str, new_state: OpenCodeState) -> (changes: Vec<StateChange>)
        requires
            old(self).wf(),
        ensures
            final(self).wf(),
            final(self).sessions_model() == upsert(old(self).sessions_model(), session_id@, new_state),
            final(self).previous_model() == upsert(
                old(self).previous_model(),
                session_id@,
                new_state.agent_state,
            ),
            change_views(changes@) == expected_changes(
                lookup(old(self).previous_model(), session_id@),
                new_state,
            ),
    {
        let key = session_id.to_owned();
        let new_agent_state = new_state.agent_state;
        let mut changes: Vec<StateChange> = Vec::new();
        let ghost prev_model = self.previous_model();
        proof {
            lemma_index_of_key(prev_model, session_id@);
        }
        match find_key(&self.previous_states, &key) {
            Some(pi) => {
                let prev_state = self.previous_states[pi].1;
                if prev_state != new_agent_state {
                    changes.push(StateChange::AgentStateChanged { from: prev_state, to: new_agent_state });
                    if prev_state == AgentState::Running && new_agent_state == AgentState::Idle {
                        let task_name = match &new_state.current_task {
                            Some(t) => t.clone(),
                            None => "unknown_task".to_owned(),
                        };
                        if new_state.error_count > 0 {
                            let mut message = u32_to_decimal(new_state.error_count);
                            message.append(" errors in ");
                            message.append(task_name.as_str());
                            changes.push(StateChange::Error { message });
                        }
                        let success = new_state.error_count == 0;
                        changes.push(
                            StateChange::TaskCompleted {
                                summary: TaskSummary::new(
                                    task_name.as_str(),
                                    success,
                                    new_state.error_count,
                                ),
                            },
                        );
                    }
                }
            },
            None => {},
        }
        proof {
            let exp = expected_changes(lookup(prev_model, session_id@), new_state);
            assert(change_views(changes@) =~= exp);
        }
        let ghost old_sessions = self.sessions_model();
        match find_key(&self.sessions, &key) {
            Some(i) => {
                self.sessions.set(i, (key.clone(), new_state));
            },
            None => {
                self.sessions.push((key.clone(), new_state));
            },
        }
        assert(self.sessions_model() =~= upsert(old_sessions, session_id@, new_state));
        match find_key(&self.previous_states, &key) {
            Some(i) => {
                self.previous_states.set(i, (key, new_agent_state));
            },
            None => {
                self.previous_states.push((key, new_agent_state));
            },
        }
        assert(self.previous_model() =~= upsert(prev_model, session_id@, new_agent_state));
        proof {
            lemma_upsert_unique(old_sessions, session_id@, new_state);
            lemma_upsert_unique(prev_model, session_id@, new_agent_state);
        }
        changes
    }

    /// Remove a session.
    pub fn remove_session(&mut self, session_id: &str)
        requires
            old(self).wf(),
        ensures
            final(self).wf(),
            final(self).sessions_model() == remove_key(old(self).sessions_model(), session_id@),
            final(self).previous_model() == remove_key(old(self).previous_model(), session_id@),
    {
        let key = session_id.to_owned();
        let ghost s0 = self.sessions_model();
        let ghost p0 = self.previous_model();
        match find_key(&self.sessions, &key) {
            Some(i) => {
                self.sessions.remove(i);
            },
            None => {},
        }
        assert(self.sessions_model() =~= remove_key(s0, session_id@));
        match find_key(&self.previous_states, &key) {
            Some(i) => {
                self.previous_states.remove(i);
            },
            None => {},
        }
        assert(self.previous_model() =~= remove_key(p0, session_id@));
        proof {
            lemma_remove_unique(s0, session_id@);
            lemma_remove_unique(p0, session_id@);
        }
    }

    /// All active sessions, with their ids.
    pub fn sessions(&self) -> (r: &Vec<(String, OpenCodeState)>)
        ensures
            keyed(r@) == self.sessions_model(),
    {
        &self.sessions
    }

    /// Number of active sessions.
    pub fn session_count(&self) -> (n: usize)
        ensures
            n == self.sessions_model().len(),
    {
        self.sessions.len()
    }
}

} // verus!
