//! Pet memory system: short-term memories with importance scoring and
//! consolidation.
//!
//! Memories are observations the pet makes about coding sessions.
//! High-importance memories get consolidated (kept long-term), low-importance
//! ones are pruned when short-term memory runs over capacity.

use vstd::prelude::*;
use vstd::string::*;
use crate::clock::unix_time_seconds;
use crate::rank::{lemma_count_none, lemma_count_ext, lemma_count_split, count_upto, rank_in, ranked_below, strict_total_on, before_pred, lemma_count_step, lemma_count_bound, lemma_rank_bound, lemma_rank_injective, lemma_ranked_below_count};
use crate::text::{str_equal, decimal, u32_to_decimal, unicode_lowercase, to_lowercase, contains_seq, str_contains};

verus! {

/// A single pet memory entry.
#[derive(Debug, Clone, PartialEq)]
pub struct Memory {
    pub id: u64,
    pub text: String,
    pub importance: u8,
    pub consolidated: bool,
    pub category: MemoryCategory,
    pub created_at: i64,
}

/// Categories of pet memories.
#[derive(Debug, Clone, Copy, PartialEq, Eq, Structural)]
pub enum MemoryCategory {
    /// Task completion or failure observation
    Task,
    /// Error pattern noticed
    ErrorPattern,
    /// User behavior pattern (e.g., "likes to refactor at night")
    UserHabit,
    /// Code quality observation
    CodeObservation,
    /// Milestone event (level-up, streak)
    Milestone,
    /// General interaction memory
    Interaction,
}

/// The name under which a category is stored.
pub open spec fn category_name(c: MemoryCategory) -> Seq<char> {
    match c {
        MemoryCategory::Task => "task"@,
        MemoryCategory::ErrorPattern => "error_pattern"@,
        MemoryCategory::UserHabit => "user_habit"@,
        MemoryCategory::CodeObservation => "code_observation"@,
        MemoryCategory::Milestone => "milestone"@,
        MemoryCategory::Interaction => "interaction"@,
    }
}

/// The category a stored name denotes; unknown names denote Interaction.
pub open spec fn category_of_name(s: Seq<char>) -> MemoryCategory {
    if s == "error_pattern"@ {
        MemoryCategory::ErrorPattern
    } else if s == "user_habit"@ {
        MemoryCategory::UserHabit
    } else if s == "code_observation"@ {
        MemoryCategory::CodeObservation
    } else if s == "milestone"@ {
        MemoryCategory::Milestone
    } else if s == "task"@ {
        MemoryCategory::Task
    } else {
        MemoryCategory::Interaction
    }
}

impl MemoryCategory {
    /// The name under which this category is stored.
    pub fn storage_name(&self) -> (s: &'static str)
        ensures
            s@ == category_name(*self),
    {
        match self {
            MemoryCategory::Task => "task",
            MemoryCategory::ErrorPattern => "error_pattern",
            MemoryCategory::UserHabit => "user_habit",
            MemoryCategory::CodeObservation => "code_observation",
            MemoryCategory::Milestone => "milestone",
            MemoryCategory::Interaction => "interaction",
        }
    }

    /// The category a stored name denotes; unknown names give Interaction.
    pub fn from_storage_name(s: &str) -> (c: Self)
        ensures
            c == category_of_name(s@),
    {
        if str_equal(s, "error_pattern") {
            MemoryCategory::ErrorPattern
        } else if str_equal(s, "user_habit") {
            MemoryCategory::UserHabit
        } else if str_equal(s, "code_observation") {
            MemoryCategory::CodeObservation
        } else if str_equal(s, "milestone") {
            MemoryCategory::Milestone
        } else if str_equal(s, "task") {
            MemoryCategory::Task
        } else {
            MemoryCategory::Interaction
        }
    }
}

/// Reading back the stored name of a category gives the category.
pub proof fn lemma_category_name_round_trip(c: MemoryCategory)
    ensures
        category_of_name(category_name(c)) == c,
{
    reveal_strlit("task");
    reveal_strlit("error_pattern");
    reveal_strlit("user_habit");
    reveal_strlit("code_observation");
    reveal_strlit("milestone");
    reveal_strlit("interaction");
    assert("task"@[0] != "error_pattern"@[0] && "task"@[0] != "user_habit"@[0]);
    assert("task"@[0] != "code_observation"@[0] && "task"@[0] != "milestone"@[0]);
    assert("milestone"@[0] != "error_pattern"@[0] && "milestone"@[0] != "user_habit"@[0]);
    assert("milestone"@[0] != "code_observation"@[0]);
    assert("code_observation"@[0] != "error_pattern"@[0] && "code_observation"@[0] != "user_habit"@[0]);
    assert("user_habit"@[0] != "error_pattern"@[0]);
    assert("interaction"@[0] != "error_pattern"@[0] && "interaction"@[0] != "user_habit"@[0]);
    assert("interaction"@[0] != "code_observation"@[0] && "interaction"@[0] != "milestone"@[0]);
    assert("interaction"@[0] != "task"@[0]);
}

/// The pet's memory store.
#[derive(Debug, Clone)]
pub struct MemoryStore {
    memories: Vec<Memory>,
    next_id: u64,
    /// Maximum short-term memories before consolidation prunes
    max_short_term: usize,
}

/// `v` capped at 10.
pub open spec fn cap10(v: u8) -> u8 {
    if v < 10 {
        v
    } else {
        10
    }
}

/// Whether the ids of `s` strictly increase along the sequence.
pub open spec fn ids_increasing(s: Seq<Memory>) -> bool {
    forall|i: int, j: int| 0 <= i < j < s.len() ==> #[trigger] s[i].id < #[trigger] s[j].id
}

/// The memories that a sequence of references points to.
pub open spec fn derefs(v: Seq<&Memory>) -> Seq<Memory> {
    v.map_values(|m: &Memory| *m)
}

/// Whether a memory is consolidated (long-term).
pub open spec fn is_consolidated(m: Memory) -> bool {
    m.consolidated
}

/// Whether a memory is short-term (not consolidated).
pub open spec fn is_short_term(m: Memory) -> bool {
    !m.consolidated
}

impl View for MemoryStore {
    type V = Seq<Memory>;

    closed spec fn view(&self) -> Seq<Memory> {
        self.memories@
    }
}

impl MemoryStore {
    /// The id the next added memory gets.
    pub closed spec fn next_id(&self) -> u64 {
        self.next_id
    }

    /// How many short-term memories consolidation keeps at most.
    pub closed spec fn max_short_term(&self) -> usize {
        self.max_short_term
    }

    /// The store's invariant: ids start at 1, strictly increase and stay
    /// below `next_id`; importance is at most 10.
    pub closed spec fn wf(&self) -> bool {
        &&& self.next_id >= 1
        &&& ids_increasing(self.memories@)
        &&& forall|i: int|
            0 <= i < self.memories@.len() ==> 1 <= (#[trigger] self.memories@[i]).id < self.next_id
                && self.memories@[i].importance <= 10
    }

    /// What the invariant says of the memories of a well-formed store.
    pub proof fn lemma_wf(&self)
        requires
            self.wf(),
        ensures
            ids_increasing(self@),
            forall|i: int|
                0 <= i < self@.len() ==> 1 <= (#[trigger] self@[i]).id < self.next_id()
                    && self@[i].importance <= 10,
    {
    }

    /// An empty store that keeps up to 50 short-term memories.
    pub fn new() -> (s: Self)
        ensures
            s.wf(),
            s@ == Seq::<Memory>::empty(),
            s.next_id() == 1,
            s.max_short_term() == 50,
    {
        MemoryStore { memories: Vec::new(), next_id: 1, max_short_term: 50 }
    }

    /// An empty store that keeps up to `max_short_term` short-term memories.
    pub fn with_max_short_term(max_short_term: usize) -> (s: Self)
        ensures
            s.wf(),
            s@ == Seq::<Memory>::empty(),
            s.next_id() == 1,
            s.max_short_term() == max_short_term,
    {
        MemoryStore { memories: Vec::new(), next_id: 1, max_short_term }
    }

    /// The memories, in the order they were added.
    pub fn memories(&self) -> (r: &Vec<Memory>)
        ensures
            r@ == self@,
    {
        &self.memories
    }

    /// Add a new memory created at `created_at`, with the next id and its
    /// importance capped at 10.
    pub fn add_at(&mut self, text: String, importance: u8, category: MemoryCategory, created_at: i64) -> (m: &Memory)
        requires
            old(self).wf(),
            old(self).next_id() < u64::MAX,
        ensures
            final(self).wf(),
            final(self)@ == old(self)@.push(
                Memory {
                    id: old(self).next_id(),
                    text,
                    importance: cap10(importance),
                    consolidated: false,
                    category,
                    created_at,
                },
            ),
            final(self).next_id() == old(self).next_id() + 1,
            final(self).max_short_term() == old(self).max_short_term(),
            *m == final(self)@.last(),
    {
        let memory = Memory {
            id: self.next_id,
            text,
            importance: if importance < 10 { importance } else { 10 },
            consolidated: false,
            category,
            created_at,
        };
        self.next_id = self.next_id + 1;
        self.memories.push(memory);
        let last = self.memories.len() - 1;
        &self.memories[last]
    }

    /// Add a new memory with the next id and the current time.
    pub fn add(&mut self, text: String, importance: u8, category: MemoryCategory) -> (m: &Memory)
        requires
            old(self).wf(),
            old(self).next_id() < u64::MAX,
        ensures
            final(self).wf(),
            final(self)@ == old(self)@.push(
                Memory {
                    id: old(self).next_id(),
                    text,
                    importance: cap10(importance),
                    consolidated: false,
                    category,
                    created_at: final(self)@.last().created_at,
                },
            ),
            final(self).next_id() == old(self).next_id() + 1,
            final(self).max_short_term() == old(self).max_short_term(),
            *m == final(self)@.last(),
    {
        let now = unix_time_seconds();
        self.add_at(text, importance, category, now)
    }

    /// A store rebuilt from stored memories (text, importance, category),
    /// in the order given: each is added anew, so ids run from 1, the
    /// importance is capped at 10, every memory is short-term and its time
    /// is the time it is added.
    pub fn restore(entries: &Vec<(String, u8, MemoryCategory)>) -> (s: Self)
        requires
            entries@.len() < u64::MAX,
        ensures
            s.wf(),
            s.max_short_term() == 50,
            s.next_id() == entries@.len() + 1,
            s@.len() == entries@.len(),
            forall|i: int|
                0 <= i < entries@.len() ==> {
                    &&& (#[trigger] s@[i]).id == i + 1
                    &&& s@[i].text == entries@[i].0
                    &&& s@[i].importance == cap10(entries@[i].1)
                    &&& s@[i].category == entries@[i].2
                    &&& !s@[i].consolidated
                },
    {
        let mut store = MemoryStore::new();
        let mut i: usize = 0;
        while i < entries.len()
            invariant
                i <= entries@.len(),
                entries@.len() < u64::MAX,
                store.wf(),
                store.max_short_term() == 50,
                store.next_id() == i + 1,
                store@.len() == i,
                forall|k: int|
                    0 <= k < i ==> {
                        &&& (#[trigger] store@[k]).id == k + 1
                        &&& store@[k].text == entries@[k].0
                        &&& store@[k].importance == cap10(entries@[k].1)
                        &&& store@[k].category == entries@[k].2
                        &&& !store@[k].consolidated
                    },
            decreases entries@.len() - i,
        {
            let text = entries[i].0.clone();
            store.add(text, entries[i].1, entries[i].2);
            i = i + 1;
        }
        store
    }

    /// Get the total number of memories.
    pub fn len(&self) -> (n: usize)
        ensures
            n == self@.len(),
    {
        self.memories.len()
    }

    /// Check if the store is empty.
    pub fn is_empty(&self) -> (b: bool)
        ensures
            b == (self@.len() == 0),
    {
        self.memories.len() == 0
    }

    /// The memories whose consolidated flag is `want`, in order.
    fn select(&self, want: bool) -> (r: Vec<&Memory>)
        ensures
            derefs(r@) == self@.filter(
                if want {
                    |m: Memory| is_consolidated(m)
                } else {
                    |m: Memory| is_short_term(m)
                },
            ),
    {
        let ghost pred = if want {
            |m: Memory| is_consolidated(m)
        } else {
            |m: Memory| is_short_term(m)
        };
        let mut r: Vec<&Memory> = Vec::new();
        let mut i: usize = 0;
        while i < self.memories.len()
            invariant
                i <= self.memories@.len(),
                pred == (if want {
                    |m: Memory| is_consolidated(m)
                } else {
                    |m: Memory| is_short_term(m)
                }),
                derefs(r@) == self.memories@.take(i as int).filter(pred),
            decreases self.memories@.len() - i,
        {
            let m = &self.memories[i];
            proof {
                assert(self.memories@.take(i + 1) =~= self.memories@.take(i as int).push(*m));
                self.memories@.take(i as int).lemma_filter_push(*m, pred);
            }
            if m.consolidated == want {
                r.push(m);
            }
            assert(derefs(r@) =~= self.memories@.take(i + 1).filter(pred));
            i = i + 1;
        }
        assert(self.memories@.take(self.memories@.len() as int) =~= self.memories@);
        r
    }

    /// Get only consolidated (long-term) memories, in order.
    pub fn consolidated(&self) -> (r: Vec<&Memory>)
        ensures
            derefs(r@) == self@.filter(|m: Memory| is_consolidated(m)),
    {
        self.select(true)
    }

    /// Get only short-term (not consolidated) memories, in order.
    pub fn short_term(&self) -> (r: Vec<&Memory>)
        ensures
            derefs(r@) == self@.filter(|m: Memory| is_short_term(m)),
    {
        self.select(false)
    }

    /// The position that memory `j` takes in the listing ordered by
    /// `listed_before`.
    fn listing_rank(&self, j: usize, by_importance: bool) -> (r: usize)
        requires
            j < self@.len(),
        ensures
            r == listing_rank(self@, j as int, by_importance),
    {
        let n = self.memories.len();
        let ghost f = before_pred(every_position(), listing_lt(self@, by_importance), j as int);
        let mut count: usize = 0;
        let mut i: usize = 0;
        while i < n
            invariant
                n == self@.len(),
                j < n,
                i <= n,
                f == before_pred(every_position(), listing_lt(self@, by_importance), j as int),
                count == count_upto(i as int, f),
                count <= i,
            decreases n - i,
        {
            let a = &self.memories[i];
            let b = &self.memories[j];
            let first = listed_before_exec(a, b, by_importance);
            let second = listed_before_exec(b, a, by_importance);
            proof {
                lemma_count_step(i as int, f);
            }
            if first || (!second && i < j) {
                count = count + 1;
            }
            i = i + 1;
        }
        count
    }

    /// All memories, ordered by `listed_before`, ties kept in store order.
    fn listing(&self, by_importance: bool) -> (r: Vec<&Memory>)
        ensures
            is_listing(self@, derefs(r@), by_importance),
    {
        let n = self.memories.len();
        let mut result: Vec<&Memory> = Vec::new();
        if n == 0 {
            assert(derefs(result@) =~= Seq::<Memory>::empty());
            return result;
        }
        let mut k: usize = 0;
        while k < n
            invariant
                n == self@.len(),
                k <= n,
                result@.len() == k,
            decreases n - k,
        {
            result.push(&self.memories[0]);
            k = k + 1;
        }
        proof {
            lemma_listing_total(self@, by_importance);
            lemma_count_every(n as int);
        }
        let mut j: usize = 0;
        while j < n
            invariant
                n == self@.len(),
                j <= n,
                result@.len() == n,
                strict_total_on(n as int, every_position(), listing_lt(self@, by_importance)),
                count_upto(n as int, every_position()) == n,
                forall|jj: int|
                    0 <= jj < j ==> listing_rank(self@, jj, by_importance) < n && *result@[listing_rank(
                        self@,
                        jj,
                        by_importance,
                    ) as int] == self@[jj],
            decreases n - j,
        {
            let r = self.listing_rank(j, by_importance);
            proof {
                lemma_rank_bound(n as int, every_position(), listing_lt(self@, by_importance), j as int);
                assert forall|jj: int| 0 <= jj < j implies listing_rank(self@, jj, by_importance) != r by {
                    lemma_rank_injective(
                        n as int,
                        every_position(),
                        listing_lt(self@, by_importance),
                        jj,
                        j as int,
                    );
                }
            }
            let ghost before = result@;
            result.set(r, &self.memories[j]);
            proof {
                assert forall|jj: int| 0 <= jj < j + 1 implies *result@[listing_rank(
                    self@,
                    jj,
                    by_importance,
                ) as int] == self@[jj] by {
                    lemma_rank_bound(n as int, every_position(), listing_lt(self@, by_importance), jj);
                    if jj < j {
                        assert(before[listing_rank(self@, jj, by_importance) as int]
                            == result@[listing_rank(self@, jj, by_importance) as int]);
                    }
                }
            }
            j = j + 1;
        }
        proof {
            assert forall|jj: int| 0 <= jj < n implies derefs(result@)[listing_rank(
                self@,
                jj,
                by_importance,
            ) as int] == self@[jj] by {
                lemma_rank_bound(n as int, every_position(), listing_lt(self@, by_importance), jj);
            }
        }
        result
    }

    /// Get all memories, sorted by importance (descending) then by recency
    /// (newest first); memories that tie keep their store order.
    pub fn all(&self) -> (r: Vec<&Memory>)
        ensures
            is_listing(self@, derefs(r@), true),
    {
        self.listing(true)
    }

    /// Get the `count` most recent memories, newest first; memories created
    /// at the same time keep their store order.
    pub fn recent(&self, count: usize) -> (r: Vec<&Memory>)
        ensures
            r@.len() == if count < self@.len() {
                count as int
            } else {
                self@.len() as int
            },
            forall|j: int|
                0 <= j < self@.len() && listing_rank(self@, j, false) < count ==> *r@[listing_rank(
                    self@,
                    j,
                    false,
                ) as int] == self@[j],
    {
        let mut r = self.listing(false);
        let ghost full = r@;
        r.truncate(count);
        proof {
            assert forall|j: int|
                0 <= j < self@.len() && listing_rank(self@, j, false) < count implies *r@[listing_rank(
                self@,
                j,
                false,
            ) as int] == self@[j] by {
                lemma_listing_total(self@, false);
                lemma_count_every(self@.len() as int);
                lemma_rank_bound(self@.len() as int, every_position(), listing_lt(self@, false), j);
                assert(derefs(full)[listing_rank(self@, j, false) as int] == self@[j]);
            }
        }
        r
    }
}

/// Whether memory `a` is listed before memory `b`: by importance
/// (descending) then creation time (newest first), or by creation time
/// alone (newest first).
pub open spec fn listed_before(a: Memory, b: Memory, by_importance: bool) -> bool {
    if by_importance {
        a.importance > b.importance || (a.importance == b.importance && a.created_at > b.created_at)
    } else {
        a.created_at > b.created_at
    }
}

/// The order of positions in a listing: by `listed_before`, ties by
/// position.
pub open spec fn listing_lt(s: Seq<Memory>, by_importance: bool) -> spec_fn(int, int) -> bool {
    |i: int, j: int|
        listed_before(s[i], s[j], by_importance) || (!listed_before(s[j], s[i], by_importance) && i
            < j)
}

/// Every position.
pub open spec fn every_position() -> spec_fn(int) -> bool {
    |i: int| true
}

/// The position of memory `j` in the listing of `s`.
pub open spec fn listing_rank(s: Seq<Memory>, j: int, by_importance: bool) -> nat {
    rank_in(s.len() as int, every_position(), listing_lt(s, by_importance), j)
}

/// Whether `r` lists every memory of `s` at its listing position.
pub open spec fn is_listing(s: Seq<Memory>, r: Seq<Memory>, by_importance: bool) -> bool {
    &&& r.len() == s.len()
    &&& forall|j: int|
        0 <= j < s.len() ==> r[listing_rank(s, j, by_importance) as int] == s[j]
}

/// `listed_before`, computed.
fn listed_before_exec(a: &Memory, b: &Memory, by_importance: bool) -> (r: bool)
    ensures
        r == listed_before(*a, *b, by_importance),
{
    if by_importance {
        a.importance > b.importance || (a.importance == b.importance && a.created_at > b.created_at)
    } else {
        a.created_at > b.created_at
    }
}

/// The listing order is a strict total order on positions.
proof fn lemma_listing_total(s: Seq<Memory>, by_importance: bool)
    ensures
        strict_total_on(s.len() as int, every_position(), listing_lt(s, by_importance)),
{
}

/// Every position of `0..n` is counted.
proof fn lemma_count_every(n: int)
    requires
        n >= 0,
    ensures
        count_upto(n, every_position()) == n,
    decreases n,
{
    if n > 0 {
        lemma_count_every(n - 1);
    }
}

/// A memory after the promotion step of consolidation: short-term
/// memories of importance 7 or more become long-term.
pub open spec fn promote(m: Memory) -> Memory {
    Memory { consolidated: m.consolidated || m.importance >= 7, ..m }
}

/// Every memory of `s` promoted.
pub open spec fn promoted(s: Seq<Memory>) -> Seq<Memory> {
    s.map_values(|m: Memory| promote(m))
}

/// The positions of short-term memories of importance 7 or more.
pub open spec fn promotable_pos(s: Seq<Memory>) -> spec_fn(int) -> bool {
    |i: int| !s[i].consolidated && s[i].importance >= 7
}

/// The positions of short-term memories.
pub open spec fn short_pos(s: Seq<Memory>) -> spec_fn(int) -> bool {
    |i: int| !s[i].consolidated
}

/// The order in which short-term memories are pruned: lowest importance
/// first, ties in store order.
pub open spec fn prune_lt(s: Seq<Memory>) -> spec_fn(int, int) -> bool {
    |i: int, j: int| s[i].importance < s[j].importance || (s[i].importance == s[j].importance && i < j)
}

/// The number of short-term memories of `s`.
pub open spec fn short_count(s: Seq<Memory>) -> nat {
    count_upto(s.len() as int, short_pos(s))
}

/// The positions of the `k` short-term memories that are pruned first.
pub open spec fn prune_set(s: Seq<Memory>, k: int) -> spec_fn(int) -> bool {
    ranked_below(s.len() as int, short_pos(s), prune_lt(s), k)
}

/// The memories of `s[0..k]` whose positions `drop` does not hold, in
/// order.
pub open spec fn without(s: Seq<Memory>, drop: spec_fn(int) -> bool, k: int) -> Seq<Memory>
    decreases k,
{
    if k <= 0 {
        Seq::empty()
    } else if drop(k - 1) {
        without(s, drop, k - 1)
    } else {
        without(s, drop, k - 1).push(s[k - 1])
    }
}

/// How many memories consolidating `s` prunes: the short-term memories
/// beyond `max` after promotion.
pub open spec fn pruned_count(s: Seq<Memory>, max: usize) -> nat {
    let p = promoted(s);
    if short_count(p) <= max {
        0
    } else {
        (short_count(p) - max) as nat
    }
}

/// The memories that consolidating `s` keeps: all of them promoted, minus
/// the `pruned_count` lowest-importance short-term memories.
pub open spec fn consolidation(s: Seq<Memory>, max: usize) -> Seq<Memory> {
    let p = promoted(s);
    without(p, prune_set(p, pruned_count(s, max) as int), p.len() as int)
}

/// Every memory that `without` keeps comes from the prefix it walks, and
/// the kept memories keep their order.
pub proof fn lemma_without_members(s: Seq<Memory>, drop: spec_fn(int) -> bool, k: int)
    requires
        0 <= k <= s.len(),
    ensures
        without(s, drop, k).len() == k - count_upto(k, drop),
        forall|a: int|
            0 <= a < without(s, drop, k).len() ==> exists|i: int|
                0 <= i < k && !drop(i) && #[trigger] without(s, drop, k)[a] == s[i],
        ids_increasing(s) ==> ids_increasing(without(s, drop, k)),
    decreases k,
{
    if k > 0 {
        lemma_without_members(s, drop, k - 1);
        let w = without(s, drop, k - 1);
        if !drop(k - 1) {
            let w2 = w.push(s[k - 1]);
            assert forall|a: int| 0 <= a < w2.len() implies exists|i: int|
                0 <= i < k && !drop(i) && #[trigger] w2[a] == s[i] by {
                if a == w.len() {
                    assert(w2[a] == s[k - 1]);
                } else {
                    assert(w2[a] == w[a]);
                }
            }
            if ids_increasing(s) {
                assert forall|a: int, b: int| 0 <= a < b < w2.len() implies #[trigger] w2[a].id
                    < #[trigger] w2[b].id by {
                    if b == w.len() {
                        let i = choose|i: int| 0 <= i < k - 1 && !drop(i) && w[a] == s[i];
                        assert(s[i].id < s[k - 1].id);
                    } else {
                        assert(w2[a] == w[a] && w2[b] == w[b]);
                    }
                }
            }
        }
    }
}

/// The pruning order is a strict total order on the short-term positions.
proof fn lemma_prune_order_total(s: Seq<Memory>)
    ensures
        strict_total_on(s.len() as int, short_pos(s), prune_lt(s)),
{
}

/// A copy of a memory.
fn copy_memory(m: &Memory) -> (c: Memory)
    ensures
        c == *m,
{
    Memory {
        id: m.id,
        text: m.text.clone(),
        importance: m.importance,
        consolidated: m.consolidated,
        category: m.category,
        created_at: m.created_at,
    }
}

impl MemoryStore {
    /// The pruning rank of short-term memory `j`: how many short-term
    /// memories are pruned before it.
    fn prune_rank(&self, j: usize) -> (r: usize)
        requires
            j < self@.len(),
        ensures
            r == rank_in(self@.len() as int, short_pos(self@), prune_lt(self@), j as int),
    {
        let n = self.memories.len();
        let ghost f = before_pred(short_pos(self@), prune_lt(self@), j as int);
        let mut count: usize = 0;
        let mut i: usize = 0;
        while i < n
            invariant
                n == self@.len(),
                j < n,
                i <= n,
                f == before_pred(short_pos(self@), prune_lt(self@), j as int),
                count == count_upto(i as int, f),
                count <= i,
            decreases n - i,
        {
            let a = &self.memories[i];
            let b = &self.memories[j];
            proof {
                lemma_count_step(i as int, f);
            }
            if !a.consolidated && (a.importance < b.importance || (a.importance == b.importance && i
                < j)) {
                count = count + 1;
            }
            i = i + 1;
        }
        count
    }

    /// Consolidate memories: mark high-importance (7 or more) short-term
    /// memories as long-term, then, while more short-term memories remain
    /// than the store keeps, prune the lowest-importance ones (earliest
    /// first among equals).
    ///
    /// Returns the number of memories consolidated and the number pruned.
    pub fn consolidate(&mut self) -> (r: (usize, usize))
        requires
            old(self).wf(),
        ensures
            final(self).wf(),
            final(self)@ == consolidation(old(self)@, old(self).max_short_term()),
            r.0 == count_upto(old(self)@.len() as int, promotable_pos(old(self)@)),
            r.1 == pruned_count(old(self)@, old(self).max_short_term()),
            final(self).next_id() == old(self).next_id(),
            final(self).max_short_term() == old(self).max_short_term(),
    {
        let ghost s0 = self.memories@;
        let n = self.memories.len();
        let mut consolidated_count: usize = 0;
        let mut i: usize = 0;
        while i < n
            invariant
                n == s0.len(),
                self.memories@.len() == n,
                i <= n,
                forall|k: int| 0 <= k < i ==> self.memories@[k] == promote(s0[k]),
                forall|k: int| i <= k < n ==> self.memories@[k] == s0[k],
                consolidated_count == count_upto(i as int, promotable_pos(s0)),
                consolidated_count <= i,
                self.next_id == old(self).next_id,
                self.max_short_term == old(self).max_short_term,
            decreases n - i,
        {
            proof {
                lemma_count_step(i as int, promotable_pos(s0));
            }
            if !self.memories[i].consolidated && self.memories[i].importance >= 7 {
                self.memories[i].consolidated = true;
                consolidated_count = consolidated_count + 1;
            }
            i = i + 1;
        }
        let ghost p = self.memories@;
        assert(p =~= promoted(s0));
        let mut short_term_count: usize = 0;
        let mut i: usize = 0;
        while i < n
            invariant
                p == self.memories@,
                n == p.len(),
                i <= n,
                short_term_count == count_upto(i as int, short_pos(p)),
                short_term_count <= i,
            decreases n - i,
        {
            proof {
                lemma_count_step(i as int, short_pos(p));
            }
            if !self.memories[i].consolidated {
                short_term_count = short_term_count + 1;
            }
            i = i + 1;
        }
        let mut pruned: usize = 0;
        if short_term_count > self.max_short_term {
            let to_prune = short_term_count - self.max_short_term;
            let ghost drop = prune_set(p, to_prune as int);
            let mut kept: Vec<Memory> = Vec::new();
            let mut j: usize = 0;
            while j < n
                invariant
                    p == self.memories@,
                    n == p.len(),
                    j <= n,
                    drop == prune_set(p, to_prune as int),
                    kept@ == without(p, drop, j as int),
                decreases n - j,
            {
                let m = &self.memories[j];
                let dropped = !m.consolidated && self.prune_rank(j) < to_prune;
                if !dropped {
                    kept.push(copy_memory(m));
                }
                j = j + 1;
            }
            proof {
                lemma_without_members(p, drop, n as int);
                lemma_prune_order_total(p);
                lemma_ranked_below_count(n as int, short_pos(p), prune_lt(p), to_prune as int);
            }
            let before = self.memories.len();
            self.memories = kept;
            pruned = before - self.memories.len();
        } else {
            proof {
                assert(without(p, prune_set(p, 0), n as int) =~= p) by {
                    lemma_nothing_below_zero(p, n as int);
                }
            }
        }
        proof {
            lemma_without_members(p, prune_set(p, pruned_count(s0, self.max_short_term) as int), n as int);
        }
        (consolidated_count, pruned)
    }
}

/// With nothing to prune, `without` keeps every memory.
proof fn lemma_nothing_below_zero(p: Seq<Memory>, k: int)
    requires
        0 <= k <= p.len(),
    ensures
        without(p, prune_set(p, 0), k) =~= p.take(k),
    decreases k,
{
    if k > 0 {
        lemma_nothing_below_zero(p, k - 1);
        assert(p.take(k) =~= p.take(k - 1).push(p[k - 1]));
    }
}

/// Whether `m` is a fresh short-term memory with the given id, text,
/// importance and category.
pub open spec fn is_fresh_memory(m: Memory, id: u64, text: Seq<char>, importance: u8, category: MemoryCategory) -> bool {
    &&& m.id == id
    &&& m.text@ == text
    &&& m.importance == importance
    &&& !m.consolidated
    &&& m.category == category
}

/// Whether `b` is `a` with one fresh memory appended.
pub open spec fn appended(a: MemoryStore, b: MemoryStore, text: Seq<char>, importance: u8, category: MemoryCategory) -> bool {
    &&& b.wf()
    &&& b@.len() == a@.len() + 1
    &&& b@.drop_last() == a@
    &&& is_fresh_memory(b@.last(), a.next_id(), text, importance, category)
    &&& b.next_id() == a.next_id() + 1
    &&& b.max_short_term() == a.max_short_term()
}

/// The text of a task memory.
pub open spec fn task_memory_text(name: Seq<char>, success: bool, error_count: u32) -> Seq<char> {
    if success {
        "Task '"@ + name + "' completed successfully"@
    } else {
        "Task '"@ + name + "' failed with "@ + decimal(error_count as nat) + " errors"@
    }
}

/// The importance of a task memory: 3 for a success, 5 plus the errors
/// (at most 5 counted) for a failure.
pub open spec fn task_importance(success: bool, error_count: u32) -> u8 {
    if success {
        3
    } else if error_count < 5 {
        (5 + error_count) as u8
    } else {
        10
    }
}

/// Whether a memory's text contains the keyword, both lowercased.
pub open spec fn mentions(m: Memory, keyword: Seq<char>) -> bool {
    contains_seq(unicode_lowercase(m.text@), unicode_lowercase(keyword))
}

impl MemoryStore {
    /// Create a memory from a task completion.
    pub fn remember_task(&mut self, task_name: &str, success: bool, error_count: u32)
        requires
            old(self).wf(),
            old(self).next_id() < u64::MAX,
        ensures
            appended(
                *old(self),
                *final(self),
                task_memory_text(task_name@, success, error_count),
                task_importance(success, error_count),
                MemoryCategory::Task,
            ),
    {
        let importance: u8 = if success {
            3
        } else {
            5 + (if error_count < 5 { error_count } else { 5 }) as u8
        };
        let text = if success {
            let mut t = "Task '".to_owned();
            t.append(task_name);
            t.append("' completed successfully");
            t
        } else {
            let mut t = "Task '".to_owned();
            t.append(task_name);
            t.append("' failed with ");
            t.append(u32_to_decimal(error_count).as_str());
            t.append(" errors");
            t
        };
        self.add(text, importance, MemoryCategory::Task);
        assert(self@.drop_last() =~= old(self)@);
    }

    /// Create a memory from an error pattern.
    pub fn remember_error_pattern(&mut self, pattern: &str)
        requires
            old(self).wf(),
            old(self).next_id() < u64::MAX,
        ensures
            appended(
                *old(self),
                *final(self),
                "Error pattern: "@ + pattern@,
                6,
                MemoryCategory::ErrorPattern,
            ),
    {
        let mut text = "Error pattern: ".to_owned();
        text.append(pattern);
        self.add(text, 6, MemoryCategory::ErrorPattern);
        assert(self@.drop_last() =~= old(self)@);
    }

    /// Create a milestone memory.
    pub fn remember_milestone(&mut self, description: &str)
        requires
            old(self).wf(),
            old(self).next_id() < u64::MAX,
        ensures
            appended(*old(self), *final(self), description@, 9, MemoryCategory::Milestone),
    {
        self.add(description.to_owned(), 9, MemoryCategory::Milestone);
        assert(self@.drop_last() =~= old(self)@);
    }

    /// Search memories by keyword, ignoring case, in store order.
    pub fn search(&self, keyword: &str) -> (r: Vec<&Memory>)
        ensures
            derefs(r@) == self@.filter(|m: Memory| mentions(m, keyword@)),
    {
        let keyword_lower = to_lowercase(keyword);
        let ghost pred = |m: Memory| mentions(m, keyword@);
        let mut r: Vec<&Memory> = Vec::new();
        let mut i: usize = 0;
        while i < self.memories.len()
            invariant
                i <= self.memories@.len(),
                pred == (|m: Memory| mentions(m, keyword@)),
                keyword_lower@ == unicode_lowercase(keyword@),
                derefs(r@) == self.memories@.take(i as int).filter(pred),
            decreases self.memories@.len() - i,
        {
            let m = &self.memories[i];
            proof {
                assert(self.memories@.take(i + 1) =~= self.memories@.take(i as int).push(*m));
                self.memories@.take(i as int).lemma_filter_push(*m, pred);
            }
            let text_lower = to_lowercase(m.text.as_str());
            if str_contains(text_lower.as_str(), keyword_lower.as_str()) {
                r.push(m);
            }
            assert(derefs(r@) =~= self.memories@.take(i + 1).filter(pred));
            i = i + 1;
        }
        assert(self.memories@.take(self.memories@.len() as int) =~= self.memories@);
        r
    }
}

/// Short-term memories that `without` keeps are those not dropped.
proof fn lemma_without_short(p: Seq<Memory>, drop: spec_fn(int) -> bool, k: int)
    requires
        0 <= k <= p.len(),
    ensures
        short_count(without(p, drop, k)) == count_upto(k, |i: int| short_pos(p)(i) && !drop(i)),
        forall|i: int| 0 <= i < k && !drop(i) ==> without(p, drop, k).contains(#[trigger] p[i]),
    decreases k,
{
    if k > 0 {
        lemma_without_short(p, drop, k - 1);
        let w = without(p, drop, k - 1);
        if !drop(k - 1) {
            let w2 = w.push(p[k - 1]);
            lemma_count_ext(w.len() as int, short_pos(w2), short_pos(w));
            assert(w2[w.len() as int] == p[k - 1]);
            assert(w2.contains(p[k - 1]));
            assert forall|i: int| 0 <= i < k && !drop(i) implies w2.contains(#[trigger] p[i]) by {
                if i < k - 1 {
                    let a = choose|a: int| 0 <= a < w.len() && w[a] == p[i];
                    assert(w2[a] == p[i]);
                }
            }
        }
    }
}

/// What consolidation guarantees: every remaining short-term memory has
/// importance below 7; at most `max` short-term memories remain (exactly
/// `max` when some were pruned); the store shrinks by the number pruned;
/// and no memory that is long-term after promotion is ever pruned.
pub proof fn lemma_consolidation_laws(s: Seq<Memory>, max: usize)
    ensures
        forall|i: int|
            0 <= i < consolidation(s, max).len() ==> (#[trigger] consolidation(s, max)[i]).consolidated
                || consolidation(s, max)[i].importance < 7,
        short_count(consolidation(s, max)) == short_count(promoted(s)) - pruned_count(s, max),
        short_count(consolidation(s, max)) <= max,
        consolidation(s, max).len() == s.len() - pruned_count(s, max),
        forall|i: int|
            0 <= i < s.len() && #[trigger] promote(s[i]).consolidated ==> consolidation(
                s,
                max,
            ).contains(promote(s[i])),
{
    let p = promoted(s);
    let n = p.len() as int;
    let k = pruned_count(s, max) as int;
    let drop = prune_set(p, k);
    let r = consolidation(s, max);
    lemma_prune_order_total(p);
    lemma_count_bound(n, short_pos(p));
    lemma_ranked_below_count(n, short_pos(p), prune_lt(p), k);
    lemma_without_members(p, drop, n);
    lemma_without_short(p, drop, n);
    assert forall|i: int| 0 <= i < r.len() implies (#[trigger] r[i]).consolidated || r[i].importance < 7 by {
        let j = choose|j: int| 0 <= j < n && !drop(j) && r[i] == p[j];
        assert(p[j] == promote(s[j]));
    }
    lemma_count_split(n, short_pos(p), drop);
    lemma_count_ext(n, |i: int| short_pos(p)(i) && drop(i), drop);
    assert forall|i: int| 0 <= i < s.len() && #[trigger] promote(s[i]).consolidated implies r.contains(
        promote(s[i]),
    ) by {
        assert(p[i] == promote(s[i]));
        assert(!drop(i));
    }
}

/// Consolidating twice is consolidating once: after a consolidation
/// nothing is left to promote or prune, and a second one leaves the store
/// as it is.
pub proof fn lemma_consolidation_idempotent(s: Seq<Memory>, max: usize)
    ensures
        count_upto(
            consolidation(s, max).len() as int,
            promotable_pos(consolidation(s, max)),
        ) == 0,
        pruned_count(consolidation(s, max), max) == 0,
        consolidation(consolidation(s, max), max) == consolidation(s, max),
{
    let r = consolidation(s, max);
    lemma_consolidation_laws(s, max);
    assert forall|i: int| 0 <= i < r.len() implies promote(r[i]) == r[i] by {}
    assert(promoted(r) =~= r);
    lemma_count_none(r.len() as int, promotable_pos(r));
    lemma_nothing_below_zero(r, r.len() as int);
    assert(r.take(r.len() as int) =~= r);
}

} // verus!
