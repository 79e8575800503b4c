//! Counting and ranking over positions `0..n`: the rank of a position in a
//! strict total order is the number of positions before it, and the ranks
//! of `m` ranked positions are exactly `0..m`.

use vstd::prelude::*;
use vstd::relations::injective_on;
use vstd::set_lib::*;

verus! {

/// The number of positions `i` in `0..n` with `f(i)`.
pub open spec fn count_upto(n: int, f: spec_fn(int) -> bool) -> nat
    decreases n,
{
    if n <= 0 {
        0
    } else {
        count_upto(n - 1, f) + (if f(n - 1) {
            1nat
        } else {
            0nat
        })
    }
}

/// Whether `lt` is a strict total order on the positions of `0..n` that
/// satisfy `mem`.
pub open spec fn strict_total_on(n: int, mem: spec_fn(int) -> bool, lt: spec_fn(int, int) -> bool) -> bool {
    &&& forall|i: int| 0 <= i < n && mem(i) ==> !#[trigger] lt(i, i)
    &&& forall|i: int, j: int, k: int|
        0 <= i < n && 0 <= j < n && 0 <= k < n && mem(i) && mem(j) && mem(k) && #[trigger] lt(i, j)
            && #[trigger] lt(j, k) ==> lt(i, k)
    &&& forall|i: int, j: int|
        0 <= i < n && 0 <= j < n && mem(i) && mem(j) && i != j ==> #[trigger] lt(i, j) || lt(j, i)
}

/// The positions of `0..n` that satisfy `mem` and come before `j`.
pub open spec fn before_pred(mem: spec_fn(int) -> bool, lt: spec_fn(int, int) -> bool, j: int) -> spec_fn(int) -> bool {
    |i: int| mem(i) && lt(i, j)
}

/// The rank of `j`: how many positions satisfying `mem` come before it.
pub open spec fn rank_in(n: int, mem: spec_fn(int) -> bool, lt: spec_fn(int, int) -> bool, j: int) -> nat {
    count_upto(n, before_pred(mem, lt, j))
}

/// The positions of `0..n` that satisfy `mem` and rank below `k`.
pub open spec fn ranked_below(n: int, mem: spec_fn(int) -> bool, lt: spec_fn(int, int) -> bool, k: int) -> spec_fn(int) -> bool {
    |j: int| mem(j) && rank_in(n, mem, lt, j) < k
}

/// Counting over a prefix one longer.
pub proof fn lemma_count_step(n: int, f: spec_fn(int) -> bool)
    requires
        n >= 0,
    ensures
        count_upto(n + 1, f) == count_upto(n, f) + (if f(n) {
            1nat
        } else {
            0nat
        }),
{
}

/// A count is at most the prefix length.
pub proof fn lemma_count_bound(n: int, f: spec_fn(int) -> bool)
    requires
        n >= 0,
    ensures
        count_upto(n, f) <= n,
    decreases n,
{
    if n > 0 {
        lemma_count_bound(n - 1, f);
    }
}

/// A weaker predicate counts at least as many positions, and at least one
/// more when a witness `w` satisfies only the weaker one.
pub proof fn lemma_count_monotonic(n: int, f: spec_fn(int) -> bool, g: spec_fn(int) -> bool, w: int)
    requires
        n >= 0,
        forall|i: int| 0 <= i < n && #[trigger] f(i) ==> g(i),
    ensures
        count_upto(n, f) <= count_upto(n, g),
        0 <= w < n && g(w) && !f(w) ==> count_upto(n, f) < count_upto(n, g),
    decreases n,
{
    if n > 0 {
        lemma_count_monotonic(n - 1, f, g, w);
    }
}

/// Counting agrees with the size of the set of counted positions.
pub proof fn lemma_count_is_set_len(n: int, f: spec_fn(int) -> bool)
    requires
        n >= 0,
    ensures
        Set::new(|i: int| 0 <= i < n && f(i)).finite(),
        Set::new(|i: int| 0 <= i < n && f(i)).len() == count_upto(n, f),
    decreases n,
{
    let s = Set::new(|i: int| 0 <= i < n && f(i));
    if n == 0 {
        assert(s =~= Set::empty());
    } else {
        lemma_count_is_set_len(n - 1, f);
        let p = Set::new(|i: int| 0 <= i < n - 1 && f(i));
        if f(n - 1) {
            assert(s =~= p.insert(n - 1));
        } else {
            assert(s =~= p);
        }
    }
}

/// A position that comes before another has a smaller rank.
pub proof fn lemma_rank_lt(n: int, mem: spec_fn(int) -> bool, lt: spec_fn(int, int) -> bool, j: int, k: int)
    requires
        strict_total_on(n, mem, lt),
        0 <= j < n,
        0 <= k < n,
        mem(j),
        mem(k),
        lt(j, k),
    ensures
        rank_in(n, mem, lt, j) < rank_in(n, mem, lt, k),
{
    let f = before_pred(mem, lt, j);
    let g = before_pred(mem, lt, k);
    assert forall|i: int| 0 <= i < n && #[trigger] f(i) implies g(i) by {
        assert(lt(i, j) && lt(j, k));
    }
    assert(!lt(j, j));
    lemma_count_monotonic(n, f, g, j);
}

/// Distinct ranked positions have distinct ranks.
pub proof fn lemma_rank_injective(n: int, mem: spec_fn(int) -> bool, lt: spec_fn(int, int) -> bool, j: int, k: int)
    requires
        strict_total_on(n, mem, lt),
        0 <= j < n,
        0 <= k < n,
        mem(j),
        mem(k),
        j != k,
    ensures
        rank_in(n, mem, lt, j) != rank_in(n, mem, lt, k),
{
    if lt(j, k) {
        lemma_rank_lt(n, mem, lt, j, k);
    } else {
        assert(lt(k, j));
        lemma_rank_lt(n, mem, lt, k, j);
    }
}

/// A rank is below the number of ranked positions.
pub proof fn lemma_rank_bound(n: int, mem: spec_fn(int) -> bool, lt: spec_fn(int, int) -> bool, j: int)
    requires
        strict_total_on(n, mem, lt),
        0 <= j < n,
        mem(j),
    ensures
        rank_in(n, mem, lt, j) < count_upto(n, mem),
{
    let f = before_pred(mem, lt, j);
    assert(!lt(j, j));
    lemma_count_monotonic(n, f, mem, j);
}

/// Exactly `k` ranked positions rank below `k`, for `k` up to the number
/// of ranked positions.
pub proof fn lemma_ranked_below_count(n: int, mem: spec_fn(int) -> bool, lt: spec_fn(int, int) -> bool, k: int)
    requires
        n >= 0,
        strict_total_on(n, mem, lt),
        0 <= k <= count_upto(n, mem),
    ensures
        count_upto(n, ranked_below(n, mem, lt, k)) == k,
{
    let m = count_upto(n, mem) as int;
    let a = Set::new(|i: int| 0 <= i < n && mem(i));
    let rk = |j: int| rank_in(n, mem, lt, j) as int;
    lemma_count_is_set_len(n, mem);
    assert forall|x: int, y: int| a.contains(x) && a.contains(y) && #[trigger] rk(x) == #[trigger] rk(
        y,
    ) implies x == y by {
        if x != y {
            lemma_rank_injective(n, mem, lt, x, y);
        }
    }
    assert(injective_on(rk, a));
    lemma_map_size(a, a.map(rk), rk);
    lemma_int_range(0, m);
    assert forall|r: int| a.map(rk).contains(r) implies set_int_range(0, m).contains(r) by {
        let j = choose|j: int| a.contains(j) && rk(j) == r;
        lemma_rank_bound(n, mem, lt, j);
    }
    lemma_subset_equality(a.map(rk), set_int_range(0, m));
    let pb = ranked_below(n, mem, lt, k);
    let b = Set::new(|i: int| 0 <= i < n && pb(i));
    lemma_count_is_set_len(n, pb);
    assert forall|x: int, y: int| b.contains(x) && b.contains(y) && #[trigger] rk(x) == #[trigger] rk(
        y,
    ) implies x == y by {
        if x != y {
            lemma_rank_injective(n, mem, lt, x, y);
        }
    }
    assert(injective_on(rk, b));
    assert forall|r: int| #[trigger] b.map(rk).contains(r) <==> set_int_range(0, k).contains(r) by {
        if set_int_range(0, k).contains(r) {
            assert(set_int_range(0, m).contains(r));
            assert(a.map(rk).contains(r));
            let j = choose|j: int| a.contains(j) && rk(j) == r;
            assert(b.contains(j));
        }
    }
    assert(b.map(rk) =~= set_int_range(0, k));
    lemma_map_size(b, set_int_range(0, k), rk);
    lemma_int_range(0, k);
}

/// A predicate that holds nowhere on `0..n` counts zero.
pub proof fn lemma_count_none(n: int, f: spec_fn(int) -> bool)
    requires
        forall|i: int| 0 <= i < n ==> !#[trigger] f(i),
    ensures
        count_upto(n, f) == 0,
    decreases n,
{
    if n > 0 {
        lemma_count_none(n - 1, f);
    }
}

/// Predicates that agree on `0..n` count alike.
pub proof fn lemma_count_ext(n: int, f: spec_fn(int) -> bool, g: spec_fn(int) -> bool)
    requires
        forall|i: int| 0 <= i < n ==> #[trigger] f(i) == g(i),
    ensures
        count_upto(n, f) == count_upto(n, g),
    decreases n,
{
    if n > 0 {
        lemma_count_ext(n - 1, f, g);
    }
}

/// Counting `f` splits into counting `f` with `g` and `f` without `g`.
pub proof fn lemma_count_split(n: int, f: spec_fn(int) -> bool, g: spec_fn(int) -> bool)
    ensures
        count_upto(n, f) == count_upto(n, |i: int| f(i) && g(i)) + count_upto(
            n,
            |i: int| f(i) && !g(i),
        ),
    decreases n,
{
    if n > 0 {
        lemma_count_split(n - 1, f, g);
    }
}

} // verus!
