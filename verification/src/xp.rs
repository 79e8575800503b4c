//! The experience curve: what each level costs and what a run of levels
//! costs in total.

use vstd::prelude::*;
use crate::event::{Event, is_level_up};
use crate::species::PetState;

verus! {

/// XP needed to go from `level` to `level + 1`: `level * 100 + level^2 * 50`.
pub open spec fn xp_step(level: int) -> int {
    level * 100 + level * level * 50
}

/// Cumulative XP needed to reach `level` from level 1: the sum of
/// `xp_step(l)` for `l` in `1..level`.
pub open spec fn xp_total(level: int) -> int
    decreases level,
{
    if level <= 1 {
        0
    } else {
        xp_total(level - 1) + xp_step(level - 1)
    }
}

/// The highest level whose cumulative XP still fits in a `u32`.
pub const MAX_LEVEL: u32 = 635;

/// The cumulative total grows with the level.
pub proof fn lemma_xp_total_monotonic(a: int, b: int)
    requires
        a <= b,
    ensures
        xp_total(a) <= xp_total(b),
    decreases b - a,
{
    if a < b {
        lemma_xp_total_monotonic(a, b - 1);
        if b - 1 >= 1 {
            assert(xp_step(b - 1) >= 0) by (nonlinear_arith)
                requires
                    b - 1 >= 1,
            ;
        }
    }
}

/// From level 1 on, each level costs strictly more in total than the one
/// before.
pub proof fn lemma_xp_total_strict(a: int, b: int)
    requires
        1 <= a < b,
    ensures
        xp_total(a) < xp_total(b),
    decreases b - a,
{
    assert(xp_step(b - 1) > 0) by (nonlinear_arith)
        requires
            b - 1 >= 1,
    ;
    if a < b - 1 {
        lemma_xp_total_strict(a, b - 1);
    }
}

/// Closed form of the cumulative total: `3 * xp_total(L) == 25 (L-1) L (2L+5)`.
pub proof fn lemma_xp_total_closed_form(level: int)
    requires
        level >= 1,
    ensures
        3 * xp_total(level) == 25 * (level - 1) * level * (2 * level + 5),
    decreases level,
{
    if level > 1 {
        lemma_xp_total_closed_form(level - 1);
        let l = level - 1;
        assert(25 * (l - 1) * l * (2 * l + 5) + 3 * (l * 100 + l * l * 50) == 25 * l * (l + 1) * (2
            * (l + 1) + 5)) by (nonlinear_arith);
    } else {
        assert(25 * (level - 1) * level * (2 * level + 5) == 0) by (nonlinear_arith)
            requires
                level == 1,
        ;
    }
}

/// `MAX_LEVEL` is the last level whose cumulative XP fits in a `u32`.
pub proof fn lemma_max_level_bounds()
    ensures
        xp_total(MAX_LEVEL as int) == 4277518750,
        xp_total(MAX_LEVEL as int) <= u32::MAX,
        xp_total(MAX_LEVEL as int + 1) > u32::MAX,
{
    lemma_xp_total_closed_form(635);
    lemma_xp_total_closed_form(636);
    assert(25 * (635 - 1) * 635 * (2 * 635 + 5) == 3 * 4277518750int) by (nonlinear_arith);
    assert(25 * (636 - 1) * 636 * (2 * 636 + 5) == 3 * 4297743500int) by (nonlinear_arith);
}

/// XP needed to reach the next level from the current level.
/// Formula: level * 100 + level^2 * 50
pub fn xp_to_next_level(level: u32) -> (r: u32)
    requires
        xp_step(level as int) <= u32::MAX,
    ensures
        r == xp_step(level as int),
{
    assert(level * 100 <= xp_step(level as int) && level * level * 50 <= xp_step(level as int)
        && level * level <= level * level * 50) by (nonlinear_arith)
        requires
            level >= 0,
    ;
    level * 100 + level * level * 50
}

/// XP needed to reach the next level from `level`, or `None` when that
/// number does not fit in a `u32`.
pub fn checked_xp_to_next_level(level: u32) -> (r: Option<u32>)
    ensures
        r matches Some(v) ==> v == xp_step(level as int),
        r is None <==> xp_step(level as int) > u32::MAX,
{
    let a = level.checked_mul(100);
    let b = match level.checked_mul(level) {
        Some(sq) => sq.checked_mul(50),
        None => None,
    };
    match (a, b) {
        (Some(x), Some(y)) => {
            let r = x.checked_add(y);
            proof {
                if r is None {
                    assert(xp_step(level as int) > u32::MAX);
                }
            }
            r
        },
        _ => {
            assert(xp_step(level as int) > u32::MAX) by (nonlinear_arith)
                requires
                    level * 100 > u32::MAX || level * level > u32::MAX || level * level * 50 > u32::MAX,
            ;
            None
        },
    }
}

/// Cumulative XP required to reach `level` from level 1.
pub fn total_xp_for_level(level: u32) -> (r: u32)
    requires
        xp_total(level as int) <= u32::MAX,
    ensures
        r == xp_total(level as int),
{
    if level <= 1 {
        return 0;
    }
    let mut sum: u32 = 0;
    let mut l: u32 = 1;
    while l < level
        invariant
            1 <= l <= level,
            xp_total(level as int) <= u32::MAX,
            sum == xp_total(l as int),
        decreases level - l,
    {
        proof {
            lemma_xp_total_monotonic(l as int + 1, level as int);
            lemma_xp_total_monotonic(l as int, l as int + 1);
        }
        sum = sum + xp_to_next_level(l);
        l = l + 1;
    }
    sum
}

/// A summary of a pet's progress within its level.
#[derive(Debug, Clone, Copy)]
pub struct LevelInfo {
    pub current_level: u32,
    pub current_xp: u32,
    pub xp_for_next: u32,
    pub xp_in_level: u32,
}

/// The bonus XP earned by climbing from `from` to `to`: ten times each new
/// level, for the levels `from + 1` through `to`.
pub open spec fn level_bonus(from: int, to: int) -> int
    decreases to - from,
{
    if to <= from {
        0
    } else {
        10 * (from + 1) + level_bonus(from + 1, to)
    }
}

/// Where a pet at `level` with `xp` XP settles, as `(level, xp)`: while its
/// XP reaches the threshold of the next level, it climbs a level and earns
/// ten times the new level as bonus XP. The climb stops at `MAX_LEVEL`.
pub open spec fn settle(level: int, xp: int) -> (int, int)
    decreases MAX_LEVEL - level,
{
    if level < MAX_LEVEL && xp >= xp_total(level + 1) {
        settle(level + 1, xp + 10 * (level + 1))
    } else {
        (level, xp)
    }
}

/// Whether `amount` XP can be awarded to `p`: the sum fits in a `u32` and
/// the pet settles below `MAX_LEVEL`, so that every threshold the award
/// consults fits in a `u32` too.
pub open spec fn can_award(p: PetState, amount: u32) -> bool {
    &&& p.level < MAX_LEVEL
    &&& p.xp + amount <= u32::MAX
    &&& settle(p.level as int, p.xp + amount).0 < MAX_LEVEL
}

/// What settling does: the level never drops and the XP never shrinks;
/// the XP grows by exactly the bonus of the levels climbed; every level
/// climbed had its threshold reached (counting the bonuses earned before
/// it); a pet that climbed has at least the threshold of its new level;
/// and a pet that settles below `MAX_LEVEL` stays below its next threshold.
pub proof fn lemma_settle(level: int, xp: int)
    requires
        level >= 0,
    ensures
        settle(level, xp).0 >= level,
        settle(level, xp).1 >= xp,
        settle(level, xp).1 == xp + level_bonus(level, settle(level, xp).0),
        forall|l: int|
            level <= l < settle(level, xp).0 ==> xp_total(l + 1) <= xp + #[trigger] level_bonus(
                level,
                l,
            ),
        settle(level, xp).0 > level ==> settle(level, xp).1 >= xp_total(settle(level, xp).0),
        settle(level, xp).0 < MAX_LEVEL ==> settle(level, xp).1 < xp_total(
            settle(level, xp).0 + 1,
        ),
    decreases MAX_LEVEL - level,
{
    if level < MAX_LEVEL && xp >= xp_total(level + 1) {
        let x2 = xp + 10 * (level + 1);
        lemma_settle(level + 1, x2);
        let s = settle(level, xp);
        assert(s == settle(level + 1, x2));
        assert forall|l: int| level <= l < s.0 implies xp_total(l + 1) <= xp + #[trigger] level_bonus(
            level,
            l,
        ) by {
            if l > level {
                assert(level_bonus(level, l) == 10 * (level + 1) + level_bonus(level + 1, l));
            }
        }
        if s.0 > level + 1 {
        } else {
            assert(s.1 >= x2);
        }
    } else {
        assert(level_bonus(level, level) == 0);
    }
}

/// Settling after adding `y` more XP ends where settling first and adding
/// `y` afterwards ends.
proof fn lemma_settle_shift(level: int, x: int, y: int)
    requires
        y >= 0,
    ensures
        settle(level, x + y) == settle(settle(level, x).0, settle(level, x).1 + y),
    decreases MAX_LEVEL - level,
{
    if level < MAX_LEVEL && x >= xp_total(level + 1) {
        lemma_settle_shift(level + 1, x + 10 * (level + 1), y);
        assert(x + y + 10 * (level + 1) == x + 10 * (level + 1) + y);
    }
}

/// Whether `amount` XP can be awarded to `p` (see `can_award`).
pub fn can_award_xp(p: &PetState, amount: u32) -> (b: bool)
    ensures
        b == can_award(*p, amount),
{
    proof {
        lemma_max_level_bounds();
    }
    if p.level >= MAX_LEVEL || (p.xp as u64) + (amount as u64) > u32::MAX as u64 {
        return false;
    }
    let ghost target = settle(p.level as int, p.xp + amount);
    let start: u64 = (p.xp as u64) + (amount as u64);
    let mut level: u32 = p.level;
    let mut xp: u64 = start;
    while level < MAX_LEVEL
        invariant
            p.level <= level <= MAX_LEVEL,
            start <= u32::MAX,
            xp <= start + 6400 * (level - p.level),
            settle(level as int, xp as int) == target,
            xp_total(MAX_LEVEL as int) <= u32::MAX,
        ensures
            settle(level as int, xp as int) == target,
            level == MAX_LEVEL || xp < xp_total(level + 1),
        decreases MAX_LEVEL - level,
    {
        proof {
            lemma_xp_total_monotonic(level as int + 1, MAX_LEVEL as int);
        }
        let needed = total_xp_for_level(level + 1);
        if xp >= needed as u64 {
            level = level + 1;
            xp = xp + 10 * (level as u64);
        } else {
            break;
        }
    }
    level < MAX_LEVEL
}

/// Whether `b` is `a` with only its level and XP changed.
pub open spec fn same_but_progress(a: PetState, b: PetState) -> bool {
    b == PetState { level: b.level, xp: b.xp, ..a }
}

/// Whether `b` and `events` are what awarding `amount` XP to `a` gives:
/// the pet settles (see `settle`) from its level with its XP grown by
/// `amount`, so its XP grows by `amount` plus the bonus of every level it
/// climbs, and one level-up event is reported per level gained, in order,
/// each earning its bonus.
pub open spec fn awarded(a: PetState, amount: u32, b: PetState, events: Seq<Event>) -> bool {
    &&& (b.level as int, b.xp as int) == settle(a.level as int, a.xp + amount)
    &&& b.xp == a.xp + amount + level_bonus(a.level as int, b.level as int)
    &&& a.level <= b.level < MAX_LEVEL
    &&& same_but_progress(a, b)
    &&& events.len() == b.level - a.level
    &&& forall|i: int|
        0 <= i < events.len() ==> is_level_up(
            #[trigger] events[i],
            (a.level + i) as u32,
            (a.level + i + 1) as u32,
        )
}

/// Award XP to a pet state and return any triggered events: the pet
/// levels up as many times as its XP allows, earning ten times each new
/// level as bonus XP, and each level gained is reported.
pub fn award_xp(state: &mut PetState, amount: u32, reason: &str) -> (events: Vec<Event>)
    requires
        can_award(*old(state), amount),
    ensures
        awarded(*old(state), amount, *final(state), events@),
{
    let ghost target = settle(old(state).level as int, old(state).xp + amount);
    proof {
        lemma_max_level_bounds();
        lemma_settle(old(state).level as int, old(state).xp + amount);
        lemma_xp_total_monotonic(target.0 + 1, MAX_LEVEL as int);
    }
    state.xp = state.xp + amount;
    let mut events: Vec<Event> = Vec::new();
    loop
        invariant_except_break
            old(state).level <= state.level <= target.0,
            target.0 < MAX_LEVEL,
            state.xp <= target.1,
            target.1 < xp_total(target.0 + 1),
            xp_total(target.0 + 1) <= xp_total(MAX_LEVEL as int),
            xp_total(MAX_LEVEL as int) <= u32::MAX,
            settle(state.level as int, state.xp as int) == target,
            same_but_progress(*old(state), *state),
            events@.len() == state.level - old(state).level,
            forall|i: int|
                0 <= i < events@.len() ==> is_level_up(
                    #[trigger] events@[i],
                    (old(state).level + i) as u32,
                    (old(state).level + i + 1) as u32,
                ),
        ensures
            (state.level as int, state.xp as int) == target,
            same_but_progress(*old(state), *state),
            events@.len() == state.level - old(state).level,
            forall|i: int|
                0 <= i < events@.len() ==> is_level_up(
                    #[trigger] events@[i],
                    (old(state).level + i) as u32,
                    (old(state).level + i + 1) as u32,
                ),
        decreases MAX_LEVEL - state.level,
    {
        proof {
            lemma_settle(state.level as int, state.xp as int);
            lemma_xp_total_monotonic(state.level as int + 1, MAX_LEVEL as int);
        }
        let xp_needed = total_xp_for_level(state.level + 1);
        if state.xp >= xp_needed {
            let from_level = state.level;
            let to_level = state.level + 1;
            proof {
                lemma_settle(to_level as int, state.xp + 10 * to_level);
            }
            state.level = to_level;
            events.push(Event::level_up(from_level, to_level));
            state.xp = state.xp + 10 * to_level;
        } else {
            break;
        }
    }
    proof {
        lemma_settle(old(state).level as int, old(state).xp + amount);
    }
    events
}

/// Splitting an award in two changes nothing: awarding `x` and then `y`
/// XP ends where awarding `x + y` at once ends, with the same level-up
/// events in the same order.
pub proof fn lemma_award_split(a: PetState, x: u32, b: PetState, e1: Seq<Event>, y: u32, c: PetState, e2: Seq<Event>)
    requires
        awarded(a, x, b, e1),
        awarded(b, y, c, e2),
        x + y <= u32::MAX,
    ensures
        awarded(a, (x + y) as u32, c, e1 + e2),
{
    lemma_settle_shift(a.level as int, a.xp + x, y as int);
    assert(a.xp + x + y == a.xp + (x + y));
    lemma_settle(a.level as int, a.xp + x + y);
    let e = e1 + e2;
    assert forall|i: int| 0 <= i < e.len() implies is_level_up(
        #[trigger] e[i],
        (a.level + i) as u32,
        (a.level + i + 1) as u32,
    ) by {
        if i >= e1.len() {
            assert(e[i] == e2[i - e1.len()]);
        }
    }
}

/// A pet never loses levels or XP by earning XP, and after an award its
/// XP lies between the threshold of its level and that of the next.
pub proof fn lemma_award_progress(a: PetState, x: u32, b: PetState, events: Seq<Event>)
    requires
        awarded(a, x, b, events),
        xp_total(a.level as int) <= a.xp,
    ensures
        a.level <= b.level,
        a.xp <= b.xp,
        xp_total(b.level as int) <= b.xp < xp_total(b.level + 1),
{
    lemma_settle(a.level as int, a.xp + x);
}

} // verus!
