//! Weapon power budgeting: the cells given to the weapons system are handed
//! out to turrets in slot-index order, skipping user-disabled turrets, so a
//! disabled turret frees its cells for one further down the list.

use vstd::prelude::*;

verus! {

broadcast use vstd::seq_lib::group_to_multiset_ensures;

/// What the allocator reads of one turret: its slot index (lower = powered
/// first), the cells it needs, and the user's enable flag.
#[derive(Clone, Copy, PartialEq, Eq, Debug)]
pub struct WeaponPowerRequest {
    pub index: u32,
    pub power_cost: u32,
    pub enabled: bool,
}

/// What the allocator decides for one turret: whether it has power, and
/// whether it is armed (powered and enabled).
#[derive(Clone, Copy, PartialEq, Eq, Debug)]
pub struct WeaponPowerState {
    pub powered: bool,
    pub armed: bool,
}

// ---------------------------------------------------------------------------
// Specification
// ---------------------------------------------------------------------------

/// First position at or after `i` whose slot index exceeds `idx`
/// (or `s.len()`): where a stable sort inserts a slot of index `idx`.
pub open spec fn insert_pos_from(s: Seq<WeaponPowerRequest>, i: int, idx: u32) -> int
    decreases s.len() - i,
{
    if i < 0 || i >= s.len() {
        s.len() as int
    } else if s[i].index > idx {
        i
    } else {
        insert_pos_from(s, i + 1, idx)
    }
}

/// The turrets stably sorted by slot index (insertion order for equal indices).
pub open spec fn sorted_by_index(s: Seq<WeaponPowerRequest>) -> Seq<WeaponPowerRequest>
    decreases s.len(),
{
    if s.len() == 0 {
        seq![]
    } else {
        let rest = sorted_by_index(s.drop_last());
        rest.insert(insert_pos_from(rest, 0, s.last().index), s.last())
    }
}

/// Greedy grant in list order: an enabled turret gets power when the cells
/// still unspent cover its cost; otherwise it gets none and spends nothing.
pub open spec fn grants(s: Seq<WeaponPowerRequest>, remaining: int) -> Seq<bool>
    decreases s.len(),
{
    if s.len() == 0 {
        seq![]
    } else if s[0].enabled && remaining >= s[0].power_cost {
        seq![true] + grants(s.drop_first(), remaining - s[0].power_cost)
    } else {
        seq![false] + grants(s.drop_first(), remaining)
    }
}

/// First position at or after `i` holding slot index `idx` (or `s.len()`).
pub open spec fn find_index_from(s: Seq<WeaponPowerRequest>, i: int, idx: u32) -> int
    decreases s.len() - i,
{
    if i < 0 || i >= s.len() {
        s.len() as int
    } else if s[i].index == idx {
        i
    } else {
        find_index_from(s, i + 1, idx)
    }
}

/// Whether a turret with slot index `idx` is powered: the grant of the first
/// turret of that index in the index-sorted list.
pub open spec fn index_powered(slots: Seq<WeaponPowerRequest>, budget: int, idx: u32) -> bool {
    let sorted = sorted_by_index(slots);
    let k = find_index_from(sorted, 0, idx);
    k < sorted.len() && grants(sorted, budget)[k]
}

/// No two turrets share a slot index.
pub open spec fn unique_indices(s: Seq<WeaponPowerRequest>) -> bool {
    forall|a: int, b: int|
        0 <= a < s.len() && 0 <= b < s.len() && a != b ==> #[trigger] s[a].index != #[trigger] s[b].index
}

/// Sum of `f` over a list of turrets.
pub open spec fn sum_by(s: Seq<WeaponPowerRequest>, f: spec_fn(WeaponPowerRequest) -> int) -> int
    decreases s.len(),
{
    if s.len() == 0 {
        0
    } else {
        f(s[0]) + sum_by(s.drop_first(), f)
    }
}

/// Cells a turret draws: its cost when its slot index is powered, else nothing.
pub open spec fn powered_cost_fn(slots: Seq<WeaponPowerRequest>, budget: int) -> spec_fn(
    WeaponPowerRequest,
) -> int {
    |r: WeaponPowerRequest|
        if index_powered(slots, budget, r.index) {
            r.power_cost as int
        } else {
            0
        }
}

/// Cells drawn by the turrets that end up powered.
pub open spec fn powered_cost(slots: Seq<WeaponPowerRequest>, budget: int) -> int {
    sum_by(slots, powered_cost_fn(slots, budget))
}

/// Cells a turret would draw if it were powered whenever enabled.
pub open spec fn enabled_cost_fn() -> spec_fn(WeaponPowerRequest) -> int {
    |r: WeaponPowerRequest| if r.enabled { r.power_cost as int } else { 0 }
}

/// Cells a turret draws when its slot index is below `idx` and powered.
pub open spec fn powered_cost_below_fn(slots: Seq<WeaponPowerRequest>, budget: int, idx: u32) -> spec_fn(
    WeaponPowerRequest,
) -> int {
    |r: WeaponPowerRequest|
        if r.index < idx && index_powered(slots, budget, r.index) {
            r.power_cost as int
        } else {
            0
        }
}

/// Cells drawn by the powered turrets served before slot index `idx`.
pub open spec fn powered_cost_below(slots: Seq<WeaponPowerRequest>, budget: int, idx: u32) -> int {
    sum_by(slots, powered_cost_below_fn(slots, budget, idx))
}

/// Cells the enabled turrets would need together.
pub open spec fn enabled_cost(slots: Seq<WeaponPowerRequest>) -> int {
    sum_by(slots, enabled_cost_fn())
}

/// Cells spent by the granted entries of `g` along `s`.
pub open spec fn grant_cost(s: Seq<WeaponPowerRequest>, g: Seq<bool>) -> int
    decreases s.len(),
{
    if s.len() == 0 || g.len() == 0 {
        0
    } else {
        (if g[0] {
            s[0].power_cost as int
        } else {
            0
        }) + grant_cost(s.drop_first(), g.drop_first())
    }
}

// ---------------------------------------------------------------------------
// Implementation
// ---------------------------------------------------------------------------

/// Stable insertion sort of the turrets by slot index.
fn sort_by_index(slots: &Vec<WeaponPowerRequest>) -> (sorted: Vec<WeaponPowerRequest>)
    ensures
        sorted@ == sorted_by_index(slots@),
{
    let mut sorted: Vec<WeaponPowerRequest> = Vec::new();
    let n = slots.len();
    let mut j: usize = 0;
    while j < n
        invariant
            n == slots.len(),
            j <= n,
            sorted@ == sorted_by_index(slots@.take(j as int)),
        decreases n - j,
    {
        let item = slots[j];
        let len = sorted.len();
        let mut p: usize = 0;
        while p < len && sorted[p].index <= item.index
            invariant
                len == sorted.len(),
                p <= len,
                insert_pos_from(sorted@, p as int, item.index) == insert_pos_from(
                    sorted@,
                    0,
                    item.index,
                ),
            decreases len - p,
        {
            p = p + 1;
        }
        proof {
            let s = slots@.take(j + 1);
            assert(s.drop_last() =~= slots@.take(j as int));
            assert(s.last() == item);
        }
        sorted.insert(p, item);
        j = j + 1;
    }
    proof {
        assert(slots@.take(n as int) =~= slots@);
    }
    sorted
}

/// Hands out `budget` cells along the sorted list.
fn grant_in_order(sorted: &Vec<WeaponPowerRequest>, budget: u32) -> (granted: Vec<bool>)
    ensures
        granted@ == grants(sorted@, budget as int),
{
    let mut granted: Vec<bool> = Vec::new();
    let mut remaining = budget;
    let n = sorted.len();
    let mut i: usize = 0;
    proof {
        assert(sorted@.skip(0) =~= sorted@);
    }
    while i < n
        invariant
            n == sorted.len(),
            i <= n,
            granted@ + grants(sorted@.skip(i as int), remaining as int) == grants(
                sorted@,
                budget as int,
            ),
        decreases n - i,
    {
        let r = sorted[i];
        proof {
            let t = sorted@.skip(i as int);
            assert(t.drop_first() =~= sorted@.skip(i + 1));
            assert(t[0] == r);
        }
        let ghost rem0 = remaining;
        let ghost before = granted@;
        let give = r.enabled && remaining >= r.power_cost;
        if give {
            remaining = remaining - r.power_cost;
        }
        granted.push(give);
        proof {
            let t = sorted@.skip(i as int);
            assert(grants(t, rem0 as int) == seq![give] + grants(t.drop_first(), remaining as int));
            assert(granted@ + grants(sorted@.skip(i + 1), remaining as int) =~= before + (seq![give]
                + grants(t.drop_first(), remaining as int)));
        }
        i = i + 1;
    }
    proof {
        assert(sorted@.skip(n as int) =~= Seq::<WeaponPowerRequest>::empty());
        assert(granted@ + Seq::<bool>::empty() =~= granted@);
    }
    granted
}

/// Position of the first entry of `sorted` with slot index `idx`, if any.
fn find_index(sorted: &Vec<WeaponPowerRequest>, idx: u32) -> (k: usize)
    ensures
        k == find_index_from(sorted@, 0, idx),
{
    let n = sorted.len();
    let mut k: usize = 0;
    while k < n && sorted[k].index != idx
        invariant
            n == sorted.len(),
            k <= n,
            find_index_from(sorted@, k as int, idx) == find_index_from(sorted@, 0, idx),
        decreases n - k,
    {
        k = k + 1;
    }
    k
}

/// Decides which turrets get power from the `budget` cells of the weapons
/// system. Turrets are served in slot-index order (a stable sort of `slots`);
/// an enabled turret is powered when the cells left cover its cost, a
/// disabled one is skipped and costs nothing. Each turret then takes the
/// decision made for the first turret of its slot index, and is armed when
/// it is both powered and enabled. The result lists the turrets in the
/// order of `slots`. With distinct slot indices, a turret is powered
/// exactly when it is enabled and the cells left after the powered turrets
/// of lower index cover its cost.
pub fn allocate_weapon_power(budget: u32, slots: &Vec<WeaponPowerRequest>) -> (states: Vec<WeaponPowerState>)
    ensures
        states.len() == slots.len(),
        forall|j: int|
            0 <= j < slots.len() ==> (#[trigger] states[j]).powered == index_powered(
                slots@,
                budget as int,
                slots[j].index,
            ),
        forall|j: int|
            0 <= j < slots.len() ==> (#[trigger] states[j]).armed == (states[j].powered
                && slots[j].enabled),
        unique_indices(slots@) ==> forall|j: int|
            0 <= j < slots.len() ==> (#[trigger] states[j]).powered == (slots[j].enabled
                && slots[j].power_cost <= budget - powered_cost_below(
                slots@,
                budget as int,
                slots[j].index,
            )),
{
    let sorted = sort_by_index(slots);
    let granted = grant_in_order(&sorted, budget);
    proof {
        lemma_grants_len(sorted@, budget as int);
    }
    let mut states: Vec<WeaponPowerState> = Vec::new();
    let n = slots.len();
    let mut j: usize = 0;
    while j < n
        invariant
            n == slots.len(),
            j <= n,
            sorted@ == sorted_by_index(slots@),
            granted@ == grants(sorted@, budget as int),
            granted.len() == sorted.len(),
            states.len() == j,
            forall|q: int|
                0 <= q < j ==> (#[trigger] states[q]).powered == index_powered(
                    slots@,
                    budget as int,
                    slots[q].index,
                ),
            forall|q: int|
                0 <= q < j ==> (#[trigger] states[q]).armed == (states[q].powered
                    && slots[q].enabled),
        decreases n - j,
    {
        let k = find_index(&sorted, slots[j].index);
        let powered = k < granted.len() && granted[k];
        states.push(WeaponPowerState { powered, armed: powered && slots[j].enabled });
        j = j + 1;
    }
    proof {
        if unique_indices(slots@) {
            assert forall|j: int| 0 <= j < slots.len() implies (#[trigger] states[j]).powered == (
            slots[j].enabled && slots[j].power_cost <= budget - powered_cost_below(
                slots@,
                budget as int,
                slots[j].index,
            )) by {
                lemma_power_goes_in_index_order(slots@, budget, j);
            }
        }
    }
    states
}

// ---------------------------------------------------------------------------
// Lemmas
// ---------------------------------------------------------------------------

proof fn lemma_grants_len(s: Seq<WeaponPowerRequest>, remaining: int)
    ensures
        grants(s, remaining).len() == s.len(),
    decreases s.len(),
{
    if s.len() > 0 {
        if s[0].enabled && remaining >= s[0].power_cost {
            lemma_grants_len(s.drop_first(), remaining - s[0].power_cost);
        } else {
            lemma_grants_len(s.drop_first(), remaining);
        }
    }
}

proof fn lemma_insert_pos(s: Seq<WeaponPowerRequest>, i: int, idx: u32)
    requires
        0 <= i <= s.len(),
    ensures
        i <= insert_pos_from(s, i, idx) <= s.len(),
        forall|q: int| i <= q < insert_pos_from(s, i, idx) ==> s[q].index <= idx,
        insert_pos_from(s, i, idx) < s.len() ==> s[insert_pos_from(s, i, idx)].index > idx,
    decreases s.len() - i,
{
    if i < s.len() && s[i].index <= idx {
        lemma_insert_pos(s, i + 1, idx);
    }
}

/// The index order is a stable sort: the result is ordered by slot index
/// and holds exactly the turrets it was given.
pub proof fn lemma_sorted_by_index_sorts(s: Seq<WeaponPowerRequest>)
    ensures
        sorted_by_index(s).len() == s.len(),
        sorted_by_index(s).to_multiset() == s.to_multiset(),
        forall|a: int, b: int|
            0 <= a < b < s.len() ==> #[trigger] sorted_by_index(s)[a].index <= #[trigger] sorted_by_index(
                s,
            )[b].index,
    decreases s.len(),
{
    if s.len() > 0 {
        let rest = sorted_by_index(s.drop_last());
        let x = s.last();
        lemma_sorted_by_index_sorts(s.drop_last());
        let p = insert_pos_from(rest, 0, x.index);
        lemma_insert_pos(rest, 0, x.index);
        rest.insert_ensures(p, x);
        let r = rest.insert(p, x);
        assert(r == sorted_by_index(s));
        assert(s.drop_last().push(x) =~= s);
        assert forall|a: int, b: int| 0 <= a < b < r.len() implies r[a].index <= r[b].index by {
            if a < p {
                assert(r[a] == rest[a]);
            } else if a > p {
                assert(r[a] == rest[a - 1]);
            }
            if b < p {
                assert(r[b] == rest[b]);
            } else if b > p {
                assert(r[b] == rest[b - 1]);
                if a < p {
                    assert(rest[a].index <= rest[b - 1].index);
                }
                if p < rest.len() {
                    assert(rest[p].index <= rest[b - 1].index || p == b - 1);
                }
            }
        }
    }
}

proof fn lemma_sum_by_remove(b: Seq<WeaponPowerRequest>, f: spec_fn(WeaponPowerRequest) -> int, i: int)
    requires
        0 <= i < b.len(),
    ensures
        sum_by(b, f) == f(b[i]) + sum_by(b.remove(i), f),
    decreases i,
{
    if i == 0 {
        assert(b.remove(0) =~= b.drop_first());
    } else {
        assert(b.remove(i).drop_first() =~= b.drop_first().remove(i - 1));
        assert(b.remove(i)[0] == b[0]);
        lemma_sum_by_remove(b.drop_first(), f, i - 1);
    }
}

/// Sums over two lists that hold the same turrets agree.
proof fn lemma_sum_by_permutation(
    a: Seq<WeaponPowerRequest>,
    b: Seq<WeaponPowerRequest>,
    f: spec_fn(WeaponPowerRequest) -> int,
)
    requires
        a.to_multiset() == b.to_multiset(),
    ensures
        sum_by(a, f) == sum_by(b, f),
    decreases a.len(),
{
    if a.len() == 0 {
        assert(b.to_multiset().len() == 0);
        assert(b.len() == 0);
    } else {
        let x = a[0];
        assert(a.contains(x));
        assert(b.to_multiset().count(x) > 0);
        assert(b.contains(x));
        let i = choose|i: int| 0 <= i < b.len() && b[i] == x;
        lemma_sum_by_remove(b, f, i);
        assert(a.remove(0) =~= a.drop_first());
        assert(a.drop_first().to_multiset() == b.remove(i).to_multiset());
        lemma_sum_by_permutation(a.drop_first(), b.remove(i), f);
    }
}

proof fn lemma_sorted_unique(s: Seq<WeaponPowerRequest>)
    requires
        unique_indices(s),
    ensures
        unique_indices(sorted_by_index(s)),
    decreases s.len(),
{
    if s.len() > 0 {
        let d = s.drop_last();
        let rest = sorted_by_index(d);
        let x = s.last();
        assert(unique_indices(d));
        lemma_sorted_unique(d);
        lemma_sorted_by_index_sorts(d);
        assert forall|q: int| 0 <= q < rest.len() implies rest[q].index != x.index by {
            assert(rest.contains(rest[q]));
            assert(rest.to_multiset().count(rest[q]) > 0);
            assert(d.contains(rest[q]));
            let j = choose|j: int| 0 <= j < d.len() && d[j] == rest[q];
            assert(s[j] == d[j]);
            assert(s[s.len() - 1] == x);
        }
        let p = insert_pos_from(rest, 0, x.index);
        lemma_insert_pos(rest, 0, x.index);
        rest.insert_ensures(p, x);
        let r = rest.insert(p, x);
        assert forall|a: int, b: int|
            0 <= a < r.len() && 0 <= b < r.len() && a != b implies #[trigger] r[a].index
            != #[trigger] r[b].index by {
            if a < p {
                assert(r[a] == rest[a]);
            } else if a > p {
                assert(r[a] == rest[a - 1]);
            }
            if b < p {
                assert(r[b] == rest[b]);
            } else if b > p {
                assert(r[b] == rest[b - 1]);
            }
        }
    }
}

proof fn lemma_find_index(s: Seq<WeaponPowerRequest>, i: int, idx: u32)
    requires
        0 <= i <= s.len(),
    ensures
        i <= find_index_from(s, i, idx) <= s.len(),
        find_index_from(s, i, idx) < s.len() ==> s[find_index_from(s, i, idx)].index == idx,
        forall|q: int| i <= q < find_index_from(s, i, idx) ==> s[q].index != idx,
    decreases s.len() - i,
{
    if i < s.len() && s[i].index != idx {
        lemma_find_index(s, i + 1, idx);
    }
}

/// In a list without repeated slot indices, looking up a turret's index
/// finds that very turret.
proof fn lemma_find_unique(s: Seq<WeaponPowerRequest>, k: int)
    requires
        unique_indices(s),
        0 <= k < s.len(),
    ensures
        find_index_from(s, 0, s[k].index) == k,
{
    let r = find_index_from(s, 0, s[k].index);
    lemma_find_index(s, 0, s[k].index);
    if r != k {
        if r < k {
            assert(s[r].index == s[k].index);
        } else {
            assert(s[k].index != s[k].index);
        }
    }
}

proof fn lemma_grant_cost_within(s: Seq<WeaponPowerRequest>, remaining: int)
    requires
        remaining >= 0,
    ensures
        grant_cost(s, grants(s, remaining)) <= remaining,
    decreases s.len(),
{
    if s.len() > 0 {
        let g = grants(s, remaining);
        if s[0].enabled && remaining >= s[0].power_cost {
            let g2 = grants(s.drop_first(), remaining - s[0].power_cost);
            assert(g.drop_first() =~= g2);
            lemma_grant_cost_within(s.drop_first(), remaining - s[0].power_cost);
        } else {
            let g2 = grants(s.drop_first(), remaining);
            assert(g.drop_first() =~= g2);
            lemma_grant_cost_within(s.drop_first(), remaining);
        }
    }
}

proof fn lemma_sum_by_grant_cost(s: Seq<WeaponPowerRequest>, g: Seq<bool>, f: spec_fn(WeaponPowerRequest) -> int)
    requires
        g.len() == s.len(),
        forall|k: int|
            0 <= k < s.len() ==> f(#[trigger] s[k]) == if g[k] {
                s[k].power_cost as int
            } else {
                0
            },
    ensures
        sum_by(s, f) == grant_cost(s, g),
    decreases s.len(),
{
    if s.len() > 0 {
        assert(f(s[0]) == if g[0] { s[0].power_cost as int } else { 0 });
        let s2 = s.drop_first();
        let g2 = g.drop_first();
        assert forall|k: int| 0 <= k < s2.len() implies f(#[trigger] s2[k]) == if g2[k] {
            s2[k].power_cost as int
        } else {
            0
        } by {
            assert(s2[k] == s[k + 1]);
        }
        lemma_sum_by_grant_cost(s2, g2, f);
    }
}

proof fn lemma_grant_needs_enabled(s: Seq<WeaponPowerRequest>, remaining: int, k: int)
    requires
        0 <= k < s.len(),
    ensures
        grants(s, remaining).len() == s.len(),
        grants(s, remaining)[k] ==> s[k].enabled,
    decreases s.len(),
{
    lemma_grants_len(s, remaining);
    let rem2 = if s[0].enabled && remaining >= s[0].power_cost {
        remaining - s[0].power_cost
    } else {
        remaining
    };
    if k > 0 {
        lemma_grant_needs_enabled(s.drop_first(), rem2, k - 1);
        assert(grants(s, remaining)[k] == grants(s.drop_first(), rem2)[k - 1]);
    }
}

proof fn lemma_enabled_cost_nonneg(s: Seq<WeaponPowerRequest>)
    ensures
        sum_by(s, enabled_cost_fn()) >= 0,
    decreases s.len(),
{
    if s.len() > 0 {
        lemma_enabled_cost_nonneg(s.drop_first());
    }
}

proof fn lemma_all_enabled_granted(s: Seq<WeaponPowerRequest>, remaining: int, k: int)
    requires
        sum_by(s, enabled_cost_fn()) <= remaining,
        0 <= k < s.len(),
    ensures
        grants(s, remaining).len() == s.len(),
        grants(s, remaining)[k] == s[k].enabled,
    decreases s.len(),
{
    lemma_grants_len(s, remaining);
    lemma_enabled_cost_nonneg(s.drop_first());
    let rem2 = if s[0].enabled && remaining >= s[0].power_cost {
        remaining - s[0].power_cost
    } else {
        remaining
    };
    if k > 0 {
        lemma_all_enabled_granted(s.drop_first(), rem2, k - 1);
        assert(grants(s, remaining)[k] == grants(s.drop_first(), rem2)[k - 1]);
    }
}

proof fn lemma_grants_prefix(s: Seq<WeaponPowerRequest>, remaining: int, k: int)
    requires
        0 <= k < s.len(),
    ensures
        grants(s, remaining).len() == s.len(),
        grants(s, remaining)[k] == (s[k].enabled && remaining - grant_cost(
            s.take(k),
            grants(s, remaining).take(k),
        ) >= s[k].power_cost),
    decreases s.len(),
{
    lemma_grants_len(s, remaining);
    let g = grants(s, remaining);
    if k == 0 {
        assert(s.take(0).len() == 0);
    } else {
        let rem2 = if s[0].enabled && remaining >= s[0].power_cost {
            remaining - s[0].power_cost
        } else {
            remaining
        };
        let s2 = s.drop_first();
        let g2 = grants(s2, rem2);
        lemma_grants_prefix(s2, rem2, k - 1);
        assert(g.drop_first() =~= g2);
        assert(g[k] == g2[k - 1]);
        assert(s.take(k).drop_first() =~= s2.take(k - 1));
        assert(g.take(k).drop_first() =~= g2.take(k - 1));
        assert(s.take(k)[0] == s[0]);
        assert(g.take(k)[0] == g[0]);
        assert(grant_cost(s.take(k), g.take(k)) == (if g[0] {
            s[0].power_cost as int
        } else {
            0
        }) + grant_cost(s2.take(k - 1), g2.take(k - 1)));
    }
}

proof fn lemma_sum_by_prefix_cost(
    s: Seq<WeaponPowerRequest>,
    g: Seq<bool>,
    f: spec_fn(WeaponPowerRequest) -> int,
    k: int,
)
    requires
        g.len() == s.len(),
        0 <= k <= s.len(),
        forall|q: int|
            0 <= q < s.len() ==> f(#[trigger] s[q]) == if q < k && g[q] {
                s[q].power_cost as int
            } else {
                0
            },
    ensures
        sum_by(s, f) == grant_cost(s.take(k), g.take(k)),
    decreases s.len(),
{
    if s.len() == 0 {
        assert(s.take(k).len() == 0);
    } else {
        assert(f(s[0]) == if 0 < k && g[0] { s[0].power_cost as int } else { 0 });
        let s2 = s.drop_first();
        let g2 = g.drop_first();
        let k2 = if k > 0 { k - 1 } else { 0 };
        assert forall|q: int| 0 <= q < s2.len() implies f(#[trigger] s2[q]) == if q < k2 && g2[q] {
            s2[q].power_cost as int
        } else {
            0
        } by {
            assert(s2[q] == s[q + 1]);
        }
        lemma_sum_by_prefix_cost(s2, g2, f, k2);
        if k == 0 {
            assert(s2.take(0).len() == 0);
            assert(s.take(0).len() == 0);
        } else {
            assert(s.take(k).drop_first() =~= s2.take(k2));
            assert(g.take(k).drop_first() =~= g2.take(k2));
            assert(s.take(k)[0] == s[0]);
            assert(g.take(k)[0] == g[0]);
        }
    }
}

/// Turrets are served in slot-index order: with distinct slot indices, a
/// turret is powered exactly when it is enabled and the cells left after
/// the powered turrets of lower index cover its cost.
pub proof fn lemma_power_goes_in_index_order(slots: Seq<WeaponPowerRequest>, budget: u32, j: int)
    requires
        unique_indices(slots),
        0 <= j < slots.len(),
    ensures
        index_powered(slots, budget as int, slots[j].index) == (slots[j].enabled && slots[j].power_cost
            <= budget - powered_cost_below(slots, budget as int, slots[j].index)),
{
    let sorted = sorted_by_index(slots);
    let g = grants(sorted, budget as int);
    let idx = slots[j].index;
    let f = powered_cost_below_fn(slots, budget as int, idx);
    lemma_sorted_by_index_sorts(slots);
    lemma_sorted_unique(slots);
    lemma_grants_len(sorted, budget as int);
    assert(slots.contains(slots[j]));
    assert(sorted.to_multiset().count(slots[j]) > 0);
    assert(sorted.contains(slots[j]));
    let k = choose|k: int| 0 <= k < sorted.len() && sorted[k] == slots[j];
    lemma_find_unique(sorted, k);
    lemma_sum_by_permutation(slots, sorted, f);
    assert forall|q: int| 0 <= q < sorted.len() implies f(#[trigger] sorted[q]) == if q < k && g[q] {
        sorted[q].power_cost as int
    } else {
        0
    } by {
        lemma_find_unique(sorted, q);
        if q < k {
            assert(sorted[q].index <= sorted[k].index);
            assert(sorted[q].index != sorted[k].index);
        } else if q > k {
            assert(sorted[k].index <= sorted[q].index);
        }
    }
    lemma_sum_by_prefix_cost(sorted, g, f, k);
    lemma_grants_prefix(sorted, budget as int, k);
}

/// With distinct slot indices, the powered turrets never draw more cells
/// than the weapons system was given.
pub proof fn lemma_powered_within_budget(slots: Seq<WeaponPowerRequest>, budget: u32)
    requires
        unique_indices(slots),
    ensures
        powered_cost(slots, budget as int) <= budget,
{
    let sorted = sorted_by_index(slots);
    let g = grants(sorted, budget as int);
    let f = powered_cost_fn(slots, budget as int);
    lemma_sorted_by_index_sorts(slots);
    lemma_sorted_unique(slots);
    lemma_grants_len(sorted, budget as int);
    lemma_sum_by_permutation(slots, sorted, f);
    assert forall|k: int| 0 <= k < sorted.len() implies f(#[trigger] sorted[k]) == if g[k] {
        sorted[k].power_cost as int
    } else {
        0
    } by {
        lemma_find_unique(sorted, k);
    }
    lemma_sum_by_grant_cost(sorted, g, f);
    lemma_grant_cost_within(sorted, budget as int);
}

/// With distinct slot indices, a user-disabled turret is never powered:
/// its cells stay available to the turrets after it.
pub proof fn lemma_disabled_unpowered(slots: Seq<WeaponPowerRequest>, budget: u32, j: int)
    requires
        unique_indices(slots),
        0 <= j < slots.len(),
        !slots[j].enabled,
    ensures
        !index_powered(slots, budget as int, slots[j].index),
{
    let sorted = sorted_by_index(slots);
    lemma_sorted_by_index_sorts(slots);
    lemma_sorted_unique(slots);
    assert(slots.contains(slots[j]));
    assert(sorted.to_multiset().count(slots[j]) > 0);
    assert(sorted.contains(slots[j]));
    let k = choose|k: int| 0 <= k < sorted.len() && sorted[k] == slots[j];
    lemma_find_unique(sorted, k);
    lemma_grant_needs_enabled(sorted, budget as int, k);
}

/// With distinct slot indices, when the budget covers every enabled turret,
/// every enabled turret is powered.
pub proof fn lemma_enough_budget_powers_all_enabled(slots: Seq<WeaponPowerRequest>, budget: u32, j: int)
    requires
        unique_indices(slots),
        enabled_cost(slots) <= budget,
        0 <= j < slots.len(),
        slots[j].enabled,
    ensures
        index_powered(slots, budget as int, slots[j].index),
{
    let sorted = sorted_by_index(slots);
    lemma_sorted_by_index_sorts(slots);
    lemma_sorted_unique(slots);
    lemma_sum_by_permutation(slots, sorted, enabled_cost_fn());
    assert(slots.contains(slots[j]));
    assert(sorted.to_multiset().count(slots[j]) > 0);
    assert(sorted.contains(slots[j]));
    let k = choose|k: int| 0 <= k < sorted.len() && sorted[k] == slots[j];
    lemma_find_unique(sorted, k);
    lemma_all_enabled_granted(sorted, budget as int, k);
}

} // verus!
