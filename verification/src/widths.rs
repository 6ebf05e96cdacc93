//! Column widths: each column gets its share of the rectangle's width by
//! weight, columns that would fall below their minimum are pinned at it, and
//! trailing columns that no longer fit are dropped.

use vstd::prelude::*;

verus! {

/// The weights of the columns among the first `n` that are not pinned, added up.
pub open spec fn free_weight(weights: Seq<u32>, pinned: Seq<bool>, n: int) -> nat
    decreases n,
{
    if n <= 0 {
        0
    } else {
        free_weight(weights, pinned, n - 1) + if pinned[n - 1] {
            0
        } else {
            weights[n - 1] as nat
        }
    }
}

/// The minima of the columns among the first `n` that are pinned, added up.
pub open spec fn pinned_width(mins: Seq<usize>, pinned: Seq<bool>, n: int) -> nat
    decreases n,
{
    if n <= 0 {
        0
    } else {
        pinned_width(mins, pinned, n - 1) + if pinned[n - 1] {
            mins[n - 1] as nat
        } else {
            0
        }
    }
}

/// What is left of `total` for the columns that are not pinned.
pub open spec fn budget(total: int, mins: Seq<usize>, pinned: Seq<bool>) -> nat {
    let used = pinned_width(mins, pinned, mins.len() as int);
    if total > used {
        (total - used) as nat
    } else {
        0
    }
}

/// `budget * weight / free`, rounded to the nearest integer, half up.
pub open spec fn share(budget: nat, weight: nat, free: nat) -> nat {
    if free == 0 {
        0
    } else {
        (2 * budget * weight + free) / (2 * free)
    }
}

/// The width that column `i` gets by its weight among the columns not pinned.
pub open spec fn target(
    total: int,
    weights: Seq<u32>,
    mins: Seq<usize>,
    pinned: Seq<bool>,
    i: int,
) -> nat {
    share(
        budget(total, mins, pinned),
        weights[i] as nat,
        free_weight(weights, pinned, weights.len() as int),
    )
}

/// One round: every column whose target lies below its minimum is pinned.
pub open spec fn pin_round(
    total: int,
    weights: Seq<u32>,
    mins: Seq<usize>,
    pinned: Seq<bool>,
) -> Seq<bool> {
    Seq::new(
        weights.len(),
        |i: int| pinned[i] || target(total, weights, mins, pinned, i) < mins[i],
    )
}

/// The pinned columns after `rounds` rounds, starting with none.
pub open spec fn pin_rounds(
    total: int,
    weights: Seq<u32>,
    mins: Seq<usize>,
    rounds: nat,
) -> Seq<bool>
    decreases rounds,
{
    if rounds == 0 {
        Seq::new(weights.len(), |i: int| false)
    } else {
        pin_round(total, weights, mins, pin_rounds(total, weights, mins, (rounds - 1) as nat))
    }
}

/// The pinned columns at the fixed point: one round for each column is enough.
pub open spec fn settled(total: int, weights: Seq<u32>, mins: Seq<usize>) -> Seq<bool> {
    pin_rounds(total, weights, mins, weights.len())
}

/// The width assigned to column `i`: its minimum where it is pinned, its
/// target otherwise.
pub open spec fn assigned_width(total: int, weights: Seq<u32>, mins: Seq<usize>, i: int) -> nat {
    let pinned = settled(total, weights, mins);
    if pinned[i] {
        mins[i] as nat
    } else {
        target(total, weights, mins, pinned, i)
    }
}

/// The widths assigned to all columns.
pub open spec fn assigned_widths(total: int, weights: Seq<u32>, mins: Seq<usize>) -> Seq<nat> {
    Seq::new(weights.len(), |i: int| assigned_width(total, weights, mins, i))
}

/// The first `k` widths, added up.
pub open spec fn width_sum(widths: Seq<nat>, k: int) -> nat
    decreases k,
{
    if k <= 0 {
        0
    } else {
        width_sum(widths, k - 1) + widths[k - 1]
    }
}

/// Whether the first `k` columns fit in full: none is empty and together
/// they are no wider than `total`.
pub open spec fn fits(widths: Seq<nat>, total: int, k: int) -> bool {
    &&& 0 <= k <= widths.len()
    &&& width_sum(widths, k) <= total
    &&& forall|j: int| 0 <= j < k ==> widths[j] >= 1
}

/// The largest number of leading columns, up to `n`, that fit in full.
pub open spec fn kept_columns(widths: Seq<nat>, total: int, n: int) -> int
    decreases n,
{
    if n <= 0 {
        0
    } else if fits(widths, total, n) {
        n
    } else {
        kept_columns(widths, total, n - 1)
    }
}

/// The widths of the columns that are kept, left to right.
pub open spec fn kept_widths(total: int, weights: Seq<u32>, mins: Seq<usize>) -> Seq<nat> {
    let assigned = assigned_widths(total, weights, mins);
    assigned.take(kept_columns(assigned, total, weights.len() as int))
}

/// The widths of an allocation as natural numbers.
pub open spec fn as_nats(widths: Seq<u16>) -> Seq<nat> {
    widths.map_values(|w: u16| w as nat)
}

/// The outcome of an allocation.
#[derive(Debug)]
pub struct Allocation {
    /// One width for each column; zero for the columns that were dropped.
    pub widths: Vec<u16>,
    /// The number of leading columns that survived.
    pub kept: usize,
}

/// The number of pinned columns among the first `n`.
pub open spec fn pinned_count(pinned: Seq<bool>, n: int) -> nat
    decreases n,
{
    if n <= 0 {
        0
    } else {
        pinned_count(pinned, n - 1) + if pinned[n - 1] {
            1nat
        } else {
            0nat
        }
    }
}

proof fn lemma_count_bounds(pinned: Seq<bool>, n: int)
    requires
        0 <= n <= pinned.len(),
    ensures
        pinned_count(pinned, n) <= n,
        pinned_count(pinned, n) == n ==> forall|i: int| 0 <= i < n ==> pinned[i],
    decreases n,
{
    if n > 0 {
        lemma_count_bounds(pinned, n - 1);
    }
}

proof fn lemma_count_grows(p: Seq<bool>, q: Seq<bool>, n: int, at: int)
    requires
        0 <= n <= p.len(),
        p.len() == q.len(),
        forall|i: int| 0 <= i < p.len() && p[i] ==> q[i],
    ensures
        pinned_count(p, n) <= pinned_count(q, n),
        0 <= at < n && !p[at] && q[at] ==> pinned_count(p, n) < pinned_count(q, n),
    decreases n,
{
    if n > 0 {
        lemma_count_grows(p, q, n - 1, at);
    }
}

proof fn lemma_rounds_len(total: int, weights: Seq<u32>, mins: Seq<usize>, rounds: nat)
    ensures
        pin_rounds(total, weights, mins, rounds).len() == weights.len(),
    decreases rounds,
{
    if rounds > 0 {
        lemma_rounds_len(total, weights, mins, (rounds - 1) as nat);
    }
}

proof fn lemma_rounds_progress(total: int, weights: Seq<u32>, mins: Seq<usize>, rounds: nat)
    ensures
        ({
            let p = pin_rounds(total, weights, mins, rounds);
            pin_round(total, weights, mins, p) == p || pinned_count(p, weights.len() as int)
                >= rounds
        }),
    decreases rounds,
{
    let n = weights.len() as int;
    let p = pin_rounds(total, weights, mins, rounds);
    lemma_rounds_len(total, weights, mins, rounds);
    if rounds > 0 {
        let before = pin_rounds(total, weights, mins, (rounds - 1) as nat);
        lemma_rounds_len(total, weights, mins, (rounds - 1) as nat);
        lemma_rounds_progress(total, weights, mins, (rounds - 1) as nat);
        if forall|i: int| 0 <= i < n ==> p[i] == before[i] {
            assert(p =~= before);
        } else {
            let at = choose|i: int| 0 <= i < n && p[i] != before[i];
            lemma_count_grows(before, p, n, at);
        }
    }
}

/// The settled columns are a fixed point: another round pins nothing more.
pub proof fn lemma_settled_is_fixed_point(total: int, weights: Seq<u32>, mins: Seq<usize>)
    ensures
        pin_round(total, weights, mins, settled(total, weights, mins)) == settled(
            total,
            weights,
            mins,
        ),
{
    let n = weights.len() as int;
    let p = settled(total, weights, mins);
    lemma_rounds_len(total, weights, mins, weights.len());
    lemma_rounds_progress(total, weights, mins, weights.len());
    if pin_round(total, weights, mins, p) != p {
        lemma_count_bounds(p, n);
        assert(pin_round(total, weights, mins, p) =~= p);
    }
}

/// At the fixed point no column is narrower than its minimum.
pub proof fn lemma_assigned_at_least_min(
    total: int,
    weights: Seq<u32>,
    mins: Seq<usize>,
    i: int,
)
    requires
        0 <= i < weights.len(),
    ensures
        assigned_width(total, weights, mins, i) >= mins[i],
{
    let p = settled(total, weights, mins);
    lemma_settled_is_fixed_point(total, weights, mins);
    assert(pin_round(total, weights, mins, p)[i] == p[i]);
}

/// Sums of widths only grow with the number of columns.
pub proof fn lemma_width_sum_grows(widths: Seq<nat>, j: int, k: int)
    requires
        j <= k,
    ensures
        width_sum(widths, j) <= width_sum(widths, k),
    decreases k - j,
{
    if j < k {
        lemma_width_sum_grows(widths, j, k - 1);
    }
}

/// The number of kept columns is the one count that fits while the next
/// larger does not.
pub proof fn lemma_kept_is_largest(widths: Seq<nat>, total: int, n: int, k: int)
    requires
        0 <= k <= n <= widths.len(),
        fits(widths, total, k),
        k == n || !fits(widths, total, k + 1),
    ensures
        kept_columns(widths, total, n) == k,
    decreases n,
{
    if n > k {
        if fits(widths, total, n) {
            lemma_width_sum_grows(widths, k + 1, n);
            assert(fits(widths, total, k + 1));
        }
        lemma_kept_is_largest(widths, total, n - 1, k);
    }
}

/// Adds up the minima of the pinned columns and the weights of the others.
fn round_sums(weights: &Vec<u32>, mins: &Vec<usize>, pinned: &Vec<bool>) -> (sums: (u128, u128))
    requires
        weights.len() == mins.len(),
        weights.len() == pinned.len(),
    ensures
        sums.0 == pinned_width(mins@, pinned@, mins.len() as int),
        sums.1 == free_weight(weights@, pinned@, weights.len() as int),
        sums.1 <= 0xffff_ffff_ffff_ffff * 0xffff_ffff,
{
    let mut used: u128 = 0;
    let mut free: u128 = 0;
    let mut i: usize = 0;
    while i < weights.len()
        invariant
            i <= weights.len(),
            weights.len() == mins.len(),
            weights.len() == pinned.len(),
            used == pinned_width(mins@, pinned@, i as int),
            free == free_weight(weights@, pinned@, i as int),
            used <= i * 0xffff_ffff_ffff_ffff,
            free <= i * 0xffff_ffff,
        decreases weights.len() - i,
    {
        if pinned[i] {
            used = used + mins[i] as u128;
        } else {
            free = free + weights[i] as u128;
        }
        i = i + 1;
    }
    (used, free)
}

/// Computes a column's share of the budget, rounded half up.
fn share_of(budget: u16, weight: u32, free: u128) -> (width: u128)
    requires
        free <= 0xffff_ffff_ffff_ffff * 0xffff_ffff,
    ensures
        width == share(budget as nat, weight as nat, free as nat),
{
    if free == 0 {
        0
    } else {
        assert(budget * weight <= 0xffff * 0xffff_ffff) by (nonlinear_arith)
            requires
                budget <= 0xffff,
                weight <= 0xffff_ffff,
        ;
        let product: u128 = budget as u128 * weight as u128;
        assert(2 * budget as nat * weight as nat == 2 * product) by (nonlinear_arith)
            requires
                product == budget * weight,
        ;
        (2 * product + free) / (2 * free)
    }
}

/// What is left of `total` once `used` columns are taken.
fn budget_of(total: u16, used: u128) -> (left: u16)
    ensures
        left as int == if total > used {
            total - used
        } else {
            0
        },
{
    if total as u128 > used {
        (total as u128 - used) as u16
    } else {
        0
    }
}

/// Runs one round of pinning.
fn pin_step(
    total: u16,
    weights: &Vec<u32>,
    mins: &Vec<usize>,
    pinned: &Vec<bool>,
) -> (next: Vec<bool>)
    requires
        weights.len() == mins.len(),
        weights.len() == pinned.len(),
    ensures
        next@ == pin_round(total as int, weights@, mins@, pinned@),
{
    let (used, free) = round_sums(weights, mins, pinned);
    let left = budget_of(total, used);
    let mut next: Vec<bool> = Vec::new();
    let mut i: usize = 0;
    while i < weights.len()
        invariant
            i <= weights.len(),
            weights.len() == mins.len(),
            weights.len() == pinned.len(),
            free == free_weight(weights@, pinned@, weights.len() as int),
            free <= 0xffff_ffff_ffff_ffff * 0xffff_ffff,
            left == budget(total as int, mins@, pinned@),
            next.len() == i,
            forall|j: int|
                0 <= j < i ==> next[j] == (pinned[j] || target(
                    total as int,
                    weights@,
                    mins@,
                    pinned@,
                    j,
                ) < mins[j]),
        decreases weights.len() - i,
    {
        let width = share_of(left, weights[i], free);
        next.push(pinned[i] || width < mins[i] as u128);
        i = i + 1;
    }
    assert(next@ =~= pin_round(total as int, weights@, mins@, pinned@));
    next
}

/// Runs the rounds of pinning to the fixed point.
fn settle(total: u16, weights: &Vec<u32>, mins: &Vec<usize>) -> (pinned: Vec<bool>)
    requires
        weights.len() == mins.len(),
    ensures
        pinned@ == settled(total as int, weights@, mins@),
{
    let mut pinned: Vec<bool> = Vec::new();
    let mut i: usize = 0;
    while i < weights.len()
        invariant
            i <= weights.len(),
            pinned.len() == i,
            forall|j: int| 0 <= j < i ==> !pinned[j],
        decreases weights.len() - i,
    {
        pinned.push(false);
        i = i + 1;
    }
    assert(pinned@ =~= pin_rounds(total as int, weights@, mins@, 0));
    let mut round: usize = 0;
    while round < weights.len()
        invariant
            round <= weights.len(),
            weights.len() == mins.len(),
            weights.len() == pinned.len(),
            pinned@ == pin_rounds(total as int, weights@, mins@, round as nat),
        decreases weights.len() - round,
    {
        pinned = pin_step(total, weights, mins, &pinned);
        round = round + 1;
    }
    pinned
}

/// Allocates the width `total` to columns with the given weights and minima.
///
/// Each column's target is its share of the width by weight, rounded half up.
/// A column whose target lies below its minimum is pinned at the minimum; the
/// others then share what is left, until nothing changes. Of the widths so
/// assigned the longest run of leading columns that fits in `total`, none of
/// them empty, is kept; the columns behind it get the width zero.
pub fn allocate(total: u16, weights: &Vec<u32>, mins: &Vec<usize>) -> (out: Allocation)
    requires
        weights.len() == mins.len(),
    ensures
        out.widths.len() == weights.len(),
        out.kept == kept_columns(
            assigned_widths(total as int, weights@, mins@),
            total as int,
            weights.len() as int,
        ),
        forall|i: int|
            0 <= i < out.kept ==> out.widths[i] as nat == assigned_width(
                total as int,
                weights@,
                mins@,
                i,
            ),
        forall|i: int| out.kept <= i < out.widths.len() ==> out.widths[i] == 0,
        out.kept <= weights.len(),
        width_sum(as_nats(out.widths@), out.widths.len() as int) <= total,
        forall|i: int| 0 <= i < out.kept ==> out.widths[i] >= 1 && out.widths[i] >= mins[i],
        total == 0 ==> out.kept == 0,
{
    let n = weights.len();
    let pinned = settle(total, weights, mins);
    let (used, free) = round_sums(weights, mins, &pinned);
    let left = budget_of(total, used);
    let ghost assigned = assigned_widths(total as int, weights@, mins@);

    let mut widths: Vec<u16> = Vec::new();
    let mut sum: u16 = 0;
    let mut kept: usize = 0;
    let mut open = true;
    let mut i: usize = 0;
    assert(as_nats(widths@) =~= Seq::<nat>::empty());
    while i < n
        invariant
            i <= n,
            n == weights.len(),
            n == mins.len(),
            n == pinned.len(),
            pinned@ == settled(total as int, weights@, mins@),
            free == free_weight(weights@, pinned@, n as int),
            free <= 0xffff_ffff_ffff_ffff * 0xffff_ffff,
            left == budget(total as int, mins@, pinned@),
            assigned == assigned_widths(total as int, weights@, mins@),
            widths.len() == i,
            kept <= i,
            open ==> kept == i,
            fits(assigned, total as int, kept as int),
            !open ==> !fits(assigned, total as int, kept + 1),
            sum == width_sum(assigned, kept as int),
            sum == width_sum(as_nats(widths@), i as int),
            forall|j: int| 0 <= j < kept ==> widths[j] as nat == assigned[j],
            forall|j: int| kept <= j < i ==> widths[j] == 0,
        decreases n - i,
    {
        let width: u128 = if pinned[i] {
            mins[i] as u128
        } else {
            share_of(left, weights[i], free)
        };
        assert(width == assigned[i as int]);
        let ghost before = widths@;
        if open && width >= 1 && width <= (total - sum) as u128 {
            widths.push(width as u16);
            sum = sum + width as u16;
            kept = kept + 1;
        } else {
            open = false;
            widths.push(0);
        }
        i = i + 1;
        proof {
            assert(as_nats(widths@) =~= as_nats(before).push(widths[i - 1] as nat));
            lemma_sum_of_prefix(as_nats(before), as_nats(widths@), i - 1);
        }
    }
    proof {
        lemma_kept_is_largest(assigned, total as int, n as int, kept as int);
        assert forall|j: int| 0 <= j < kept implies widths[j] as nat == assigned_width(
            total as int,
            weights@,
            mins@,
            j,
        ) && widths[j] >= 1 && widths[j] >= mins[j] by {
            assert(assigned[j] == assigned_width(total as int, weights@, mins@, j));
            lemma_assigned_at_least_min(total as int, weights@, mins@, j);
        }
        if kept >= 1 {
            lemma_width_sum_grows(assigned, 1, kept as int);
        }
    }
    Allocation { widths, kept }
}

/// Allocates as `allocate` does and hands back the widths of the kept
/// columns alone.
pub fn column_widths(total: u16, weights: &Vec<u32>, mins: &Vec<usize>) -> (widths: Vec<u16>)
    requires
        weights.len() == mins.len(),
    ensures
        as_nats(widths@) == kept_widths(total as int, weights@, mins@),
        width_sum(as_nats(widths@), widths.len() as int) <= total,
        forall|i: int| 0 <= i < widths.len() ==> widths[i] >= 1 && widths[i] >= mins[i],
        widths.len() <= weights.len(),
{
    let out = allocate(total, weights, mins);
    let mut widths: Vec<u16> = Vec::new();
    let mut i: usize = 0;
    while i < out.kept
        invariant
            i <= out.kept <= out.widths.len(),
            widths.len() == i,
            forall|j: int| 0 <= j < i ==> widths[j] == out.widths[j],
        decreases out.kept - i,
    {
        widths.push(out.widths[i]);
        i = i + 1;
    }
    proof {
        assert(as_nats(widths@) =~= kept_widths(total as int, weights@, mins@));
        lemma_sum_of_prefix(as_nats(widths@), as_nats(out.widths@), widths.len() as int);
        lemma_width_sum_grows(as_nats(out.widths@), widths.len() as int, out.widths.len() as int);
    }
    widths
}

/// A sum over a prefix does not see what follows it.
proof fn lemma_sum_of_prefix(short: Seq<nat>, long: Seq<nat>, k: int)
    requires
        0 <= k <= short.len() <= long.len(),
        forall|j: int| 0 <= j < short.len() ==> short[j] == long[j],
    ensures
        width_sum(short, k) == width_sum(long, k),
    decreases k,
{
    if k > 0 {
        lemma_sum_of_prefix(short, long, k - 1);
    }
}

} // verus!
