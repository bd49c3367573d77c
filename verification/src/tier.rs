use vstd::prelude::*;

verus! {

use crate::errors::DeedError;

/// The most tiers a schedule may hold.
pub const MAX_TIERS: usize = 3;

/// One segment of the supply: `amount` units offered at `price` currency each.
#[derive(Clone, Copy, PartialEq, Eq, Structural, Debug)]
pub struct Tier {
    pub amount: u64,
    pub price: u64,
}

/// Walks the tier schedule from the front. The first `sold` units of the
/// schedule are treated as already gone; the walk then seats `remaining`
/// units tier by tier, cheapest (earliest) first. Returns the exact cost of
/// the units it could seat and the count it could not.
pub open spec fn tier_walk(tiers: Seq<Tier>, sold: int, remaining: int) -> (int, int)
    decreases tiers.len(),
{
    if tiers.len() == 0 {
        (0, remaining)
    } else {
        let t = tiers[0];
        if sold >= t.amount {
            tier_walk(tiers.drop_first(), sold - t.amount, remaining)
        } else {
            let available = t.amount - sold;
            let take = if remaining <= available { remaining } else { available };
            let rest = tier_walk(tiers.drop_first(), 0, remaining - take);
            (take * t.price + rest.0, rest.1)
        }
    }
}

/// The exact cost of buying `amount` units when `sold` units are already sold.
pub open spec fn cost_of(tiers: Seq<Tier>, sold: int, amount: int) -> int {
    tier_walk(tiers, sold, amount).0
}

/// The units of the purchase that the schedule cannot seat; zero when it fits.
pub open spec fn unseated(tiers: Seq<Tier>, sold: int, amount: int) -> int {
    tier_walk(tiers, sold, amount).1
}

/// Pricing zero units costs nothing and leaves nothing unseated.
pub proof fn lemma_walk_zero(tiers: Seq<Tier>, sold: int)
    requires
        0 <= sold,
    ensures
        tier_walk(tiers, sold, 0) == (0int, 0int),
    decreases tiers.len(),
{
    if tiers.len() > 0 {
        let t = tiers[0];
        if sold >= t.amount {
            lemma_walk_zero(tiers.drop_first(), sold - t.amount);
        } else {
            lemma_walk_zero(tiers.drop_first(), 0);
            assert(0 * t.price == 0) by (nonlinear_arith);
            assert(tier_walk(tiers, sold, 0) == (0int, 0int));
        }
    }
}

/// The walk never prices a negative quantity: its cost is non-negative and
/// the unseated count stays between zero and the requested amount.
pub proof fn lemma_walk_bounds(tiers: Seq<Tier>, sold: int, remaining: int)
    requires
        0 <= sold,
        0 <= remaining,
    ensures
        0 <= tier_walk(tiers, sold, remaining).0,
        0 <= tier_walk(tiers, sold, remaining).1 <= remaining,
    decreases tiers.len(),
{
    if tiers.len() > 0 {
        let t = tiers[0];
        if sold >= t.amount {
            lemma_walk_bounds(tiers.drop_first(), sold - t.amount, remaining);
        } else {
            let available = t.amount - sold;
            let take = if remaining <= available { remaining } else { available };
            lemma_walk_bounds(tiers.drop_first(), 0, remaining - take);
            assert(take * t.price >= 0) by (nonlinear_arith)
                requires take >= 0, t.price >= 0;
        }
    }
}

/// The pricer is pure: its outcome is a function of the schedule, the prior
/// sales and the amount alone, so two walks over equal inputs agree, and a
/// walk reads its schedule without touching it.
pub proof fn lemma_pricer_deterministic(
    tiers_a: Seq<Tier>,
    tiers_b: Seq<Tier>,
    sold: int,
    amount: int,
)
    requires
        tiers_a == tiers_b,
    ensures
        tier_walk(tiers_a, sold, amount) == tier_walk(tiers_b, sold, amount),
{
}

/// Path independence of the tier walk: a purchase that the schedule seats in
/// full may equally be made as two consecutive purchases of any sizes, and
/// the two costs sum exactly to the cost of the single purchase.
pub proof fn lemma_cost_path_independent(tiers: Seq<Tier>, sold: int, split: int, amount: int)
    requires
        0 <= sold,
        0 <= split <= amount,
        unseated(tiers, sold, amount) == 0,
    ensures
        unseated(tiers, sold, split) == 0,
        unseated(tiers, sold + split, amount - split) == 0,
        cost_of(tiers, sold, split) + cost_of(tiers, sold + split, amount - split) == cost_of(
            tiers,
            sold,
            amount,
        ),
    decreases tiers.len(),
{
    if tiers.len() == 0 {
        // The whole purchase fits in an empty schedule only when it is empty,
        // so both halves are empty too.
    } else {
        let t = tiers[0];
        let rest = tiers.drop_first();
        let p = t.price as int;
        if sold >= t.amount {
            lemma_cost_path_independent(rest, sold - t.amount, split, amount);
        } else {
            let available = t.amount - sold;
            if amount <= available {
                // The whole purchase sits inside the first tier.
                lemma_walk_zero(rest, 0);
                if split == available {
                    lemma_walk_zero(rest, 0);
                } else {
                    assert(split * p + (amount - split) * p == amount * p) by (nonlinear_arith);
                }
            } else if split <= available {
                // The split point falls inside the first tier.
                lemma_walk_zero(rest, 0);
                if split < available {
                    assert(split * p + (available - split) * p == available * p)
                        by (nonlinear_arith);
                }
            } else {
                // The first tier is consumed whole before the split point.
                lemma_cost_path_independent(rest, 0, split - available, amount - available);
            }
        }
    }
}

/// Prices a purchase of `amount` units against the schedule, `total_sold`
/// units having been sold before. Consumes cheaper (earlier) tiers first.
/// Every multiplication and addition is checked: a cost that leaves `u64`
/// fails with `MathOverflow`, and a purchase the schedule cannot seat fails
/// with `MaxSupplyExceeded`. The schedule itself is never touched.
pub fn calculate_total_cost(tiers: &Vec<Tier>, total_sold: u64, amount: u64) -> (r: Result<
    u64,
    DeedError,
>)
    ensures
        match r {
            Ok(v) => unseated(tiers@, total_sold as int, amount as int) == 0 && v == cost_of(
                tiers@,
                total_sold as int,
                amount as int,
            ),
            Err(DeedError::MathOverflow) => cost_of(tiers@, total_sold as int, amount as int)
                > u64::MAX,
            Err(DeedError::MaxSupplyExceeded) => unseated(tiers@, total_sold as int, amount as int)
                > 0 && cost_of(tiers@, total_sold as int, amount as int) <= u64::MAX,
            Err(_) => false,
        },
{
    let mut remaining = amount;
    let mut total: u64 = 0;
    let mut sold = total_sold;
    let mut i: usize = 0;
    proof {
        assert(tiers@.skip(0) =~= tiers@);
    }
    while i < tiers.len() && remaining > 0
        invariant
            i <= tiers@.len(),
            cost_of(tiers@, total_sold as int, amount as int) == total + tier_walk(
                tiers@.skip(i as int),
                sold as int,
                remaining as int,
            ).0,
            unseated(tiers@, total_sold as int, amount as int) == tier_walk(
                tiers@.skip(i as int),
                sold as int,
                remaining as int,
            ).1,
        decreases tiers@.len() - i,
    {
        let t = tiers[i];
        proof {
            assert(tiers@.skip(i as int)[0] == tiers@[i as int]);
            assert(tiers@.skip(i as int).drop_first() =~= tiers@.skip(i as int + 1));
        }
        if sold >= t.amount {
            sold = sold - t.amount;
        } else {
            let available = t.amount - sold;
            let take = if remaining <= available {
                remaining
            } else {
                available
            };
            proof {
                lemma_walk_bounds(tiers@.skip(i as int + 1), 0, remaining - take);
            }
            let term = match take.checked_mul(t.price) {
                Some(p) => p,
                None => {
                    return Err(DeedError::MathOverflow);
                },
            };
            total = match total.checked_add(term) {
                Some(s) => s,
                None => {
                    return Err(DeedError::MathOverflow);
                },
            };
            remaining = remaining - take;
            sold = 0;
        }
        i = i + 1;
    }
    if remaining > 0 {
        return Err(DeedError::MaxSupplyExceeded);
    }
    proof {
        lemma_walk_zero(tiers@.skip(i as int), sold as int);
    }
    Ok(total)
}

} // verus!
