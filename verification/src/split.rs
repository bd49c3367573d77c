use vstd::prelude::*;

verus! {

use crate::errors::DeedError;

/// The reward vault's share of a payment: a flat 25%, rounded down.
pub open spec fn reward_part(cost: int) -> int {
    (cost * 25) / 100
}

/// The principal vault's share: whatever the reward share leaves.
pub open spec fn principal_part(cost: int) -> int {
    cost - reward_part(cost)
}

/// The 25/75 split never creates or destroys currency: the two shares
/// always sum to the cost, and each share stays within it.
pub proof fn lemma_split_conserves(cost: int)
    requires
        0 <= cost,
    ensures
        reward_part(cost) + principal_part(cost) == cost,
        0 <= reward_part(cost) <= cost,
        0 <= principal_part(cost) <= cost,
{
    assert(0 <= (cost * 25) / 100 <= cost) by (nonlinear_arith)
        requires 0 <= cost;
}

/// Computes the reward share of `cost` with checked arithmetic, failing
/// with `MathOverflow` exactly when the scaled value leaves `u64`.
pub fn reward_share(cost: u64) -> (r: Result<u64, DeedError>)
    ensures
        match r {
            Ok(v) => cost * 25 <= u64::MAX && v == reward_part(cost as int),
            Err(e) => e == DeedError::MathOverflow && cost * 25 > u64::MAX,
        },
{
    match cost.checked_mul(25) {
        Some(scaled) => Ok(scaled / 100),
        None => Err(DeedError::MathOverflow),
    }
}

} // verus!
