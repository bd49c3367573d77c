use vstd::prelude::*;

verus! {

use crate::tier::Tier;

/// The number of bytes in a principal identifier.
pub const KEY_LEN: usize = 32;

/// The persisted sale record: one per creator, holding configuration,
/// counters and the activation flag.
#[derive(Debug)]
pub struct TokenSale {
    /// The principal that opened the sale; immutable after creation.
    pub creator: Vec<u8>,
    /// Units available across all tiers.
    pub max_supply: u64,
    /// The price schedule, cheapest segment first; one to three entries.
    pub tiers: Vec<Tier>,
    /// Timestamp after which buying stops.
    pub end_date: i64,
    /// Units sold so far; never exceeds `max_supply`.
    pub total_sold: u64,
    /// Cumulative currency paid across all successful buys.
    pub total_sales_value: u64,
    /// Cleared once the creator withdraws the proceeds.
    pub is_active: bool,
}

impl TokenSale {
    /// Well-formedness of a sale record: established by `initialize_sale`
    /// and preserved by every operation.
    pub open spec fn wf(self) -> bool {
        &&& self.creator@.len() == KEY_LEN
        &&& self.max_supply > 0
        &&& 1 <= self.tiers@.len() <= 3
        &&& self.total_sold <= self.max_supply
    }
}

/// A balance-holding bucket owned by a sale. Credits come from buyers and
/// from the creator's reserve; debits happen only inside the lifecycle
/// operations, after their authorization checks.
#[derive(Debug)]
pub struct Vault {
    pub balance: u64,
}

impl Vault {
    /// The vault's current balance.
    pub fn balance(&self) -> (r: u64)
        ensures
            r == self.balance,
    {
        self.balance
    }
}

} // verus!
