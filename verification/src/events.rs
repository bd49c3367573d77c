//! One record per successful transition. An event is built only after every
//! check has passed and every balance has moved; a failed operation emits
//! nothing.

use vstd::prelude::*;

use crate::auth::copy_key;

verus! {

/// Emitted when a sale is created.
#[derive(Debug)]
pub struct SaleInitialized {
    pub sale: Vec<u8>,
    pub sale_vault: Vec<u8>,
    pub reward_vault: Vec<u8>,
}

impl SaleInitialized {
    /// Assembles the creation event from the three record addresses.
    pub fn new(sale: &Vec<u8>, sale_vault: &Vec<u8>, reward_vault: &Vec<u8>) -> (r:
        SaleInitialized)
        ensures
            r.sale@ == sale@,
            r.sale_vault@ == sale_vault@,
            r.reward_vault@ == reward_vault@,
    {
        SaleInitialized {
            sale: copy_key(sale),
            sale_vault: copy_key(sale_vault),
            reward_vault: copy_key(reward_vault),
        }
    }
}

/// Emitted for every successful buy.
#[derive(Debug)]
pub struct SaleEvent {
    pub buyer: Vec<u8>,
    pub referrer: Vec<u8>,
    pub amount: u64,
    pub lamports: u64,
}

/// Emitted when a referral reward leaves the reward vault.
#[derive(Debug)]
pub struct RewardClaimed {
    pub referrer: Vec<u8>,
    pub sol_amount: u64,
}

/// Emitted when the creator moves excess rewards back to the sale vault.
#[derive(Debug)]
pub struct ExcessRewardsTransferred {
    pub amount: u64,
}

/// Emitted when the creator withdraws the sale proceeds.
#[derive(Debug)]
pub struct FundsWithdrawn {
    pub creator: Vec<u8>,
    pub lamports: u64,
}

/// Emitted when the sale record itself is drained and destroyed.
#[derive(Debug)]
pub struct SaleClosed {
    pub sale: Vec<u8>,
    pub creator: Vec<u8>,
    pub lamports: u64,
}

} // verus!
