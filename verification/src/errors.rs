use vstd::prelude::*;

verus! {

/// The failure kinds of the sale state machine. Every operation reports
/// exactly one of these when a precondition fails; no partial mutation
/// escapes a failed operation.
#[derive(Clone, Copy, PartialEq, Eq, Structural, Debug)]
pub enum DeedError {
    /// An operation required the sale to be active and before its end date.
    SaleClosed,
    /// A buy would exceed `max_supply`, or the tier schedule ran out.
    MaxSupplyExceeded,
    /// A withdraw was attempted while the sale was still active and running.
    SaleActive,
    /// A reward claim of zero.
    InvalidReward,
    /// `max_supply == 0` at initialization.
    InvalidMaxSupply,
    /// Tier count outside `1..=3` at initialization.
    InvalidTiers,
    /// `end_date` not in the future at initialization.
    InvalidEndDate,
    /// A purchase or transfer of zero units.
    InvalidAmount,
    /// Checked arithmetic would overflow.
    MathOverflow,
    /// A withdraw or close found nothing to move.
    NoFunds,
    /// A creator or derived-address check failed.
    Unauthorized,
    /// A vault or payer lacks the requested amount.
    InsufficientFunds,
}

impl DeedError {
    /// A human-readable description of the failure.
    pub fn message(&self) -> (r: &'static str)
    {
        match self {
            DeedError::SaleClosed => "Sale is closed or expired",
            DeedError::MaxSupplyExceeded => "Max supply exceeded",
            DeedError::SaleActive => "Sale is still active",
            DeedError::InvalidReward => "Invalid reward amount",
            DeedError::InvalidMaxSupply => "Invalid max supply",
            DeedError::InvalidTiers => "Invalid tiers",
            DeedError::InvalidEndDate => "Invalid end date",
            DeedError::InvalidAmount => "Invalid amount",
            DeedError::MathOverflow => "Math overflow",
            DeedError::NoFunds => "No funds to withdraw",
            DeedError::Unauthorized => "Unauthorized access",
            DeedError::InsufficientFunds => "Insufficient funds in vault",
        }
    }
}

} // verus!
