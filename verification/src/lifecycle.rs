use vstd::prelude::*;

verus! {

use crate::auth::{check_sale_address, copy_key, keys_equal, sale_address_matches};
use crate::errors::DeedError;
use crate::events::{
    ExcessRewardsTransferred, FundsWithdrawn, RewardClaimed, SaleClosed, SaleEvent, SaleInitialized,
};
use crate::sale::{TokenSale, Vault, KEY_LEN};
use crate::tier::{calculate_total_cost, cost_of, unseated, Tier, MAX_TIERS};
use crate::split::{principal_part, reward_part};

/// The check that `initialize_sale` performs, in order; `None` means the
/// operation succeeds. The creator funds both vaults with the storage
/// reserve, one transfer each, sale vault first.
pub open spec fn initialize_error_spec(
    max_supply: u64,
    tiers_len: int,
    end_date: i64,
    now: i64,
    rent: u64,
    creator_balance: u64,
    sale_vault: u64,
    reward_vault: u64,
) -> Option<DeedError> {
    if max_supply == 0 {
        Some(DeedError::InvalidMaxSupply)
    } else if !(1 <= tiers_len && tiers_len <= 3) {
        Some(DeedError::InvalidTiers)
    } else if end_date <= now {
        Some(DeedError::InvalidEndDate)
    } else if creator_balance < rent {
        Some(DeedError::InsufficientFunds)
    } else if sale_vault + rent > u64::MAX {
        Some(DeedError::MathOverflow)
    } else if creator_balance - rent < rent {
        Some(DeedError::InsufficientFunds)
    } else if reward_vault + rent > u64::MAX {
        Some(DeedError::MathOverflow)
    } else {
        None
    }
}

/// Opens a sale: validates the configuration, funds both vaults with the
/// storage reserve `rent` out of the creator's balance, and returns the
/// fresh record, active and with zeroed counters. On failure nothing moves.
pub fn initialize_sale(
    creator: &Vec<u8>,
    max_supply: u64,
    tiers: Vec<Tier>,
    end_date: i64,
    now: i64,
    rent: u64,
    creator_balance: &mut u64,
    sale_vault: &mut Vault,
    reward_vault: &mut Vault,
) -> (r: Result<TokenSale, DeedError>)
    requires
        creator@.len() == KEY_LEN,
    ensures
        r is Err <==> initialize_error_spec(
            max_supply,
            tiers@.len() as int,
            end_date,
            now,
            rent,
            *old(creator_balance),
            old(sale_vault).balance,
            old(reward_vault).balance,
        ) is Some,
        match r {
            Ok(sale) => {
                &&& sale.wf()
                &&& sale.creator@ == creator@
                &&& sale.max_supply == max_supply
                &&& sale.tiers == tiers
                &&& sale.end_date == end_date
                &&& sale.total_sold == 0
                &&& sale.total_sales_value == 0
                &&& sale.is_active
                &&& *final(creator_balance) == *old(creator_balance) - 2 * rent
                &&& final(sale_vault).balance == old(sale_vault).balance + rent
                &&& final(reward_vault).balance == old(reward_vault).balance + rent
            },
            Err(e) => {
                &&& Some(e) == initialize_error_spec(
                    max_supply,
                    tiers@.len() as int,
                    end_date,
                    now,
                    rent,
                    *old(creator_balance),
                    old(sale_vault).balance,
                    old(reward_vault).balance,
                )
                &&& *final(creator_balance) == *old(creator_balance)
                &&& *final(sale_vault) == *old(sale_vault)
                &&& *final(reward_vault) == *old(reward_vault)
            },
        },
{
    if max_supply == 0 {
        return Err(DeedError::InvalidMaxSupply);
    }
    if tiers.len() == 0 || tiers.len() > MAX_TIERS {
        return Err(DeedError::InvalidTiers);
    }
    if end_date <= now {
        return Err(DeedError::InvalidEndDate);
    }
    if *creator_balance < rent {
        return Err(DeedError::InsufficientFunds);
    }
    let new_sale_vault = match sale_vault.balance.checked_add(rent) {
        Some(v) => v,
        None => {
            return Err(DeedError::MathOverflow);
        },
    };
    if *creator_balance - rent < rent {
        return Err(DeedError::InsufficientFunds);
    }
    let new_reward_vault = match reward_vault.balance.checked_add(rent) {
        Some(v) => v,
        None => {
            return Err(DeedError::MathOverflow);
        },
    };
    *creator_balance = *creator_balance - rent - rent;
    sale_vault.balance = new_sale_vault;
    reward_vault.balance = new_reward_vault;
    Ok(
        TokenSale {
            creator: copy_key(creator),
            max_supply,
            tiers,
            end_date,
            total_sold: 0,
            total_sales_value: 0,
            is_active: true,
        },
    )
}

/// The check that `buy_tokens` performs, in order; `None` means the buy
/// succeeds. The buyer pays the principal share into the sale vault first,
/// then the reward share into the reward vault.
pub open spec fn buy_error_spec(
    sale: TokenSale,
    amount: u64,
    now: i64,
    buyer_balance: u64,
    sale_vault: u64,
    reward_vault: u64,
) -> Option<DeedError> {
    let cost = cost_of(sale.tiers@, sale.total_sold as int, amount as int);
    let rem = unseated(sale.tiers@, sale.total_sold as int, amount as int);
    if !(sale.is_active && now < sale.end_date) {
        Some(DeedError::SaleClosed)
    } else if amount == 0 {
        Some(DeedError::InvalidAmount)
    } else if sale.total_sold + amount > sale.max_supply {
        Some(DeedError::MaxSupplyExceeded)
    } else if cost > u64::MAX {
        Some(DeedError::MathOverflow)
    } else if rem > 0 {
        Some(DeedError::MaxSupplyExceeded)
    } else if sale.total_sales_value + cost > u64::MAX {
        Some(DeedError::MathOverflow)
    } else if cost * 25 > u64::MAX {
        Some(DeedError::MathOverflow)
    } else if buyer_balance < principal_part(cost) {
        Some(DeedError::InsufficientFunds)
    } else if sale_vault + principal_part(cost) > u64::MAX {
        Some(DeedError::MathOverflow)
    } else if buyer_balance - principal_part(cost) < reward_part(cost) {
        Some(DeedError::InsufficientFunds)
    } else if reward_vault + reward_part(cost) > u64::MAX {
        Some(DeedError::MathOverflow)
    } else {
        None
    }
}

/// A buy while the sale is active and before its end: prices `amount` units
/// against the tier schedule, advances the counters, and splits the payment
/// between the two vaults, 25% (floored) to the reward vault and the rest to
/// the sale vault. Atomic: on any failure nothing has moved.
pub fn buy_tokens(
    sale: &mut TokenSale,
    buyer: &Vec<u8>,
    referrer: &Vec<u8>,
    amount: u64,
    now: i64,
    buyer_balance: &mut u64,
    sale_vault: &mut Vault,
    reward_vault: &mut Vault,
) -> (r: Result<SaleEvent, DeedError>)
    requires
        old(sale).wf(),
    ensures
        r is Err <==> buy_error_spec(
            *old(sale),
            amount,
            now,
            *old(buyer_balance),
            old(sale_vault).balance,
            old(reward_vault).balance,
        ) is Some,
        match r {
            Ok(ev) => {
                let cost = cost_of(old(sale).tiers@, old(sale).total_sold as int, amount as int);
                &&& final(sale).wf()
                &&& final(sale).total_sold == old(sale).total_sold + amount
                &&& final(sale).total_sales_value == old(sale).total_sales_value + cost
                &&& final(sale).creator == old(sale).creator
                &&& final(sale).max_supply == old(sale).max_supply
                &&& final(sale).tiers == old(sale).tiers
                &&& final(sale).end_date == old(sale).end_date
                &&& final(sale).is_active == old(sale).is_active
                &&& *final(buyer_balance) == *old(buyer_balance) - cost
                &&& final(sale_vault).balance == old(sale_vault).balance + principal_part(cost)
                &&& final(reward_vault).balance == old(reward_vault).balance + reward_part(cost)
                &&& ev.buyer@ == buyer@
                &&& ev.referrer@ == referrer@
                &&& ev.amount == amount
                &&& ev.lamports == cost
            },
            Err(e) => {
                &&& Some(e) == buy_error_spec(
                    *old(sale),
                    amount,
                    now,
                    *old(buyer_balance),
                    old(sale_vault).balance,
                    old(reward_vault).balance,
                )
                &&& *final(sale) == *old(sale)
                &&& *final(buyer_balance) == *old(buyer_balance)
                &&& *final(sale_vault) == *old(sale_vault)
                &&& *final(reward_vault) == *old(reward_vault)
            },
        },
{
    if !(sale.is_active && now < sale.end_date) {
        return Err(DeedError::SaleClosed);
    }
    if amount == 0 {
        return Err(DeedError::InvalidAmount);
    }
    if amount > sale.max_supply - sale.total_sold {
        return Err(DeedError::MaxSupplyExceeded);
    }
    let cost = match calculate_total_cost(&sale.tiers, sale.total_sold, amount) {
        Ok(c) => c,
        Err(e) => {
            return Err(e);
        },
    };
    let new_sales_value = match sale.total_sales_value.checked_add(cost) {
        Some(v) => v,
        None => {
            return Err(DeedError::MathOverflow);
        },
    };
    let reward = match crate::split::reward_share(cost) {
        Ok(v) => v,
        Err(e) => {
            return Err(e);
        },
    };
    proof {
        crate::split::lemma_split_conserves(cost as int);
    }
    let principal = cost - reward;
    if *buyer_balance < principal {
        return Err(DeedError::InsufficientFunds);
    }
    let new_sale_vault = match sale_vault.balance.checked_add(principal) {
        Some(v) => v,
        None => {
            return Err(DeedError::MathOverflow);
        },
    };
    if *buyer_balance - principal < reward {
        return Err(DeedError::InsufficientFunds);
    }
    let new_reward_vault = match reward_vault.balance.checked_add(reward) {
        Some(v) => v,
        None => {
            return Err(DeedError::MathOverflow);
        },
    };
    sale.total_sold = sale.total_sold + amount;
    sale.total_sales_value = new_sales_value;
    *buyer_balance = *buyer_balance - principal - reward;
    sale_vault.balance = new_sale_vault;
    reward_vault.balance = new_reward_vault;
    Ok(
        SaleEvent {
            buyer: copy_key(buyer),
            referrer: copy_key(referrer),
            amount,
            lamports: cost,
        },
    )
}

/// The check that `claim_rewards` performs, in order.
pub open spec fn claim_error_spec(
    sale: TokenSale,
    reward_amount: u64,
    reward_vault: u64,
    referrer_balance: u64,
) -> Option<DeedError> {
    if !sale.is_active {
        Some(DeedError::SaleClosed)
    } else if reward_amount == 0 {
        Some(DeedError::InvalidReward)
    } else if reward_vault < reward_amount {
        Some(DeedError::InsufficientFunds)
    } else if referrer_balance + reward_amount > u64::MAX {
        Some(DeedError::MathOverflow)
    } else {
        None
    }
}

/// Pays a referral reward out of the reward vault to the claiming principal.
/// Any signer may claim while the sale is active; the binding of claims to
/// referrals is left to the consumer of the event stream.
pub fn claim_rewards(
    sale: &TokenSale,
    referrer: &Vec<u8>,
    reward_amount: u64,
    reward_vault: &mut Vault,
    referrer_balance: &mut u64,
) -> (r: Result<RewardClaimed, DeedError>)
    ensures
        r is Err <==> claim_error_spec(
            *sale,
            reward_amount,
            old(reward_vault).balance,
            *old(referrer_balance),
        ) is Some,
        match r {
            Ok(ev) => {
                &&& final(reward_vault).balance == old(reward_vault).balance - reward_amount
                &&& *final(referrer_balance) == *old(referrer_balance) + reward_amount
                &&& ev.referrer@ == referrer@
                &&& ev.sol_amount == reward_amount
            },
            Err(e) => {
                &&& Some(e) == claim_error_spec(
                    *sale,
                    reward_amount,
                    old(reward_vault).balance,
                    *old(referrer_balance),
                )
                &&& *final(reward_vault) == *old(reward_vault)
                &&& *final(referrer_balance) == *old(referrer_balance)
            },
        },
{
    if !sale.is_active {
        return Err(DeedError::SaleClosed);
    }
    if reward_amount == 0 {
        return Err(DeedError::InvalidReward);
    }
    if reward_vault.balance < reward_amount {
        return Err(DeedError::InsufficientFunds);
    }
    let new_referrer_balance = match referrer_balance.checked_add(reward_amount) {
        Some(v) => v,
        None => {
            return Err(DeedError::MathOverflow);
        },
    };
    reward_vault.balance = reward_vault.balance - reward_amount;
    *referrer_balance = new_referrer_balance;
    Ok(RewardClaimed { referrer: copy_key(referrer), sol_amount: reward_amount })
}

/// The check that `transfer_excess_rewards` performs, in order.
pub open spec fn transfer_excess_error_spec(
    sale: TokenSale,
    caller: Seq<u8>,
    amount: u64,
    reward_vault: u64,
    sale_vault: u64,
) -> Option<DeedError> {
    if sale.creator@ != caller {
        Some(DeedError::Unauthorized)
    } else if amount == 0 {
        Some(DeedError::InvalidAmount)
    } else if reward_vault < amount {
        Some(DeedError::InsufficientFunds)
    } else if sale_vault + amount > u64::MAX {
        Some(DeedError::MathOverflow)
    } else {
        None
    }
}

/// Moves `amount` from the reward vault back into the sale vault. Only the
/// sale's creator may do this.
pub fn transfer_excess_rewards(
    sale: &TokenSale,
    caller: &Vec<u8>,
    amount: u64,
    reward_vault: &mut Vault,
    sale_vault: &mut Vault,
) -> (r: Result<ExcessRewardsTransferred, DeedError>)
    ensures
        r is Err <==> transfer_excess_error_spec(
            *sale,
            caller@,
            amount,
            old(reward_vault).balance,
            old(sale_vault).balance,
        ) is Some,
        match r {
            Ok(ev) => {
                &&& final(reward_vault).balance == old(reward_vault).balance - amount
                &&& final(sale_vault).balance == old(sale_vault).balance + amount
                &&& ev.amount == amount
            },
            Err(e) => {
                &&& Some(e) == transfer_excess_error_spec(
                    *sale,
                    caller@,
                    amount,
                    old(reward_vault).balance,
                    old(sale_vault).balance,
                )
                &&& *final(reward_vault) == *old(reward_vault)
                &&& *final(sale_vault) == *old(sale_vault)
            },
        },
{
    if !keys_equal(&sale.creator, caller) {
        return Err(DeedError::Unauthorized);
    }
    if amount == 0 {
        return Err(DeedError::InvalidAmount);
    }
    if reward_vault.balance < amount {
        return Err(DeedError::InsufficientFunds);
    }
    let new_sale_vault = match sale_vault.balance.checked_add(amount) {
        Some(v) => v,
        None => {
            return Err(DeedError::MathOverflow);
        },
    };
    reward_vault.balance = reward_vault.balance - amount;
    sale_vault.balance = new_sale_vault;
    Ok(ExcessRewardsTransferred { amount })
}

/// The check that `withdraw_funds` performs, in order.
pub open spec fn withdraw_error_spec(
    sale: TokenSale,
    caller: Seq<u8>,
    now: i64,
    sale_vault: u64,
    creator_balance: u64,
) -> Option<DeedError> {
    if sale.is_active && now < sale.end_date {
        Some(DeedError::SaleActive)
    } else if sale.creator@ != caller {
        Some(DeedError::Unauthorized)
    } else if sale_vault == 0 {
        Some(DeedError::NoFunds)
    } else if creator_balance + sale_vault > u64::MAX {
        Some(DeedError::MathOverflow)
    } else {
        None
    }
}

/// After the sale has ended (or was already deactivated), the creator — and
/// only the creator — withdraws the whole sale vault and the record is
/// deactivated.
pub fn withdraw_funds(
    sale: &mut TokenSale,
    caller: &Vec<u8>,
    now: i64,
    sale_vault: &mut Vault,
    creator_balance: &mut u64,
) -> (r: Result<FundsWithdrawn, DeedError>)
    requires
        old(sale).wf(),
    ensures
        r is Err <==> withdraw_error_spec(
            *old(sale),
            caller@,
            now,
            old(sale_vault).balance,
            *old(creator_balance),
        ) is Some,
        match r {
            Ok(ev) => {
                &&& final(sale).wf()
                &&& !final(sale).is_active
                &&& final(sale).creator == old(sale).creator
                &&& final(sale).max_supply == old(sale).max_supply
                &&& final(sale).tiers == old(sale).tiers
                &&& final(sale).end_date == old(sale).end_date
                &&& final(sale).total_sold == old(sale).total_sold
                &&& final(sale).total_sales_value == old(sale).total_sales_value
                &&& final(sale_vault).balance == 0
                &&& *final(creator_balance) == *old(creator_balance) + old(sale_vault).balance
                &&& ev.creator@ == caller@
                &&& ev.lamports == old(sale_vault).balance
            },
            Err(e) => {
                &&& Some(e) == withdraw_error_spec(
                    *old(sale),
                    caller@,
                    now,
                    old(sale_vault).balance,
                    *old(creator_balance),
                )
                &&& *final(sale) == *old(sale)
                &&& *final(sale_vault) == *old(sale_vault)
                &&& *final(creator_balance) == *old(creator_balance)
            },
        },
{
    if sale.is_active && now < sale.end_date {
        return Err(DeedError::SaleActive);
    }
    if !keys_equal(&sale.creator, caller) {
        return Err(DeedError::Unauthorized);
    }
    let lamports = sale_vault.balance;
    if lamports == 0 {
        return Err(DeedError::NoFunds);
    }
    let new_creator_balance = match creator_balance.checked_add(lamports) {
        Some(v) => v,
        None => {
            return Err(DeedError::MathOverflow);
        },
    };
    sale_vault.balance = 0;
    *creator_balance = new_creator_balance;
    sale.is_active = false;
    Ok(FundsWithdrawn { creator: copy_key(caller), lamports })
}

/// The check that `close_sale` performs, in order.
pub open spec fn close_error_spec(
    sale_address: Seq<u8>,
    caller: Seq<u8>,
    program_id: Seq<u8>,
    sale_lamports: u64,
    creator_balance: u64,
) -> Option<DeedError> {
    if !sale_address_matches(sale_address, caller, program_id) {
        Some(DeedError::Unauthorized)
    } else if sale_lamports == 0 {
        Some(DeedError::NoFunds)
    } else if creator_balance + sale_lamports > u64::MAX {
        Some(DeedError::MathOverflow)
    } else {
        None
    }
}

/// Destroys the sale record: after checking that the presented record
/// address is exactly the one derived from `("sale", caller)`, its whole
/// residual balance moves to the caller, which lets the substrate reclaim
/// the zero-balance record.
pub fn close_sale(
    sale_address: &Vec<u8>,
    caller: &Vec<u8>,
    program_id: &Vec<u8>,
    sale_lamports: &mut u64,
    creator_balance: &mut u64,
) -> (r: Result<SaleClosed, DeedError>)
    requires
        program_id@.len() == KEY_LEN,
    ensures
        r is Err <==> close_error_spec(
            sale_address@,
            caller@,
            program_id@,
            *old(sale_lamports),
            *old(creator_balance),
        ) is Some,
        match r {
            Ok(ev) => {
                &&& sale_address_matches(sale_address@, caller@, program_id@)
                &&& *final(sale_lamports) == 0
                &&& *final(creator_balance) == *old(creator_balance) + *old(sale_lamports)
                &&& ev.sale@ == sale_address@
                &&& ev.creator@ == caller@
                &&& ev.lamports == *old(sale_lamports)
            },
            Err(e) => {
                &&& Some(e) == close_error_spec(
                    sale_address@,
                    caller@,
                    program_id@,
                    *old(sale_lamports),
                    *old(creator_balance),
                )
                &&& *final(sale_lamports) == *old(sale_lamports)
                &&& *final(creator_balance) == *old(creator_balance)
            },
        },
{
    if !check_sale_address(sale_address, caller, program_id) {
        return Err(DeedError::Unauthorized);
    }
    let lamports = *sale_lamports;
    if lamports == 0 {
        return Err(DeedError::NoFunds);
    }
    let new_creator_balance = match creator_balance.checked_add(lamports) {
        Some(v) => v,
        None => {
            return Err(DeedError::MathOverflow);
        },
    };
    *sale_lamports = 0;
    *creator_balance = new_creator_balance;
    Ok(SaleClosed { sale: copy_key(sale_address), creator: copy_key(caller), lamports })
}

/// The record a successful buy of `amount` units leaves behind: counters
/// advanced, the configuration untouched.
pub open spec fn buy_post(sale: TokenSale, amount: u64) -> TokenSale {
    TokenSale {
        total_sold: (sale.total_sold + amount) as u64,
        total_sales_value: (sale.total_sales_value + cost_of(
            sale.tiers@,
            sale.total_sold as int,
            amount as int,
        )) as u64,
        ..sale
    }
}

/// One serialized operation's effect on the sale record: either a buy that
/// passed every one of its checks, or any of the other operations, none of
/// which touches the counters or the configuration (a withdraw may clear
/// the activation flag).
pub open spec fn record_step(pre: TokenSale, post: TokenSale) -> bool {
    ||| exists|amount: u64, now: i64, buyer_balance: u64, sale_vault: u64, reward_vault: u64|
        buy_error_spec(pre, amount, now, buyer_balance, sale_vault, reward_vault) is None && post
            == buy_post(pre, amount)
    ||| {
        &&& post.creator == pre.creator
        &&& post.max_supply == pre.max_supply
        &&& post.tiers == pre.tiers
        &&& post.end_date == pre.end_date
        &&& post.total_sold == pre.total_sold
        &&& post.total_sales_value == pre.total_sales_value
    }
}

/// Along every trace of operations on one sale, the sold counter never
/// passes the supply cap: every state of a chain that starts well-formed
/// and advances by `record_step` is well-formed again, so
/// `total_sold <= max_supply` holds after each step.
pub proof fn lemma_trace_supply_bound(trace: Seq<TokenSale>)
    requires
        trace.len() > 0,
        trace[0].wf(),
        forall|i: int| 1 <= i < trace.len() ==> #[trigger] record_step(trace[i - 1], trace[i]),
    ensures
        forall|i: int| 0 <= i < trace.len() ==> #[trigger] trace[i].wf(),
        forall|i: int| 0 <= i < trace.len() ==> trace[i].total_sold <= trace[i].max_supply,
    decreases trace.len(),
{
    if trace.len() > 1 {
        let n = trace.len() as int;
        let shorter = trace.drop_last();
        assert(forall|i: int| 1 <= i < shorter.len() ==> #[trigger] record_step(
            shorter[i - 1],
            shorter[i],
        )) by {
            assert(forall|i: int| 0 <= i < shorter.len() ==> shorter[i] == trace[i]);
        }
        lemma_trace_supply_bound(shorter);
        assert(forall|i: int| 0 <= i < n - 1 ==> #[trigger] trace[i].wf()) by {
            assert(forall|i: int| 0 <= i < shorter.len() ==> shorter[i] == trace[i]);
        }
        assert(record_step(trace[(n - 1) - 1], trace[n - 1]));
        let pre = trace[n - 2];
        let post = trace[n - 1];
        assert(pre.wf());
        if exists|amount: u64, now: i64, buyer_balance: u64, sale_vault: u64, reward_vault: u64|
            buy_error_spec(pre, amount, now, buyer_balance, sale_vault, reward_vault) is None
            && post == buy_post(pre, amount) {
            let (amount, now, buyer_balance, sale_vault, reward_vault) = choose|
                amount: u64,
                now: i64,
                buyer_balance: u64,
                sale_vault: u64,
                reward_vault: u64,
            |
                buy_error_spec(pre, amount, now, buyer_balance, sale_vault, reward_vault) is None
                    && post == buy_post(pre, amount);
            // Every check passed, in particular the supply gate.
            assert(pre.total_sold + amount <= pre.max_supply);
            assert(post.wf());
        } else {
            assert(post.wf());
        }
    }
    assert forall|i: int| 0 <= i < trace.len() implies trace[i].total_sold
        <= trace[i].max_supply by {
        assert(trace[i].wf());
    }
}

/// A buy never succeeds once the end date has been reached.
pub proof fn lemma_no_buy_after_end(
    sale: TokenSale,
    amount: u64,
    now: i64,
    buyer_balance: u64,
    sale_vault: u64,
    reward_vault: u64,
)
    requires
        now >= sale.end_date,
    ensures
        buy_error_spec(sale, amount, now, buyer_balance, sale_vault, reward_vault) is Some,
{
}

/// A withdraw by any principal other than the creator fails `Unauthorized`
/// whenever the sale is eligible for withdrawal at all.
pub proof fn lemma_withdraw_requires_creator(
    sale: TokenSale,
    caller: Seq<u8>,
    now: i64,
    sale_vault: u64,
    creator_balance: u64,
)
    requires
        caller != sale.creator@,
        !(sale.is_active && now < sale.end_date),
    ensures
        withdraw_error_spec(sale, caller, now, sale_vault, creator_balance) == Some(
            DeedError::Unauthorized,
        ),
{
}

/// An excess-rewards transfer by any principal other than the creator fails
/// `Unauthorized`, whatever the amounts.
pub proof fn lemma_transfer_excess_requires_creator(
    sale: TokenSale,
    caller: Seq<u8>,
    amount: u64,
    reward_vault: u64,
    sale_vault: u64,
)
    requires
        caller != sale.creator@,
    ensures
        transfer_excess_error_spec(sale, caller, amount, reward_vault, sale_vault) == Some(
            DeedError::Unauthorized,
        ),
{
}

/// A close presenting any address other than the caller's derived sale
/// address fails `Unauthorized`, whatever the balances.
pub proof fn lemma_close_requires_derived_address(
    sale_address: Seq<u8>,
    caller: Seq<u8>,
    program_id: Seq<u8>,
    sale_lamports: u64,
    creator_balance: u64,
)
    requires
        !sale_address_matches(sale_address, caller, program_id),
    ensures
        close_error_spec(sale_address, caller, program_id, sale_lamports, creator_balance) == Some(
            DeedError::Unauthorized,
        ),
{
}

} // verus!
