use vstd::prelude::*;
use anchor_lang::solana_program::pubkey::Pubkey;

verus! {

/// Reported when an admin creates a plan.
#[derive(Debug)]
pub struct PlanCreated {
    pub plan_id: u64,
    pub admin: Pubkey,
    pub name: String,
    pub price_per_period: u64,
    pub period_duration: i64,
    pub timestamp: i64,
}

/// Reported when a user subscribes to a plan.
#[derive(Debug, Clone, Copy)]
pub struct SubscriptionCreated {
    pub user: Pubkey,
    pub plan: Pubkey,
    pub amount_paid: u64,
    pub expires_at: i64,
    pub timestamp: i64,
}

/// Reported when a subscription is renewed.
#[derive(Debug, Clone, Copy)]
pub struct SubscriptionRenewed {
    pub user: Pubkey,
    pub plan: Pubkey,
    pub amount_paid: u64,
    pub new_expiry: i64,
    pub timestamp: i64,
}

/// Reported when a user cancels a subscription.
#[derive(Debug, Clone, Copy)]
pub struct SubscriptionCancelled {
    pub user: Pubkey,
    pub plan: Pubkey,
    pub timestamp: i64,
}

/// Reported when the admin withdraws platform fees.
#[derive(Debug, Clone, Copy)]
pub struct PlatformFeesWithdrawn {
    pub admin: Pubkey,
    pub amount: u64,
    pub timestamp: i64,
}

} // verus!
