use vstd::prelude::*;
use anchor_lang::solana_program::pubkey::Pubkey;
use crate::errors::{BillingError, InstructionError};
use crate::events::SubscriptionCancelled;
use crate::runtime::clock_unix_timestamp;
use crate::state::subscription_plan::SubscriptionPlan;
use crate::state::user_subscription::{SubscriptionStatus, UserSubscription};

verus! {

/// The subscription once cancelled: it no longer renews.
pub open spec fn spec_cancelled(s: UserSubscription) -> UserSubscription {
    UserSubscription { status: SubscriptionStatus::Cancelled, auto_renew: false, ..s }
}

/// The plan once it has lost a subscriber; the count stops at zero.
pub open spec fn spec_plan_without_subscriber(plan: SubscriptionPlan) -> SubscriptionPlan {
    SubscriptionPlan {
        current_subscribers: if plan.current_subscribers == 0 {
            0
        } else {
            (plan.current_subscribers - 1) as u64
        },
        ..plan
    }
}

/// What `cancel_subscription_at` gives.
pub open spec fn spec_cancel_outcome(subscription: UserSubscription, plan_key: Pubkey, now: i64) -> Result<
    SubscriptionCancelled,
    BillingError,
> {
    if subscription.status == SubscriptionStatus::Cancelled {
        Err(BillingError::AlreadyCancelled)
    } else {
        Ok(SubscriptionCancelled { user: subscription.user, plan: plan_key, timestamp: now })
    }
}

fn apply_cancellation(plan: &mut SubscriptionPlan, subscription: &mut UserSubscription)
    ensures
        *final(subscription) == spec_cancelled(*old(subscription)),
        *final(plan) == spec_plan_without_subscriber(*old(plan)),
{
    subscription.status = SubscriptionStatus::Cancelled;
    subscription.auto_renew = false;
    plan.current_subscribers = plan.current_subscribers.saturating_sub(1);
}

/// Cancels a subscription at time `now`: it is marked cancelled and stops
/// renewing, and the plan counts one subscriber less (never below zero). A
/// subscription that is already cancelled is refused with `AlreadyCancelled`
/// and nothing changes.
pub fn cancel_subscription_at(
    plan: &mut SubscriptionPlan,
    subscription: &mut UserSubscription,
    plan_key: Pubkey,
    now: i64,
) -> (r: Result<SubscriptionCancelled, BillingError>)
    ensures
        r == spec_cancel_outcome(*old(subscription), plan_key, now),
        old(subscription).status == SubscriptionStatus::Cancelled ==> {
            &&& *final(plan) == *old(plan)
            &&& *final(subscription) == *old(subscription)
        },
        old(subscription).status != SubscriptionStatus::Cancelled ==> {
            &&& *final(plan) == spec_plan_without_subscriber(*old(plan))
            &&& *final(subscription) == spec_cancelled(*old(subscription))
        },
{
    if subscription.status == SubscriptionStatus::Cancelled {
        return Err(BillingError::AlreadyCancelled);
    }
    apply_cancellation(plan, subscription);
    Ok(SubscriptionCancelled { user: subscription.user, plan: plan_key, timestamp: now })
}

/// `cancel_subscription_at` at the time the cluster clock gives. Where the clock
/// cannot be read, the runtime's error comes back and nothing changes.
pub fn cancel_subscription(
    plan: &mut SubscriptionPlan,
    subscription: &mut UserSubscription,
    plan_key: Pubkey,
) -> (r: Result<SubscriptionCancelled, InstructionError>)
    ensures
        old(subscription).status == SubscriptionStatus::Cancelled ==> {
            &&& r == Err::<SubscriptionCancelled, InstructionError>(
                InstructionError::Billing(BillingError::AlreadyCancelled),
            )
            &&& *final(plan) == *old(plan)
            &&& *final(subscription) == *old(subscription)
        },
        old(subscription).status != SubscriptionStatus::Cancelled ==> match r {
            Ok(event) => {
                &&& event.user == old(subscription).user
                &&& event.plan == plan_key
                &&& *final(plan) == spec_plan_without_subscriber(*old(plan))
                &&& *final(subscription) == spec_cancelled(*old(subscription))
            },
            Err(InstructionError::Runtime(_)) => *final(plan) == *old(plan) && *final(subscription)
                == *old(subscription),
            Err(InstructionError::Billing(_)) => false,
        },
{
    if subscription.status == SubscriptionStatus::Cancelled {
        return Err(InstructionError::Billing(BillingError::AlreadyCancelled));
    }
    let now = match clock_unix_timestamp() {
        Ok(now) => now,
        Err(e) => return Err(InstructionError::Runtime(e)),
    };
    apply_cancellation(plan, subscription);
    Ok(SubscriptionCancelled { user: subscription.user, plan: plan_key, timestamp: now })
}

} // verus!
