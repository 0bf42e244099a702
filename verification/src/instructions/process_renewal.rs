use vstd::prelude::*;
use anchor_lang::solana_program::pubkey::Pubkey;
use crate::constants::RENEWAL_WINDOW;
use crate::errors::{BillingError, InstructionError};
use crate::events::SubscriptionRenewed;
use crate::instructions::PaymentCharge;
use crate::math::{fits_u64, platform_fee, spec_platform_fee};
use crate::runtime::clock_unix_timestamp;
use crate::state::platform::PlatformConfig;
use crate::state::subscription_plan::SubscriptionPlan;
use crate::state::user_subscription::UserSubscription;

verus! {

/// At time `now` the subscription is inside its renewal window: at most
/// `RENEWAL_WINDOW` seconds before its expiry, or past it.
pub open spec fn spec_in_renewal_window(subscription: &UserSubscription, now: i64) -> bool {
    now >= subscription.expires_at - RENEWAL_WINDOW
}

/// What a renewal at time `now` charges: one period at the plan's price, of which
/// the platform takes its fee; `MathOverflow` where the fee's product does not fit.
pub open spec fn spec_renewal_price(fee_bps: u16, price_per_period: u64, now: i64) -> Result<
    PaymentCharge,
    BillingError,
> {
    if !fits_u64(price_per_period * fee_bps) {
        Err(BillingError::MathOverflow)
    } else {
        Ok(
            PaymentCharge {
                amount: price_per_period,
                platform_fee: spec_platform_fee(price_per_period as int, fee_bps as int) as u64,
                periods: 1,
                now,
            },
        )
    }
}

/// What `process_renewal_at` gives.
pub open spec fn spec_renewal_outcome(
    platform: PlatformConfig,
    plan: &SubscriptionPlan,
    subscription: UserSubscription,
    now: i64,
) -> Result<PaymentCharge, BillingError> {
    if !subscription.auto_renew || !spec_in_renewal_window(&subscription, now) {
        Err(BillingError::SubscriptionNotActive)
    } else {
        spec_renewal_price(platform.platform_fee_bps, plan.price_per_period, now)
    }
}

/// Prices the renewal of a subscription at time `now`. It is refused with
/// `SubscriptionNotActive` where the subscription does not renew automatically,
/// or where `now` lies before its renewal window. The charge that comes back is
/// what the subscriber pays into the treasury before `settle_renewal` extends it.
pub fn process_renewal_at(
    platform: &PlatformConfig,
    plan: &SubscriptionPlan,
    subscription: &UserSubscription,
    now: i64,
) -> (r: Result<PaymentCharge, BillingError>)
    requires
        subscription.auto_renew ==> subscription.expires_at >= i64::MIN + RENEWAL_WINDOW,
    ensures
        r == spec_renewal_outcome(*platform, plan, *subscription, now),
{
    if !subscription.auto_renew {
        return Err(BillingError::SubscriptionNotActive);
    }
    price_renewal(platform, plan, subscription, now)
}

fn price_renewal(
    platform: &PlatformConfig,
    plan: &SubscriptionPlan,
    subscription: &UserSubscription,
    now: i64,
) -> (r: Result<PaymentCharge, BillingError>)
    requires
        subscription.expires_at >= i64::MIN + RENEWAL_WINDOW,
    ensures
        r == if !spec_in_renewal_window(subscription, now) {
            Err(BillingError::SubscriptionNotActive)
        } else {
            spec_renewal_price(platform.platform_fee_bps, plan.price_per_period, now)
        },
{
    if now < subscription.expires_at - RENEWAL_WINDOW {
        return Err(BillingError::SubscriptionNotActive);
    }
    let amount = plan.price_per_period;
    let fee = platform_fee(amount, platform.platform_fee_bps)?;
    Ok(PaymentCharge { amount, platform_fee: fee, periods: 1, now })
}

/// `process_renewal_at` at the time the cluster clock gives, read once the
/// subscription was found to renew automatically.
pub fn process_renewal(
    platform: &PlatformConfig,
    plan: &SubscriptionPlan,
    subscription: &UserSubscription,
) -> (r: Result<PaymentCharge, InstructionError>)
    requires
        subscription.auto_renew ==> subscription.expires_at >= i64::MIN + RENEWAL_WINDOW,
    ensures
        !subscription.auto_renew ==> r == Err::<PaymentCharge, InstructionError>(
            InstructionError::Billing(BillingError::SubscriptionNotActive),
        ),
        subscription.auto_renew ==> match r {
            Ok(c) => spec_in_renewal_window(subscription, c.now) && spec_renewal_price(
                platform.platform_fee_bps,
                plan.price_per_period,
                c.now,
            ) == Ok::<PaymentCharge, BillingError>(c),
            Err(InstructionError::Billing(e)) => exists|t: i64|
                #[trigger] spec_renewal_outcome(*platform, plan, *subscription, t) == Err::<
                    PaymentCharge,
                    BillingError,
                >(e),
            Err(InstructionError::Runtime(_)) => true,
        },
{
    if !subscription.auto_renew {
        return Err(InstructionError::Billing(BillingError::SubscriptionNotActive));
    }
    let now = match clock_unix_timestamp() {
        Ok(now) => now,
        Err(e) => return Err(InstructionError::Runtime(e)),
    };
    let priced = price_renewal(platform, plan, subscription, now);
    assert(spec_renewal_outcome(*platform, plan, *subscription, now) == priced);
    match priced {
        Ok(c) => Ok(c),
        Err(e) => Err(InstructionError::Billing(e)),
    }
}

/// Where recording a paid renewal overflows: extending the subscription, then
/// the plan's share of the payment and its revenue, then the platform's revenue.
pub open spec fn spec_renewal_overflows(
    platform: PlatformConfig,
    plan: &SubscriptionPlan,
    subscription: UserSubscription,
    charge: PaymentCharge,
) -> bool {
    ||| subscription.spec_extension_overflows(charge.periods, plan.period_duration, charge.amount)
    ||| charge.amount < charge.platform_fee
    ||| !fits_u64(plan.total_revenue + (charge.amount - charge.platform_fee))
    ||| !fits_u64(platform.total_revenue + charge.platform_fee)
}

/// The plan once a paid renewal is counted: its share of the payment is added
/// to its revenue.
pub open spec fn spec_plan_after_renewal(plan: SubscriptionPlan, charge: PaymentCharge) -> SubscriptionPlan {
    SubscriptionPlan {
        total_revenue: (plan.total_revenue + (charge.amount - charge.platform_fee)) as u64,
        ..plan
    }
}

/// The platform once a paid renewal is counted: the fee is added to its revenue.
pub open spec fn spec_platform_after_renewal(platform: PlatformConfig, charge: PaymentCharge) -> PlatformConfig {
    PlatformConfig { total_revenue: (platform.total_revenue + charge.platform_fee) as u64, ..platform }
}

/// Records a renewal whose charge has been paid: extends the subscription by the
/// charged periods of the plan's length and marks it active, and counts the plan's
/// share and the platform's fee. Every step is checked; where one overflows,
/// `MathOverflow` comes back and nothing has changed.
pub fn settle_renewal(
    platform: &mut PlatformConfig,
    plan: &mut SubscriptionPlan,
    subscription: &mut UserSubscription,
    charge: &PaymentCharge,
    plan_key: Pubkey,
) -> (r: Result<SubscriptionRenewed, BillingError>)
    ensures
        spec_renewal_overflows(*old(platform), old(plan), *old(subscription), *charge) ==> {
            &&& r == Err::<SubscriptionRenewed, BillingError>(BillingError::MathOverflow)
            &&& *final(platform) == *old(platform)
            &&& *final(plan) == *old(plan)
            &&& *final(subscription) == *old(subscription)
        },
        !spec_renewal_overflows(*old(platform), old(plan), *old(subscription), *charge) ==> ({
            let sub = old(subscription).spec_extended(
                charge.periods,
                old(plan).period_duration,
                charge.amount,
                charge.now,
            );
            &&& *final(subscription) == sub
            &&& r == Ok::<SubscriptionRenewed, BillingError>(
                SubscriptionRenewed {
                    user: sub.user,
                    plan: plan_key,
                    amount_paid: charge.amount,
                    new_expiry: sub.expires_at,
                    timestamp: charge.now,
                },
            )
            &&& *final(plan) == spec_plan_after_renewal(*old(plan), *charge)
            &&& *final(platform) == spec_platform_after_renewal(*old(platform), *charge)
        }),
{
    let mut renewed = *subscription;
    renewed.extend_subscription_at(charge.periods, plan.period_duration, charge.amount, charge.now)?;
    let plan_share = match charge.amount.checked_sub(charge.platform_fee) {
        Some(n) => n,
        None => return Err(BillingError::MathOverflow),
    };
    let plan_revenue = match plan.total_revenue.checked_add(plan_share) {
        Some(n) => n,
        None => return Err(BillingError::MathOverflow),
    };
    let platform_revenue = match platform.total_revenue.checked_add(charge.platform_fee) {
        Some(n) => n,
        None => return Err(BillingError::MathOverflow),
    };
    *subscription = renewed;
    plan.total_revenue = plan_revenue;
    platform.total_revenue = platform_revenue;
    Ok(
        SubscriptionRenewed {
            user: renewed.user,
            plan: plan_key,
            amount_paid: charge.amount,
            new_expiry: renewed.expires_at,
            timestamp: charge.now,
        },
    )
}

} // verus!
