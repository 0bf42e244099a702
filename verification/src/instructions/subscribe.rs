use vstd::prelude::*;
use anchor_lang::solana_program::pubkey::Pubkey;
use crate::constants::MAX_PERIODS_PER_PAYMENT;
use crate::errors::{BillingError, InstructionError};
use crate::events::SubscriptionCreated;
use crate::instructions::PaymentCharge;
use crate::math::{fits_i64, fits_u64, platform_fee, spec_platform_fee};
use crate::runtime::clock_unix_timestamp;
use crate::state::platform::PlatformConfig;
use crate::state::subscription_plan::SubscriptionPlan;
use crate::state::user_subscription::{spec_extension, SubscriptionStatus, UserSubscription};

verus! {

/// The first rule that a new subscription breaks before anything is priced:
/// the plan must be active, below its subscriber limit, and the number of
/// periods paid for must lie in `1..=MAX_PERIODS_PER_PAYMENT`.
pub open spec fn spec_subscription_refusal(plan: &SubscriptionPlan, periods_to_pay: u8) -> Option<
    BillingError,
> {
    if !plan.active {
        Some(BillingError::PlanNotActive)
    } else if plan.spec_at_capacity() {
        Some(BillingError::PlanAtCapacity)
    } else if !(periods_to_pay > 0 && periods_to_pay <= MAX_PERIODS_PER_PAYMENT) {
        Some(BillingError::InvalidPeriods)
    } else {
        None
    }
}

/// The price of `periods_to_pay` periods, or the fee's product on it, does not fit
/// in a `u64`.
pub open spec fn spec_subscription_price_overflows(
    fee_bps: u16,
    price_per_period: u64,
    periods_to_pay: u8,
) -> bool {
    let total = price_per_period * periods_to_pay;
    !fits_u64(total) || !fits_u64(total * fee_bps)
}

/// What `periods_to_pay` periods of the plan cost, and the platform's share of it,
/// priced at time `now`; `MathOverflow` where either product does not fit.
pub open spec fn spec_subscription_price(
    fee_bps: u16,
    price_per_period: u64,
    periods_to_pay: u8,
    now: i64,
) -> Result<PaymentCharge, BillingError> {
    let total = price_per_period * periods_to_pay;
    if spec_subscription_price_overflows(fee_bps, price_per_period, periods_to_pay) {
        Err(BillingError::MathOverflow)
    } else {
        Ok(
            PaymentCharge {
                amount: total as u64,
                platform_fee: spec_platform_fee(total, fee_bps as int) as u64,
                periods: periods_to_pay,
                now,
            },
        )
    }
}

fn check_subscribable(plan: &SubscriptionPlan, periods_to_pay: u8) -> (r: Result<(), BillingError>)
    ensures
        match spec_subscription_refusal(plan, periods_to_pay) {
            Some(e) => r == Err::<(), BillingError>(e),
            None => r is Ok,
        },
{
    if !plan.active {
        return Err(BillingError::PlanNotActive);
    }
    if plan.is_at_capacity() {
        return Err(BillingError::PlanAtCapacity);
    }
    if !(periods_to_pay > 0 && periods_to_pay <= MAX_PERIODS_PER_PAYMENT) {
        return Err(BillingError::InvalidPeriods);
    }
    Ok(())
}

fn price_subscription(fee_bps: u16, price_per_period: u64, periods_to_pay: u8, now: i64) -> (r:
    Result<PaymentCharge, BillingError>)
    ensures
        r == spec_subscription_price(fee_bps, price_per_period, periods_to_pay, now),
{
    let total_amount = match price_per_period.checked_mul(periods_to_pay as u64) {
        Some(t) => t,
        None => return Err(BillingError::MathOverflow),
    };
    let fee = platform_fee(total_amount, fee_bps)?;
    Ok(PaymentCharge { amount: total_amount, platform_fee: fee, periods: periods_to_pay, now })
}

/// What `subscribe_at` gives: the refusal, where there is one, else the price.
pub open spec fn spec_subscribe_outcome(
    platform: PlatformConfig,
    plan: &SubscriptionPlan,
    periods_to_pay: u8,
    now: i64,
) -> Result<PaymentCharge, BillingError> {
    match spec_subscription_refusal(plan, periods_to_pay) {
        Some(e) => Err(e),
        None => spec_subscription_price(
            platform.platform_fee_bps,
            plan.price_per_period,
            periods_to_pay,
            now,
        ),
    }
}

/// Opens a subscription at time `now`: checks the plan and the number of periods
/// and prices them. The charge that comes back is what the subscriber pays into
/// the treasury before `settle_subscription` records the subscription.
pub fn subscribe_at(
    platform: &PlatformConfig,
    plan: &SubscriptionPlan,
    periods_to_pay: u8,
    now: i64,
) -> (r: Result<PaymentCharge, BillingError>)
    ensures
        r == spec_subscribe_outcome(*platform, plan, periods_to_pay, now),
{
    check_subscribable(plan, periods_to_pay)?;
    price_subscription(platform.platform_fee_bps, plan.price_per_period, periods_to_pay, now)
}

/// `subscribe_at` at the time the cluster clock gives, read once the plan and
/// the number of periods have passed their checks.
pub fn subscribe(platform: &PlatformConfig, plan: &SubscriptionPlan, periods_to_pay: u8) -> (r:
    Result<PaymentCharge, InstructionError>)
    ensures
        spec_subscription_refusal(plan, periods_to_pay) matches Some(e) ==> r == Err::<
            PaymentCharge,
            InstructionError,
        >(InstructionError::Billing(e)),
        spec_subscription_refusal(plan, periods_to_pay) is None ==> match r {
            Ok(c) => spec_subscription_price(
                platform.platform_fee_bps,
                plan.price_per_period,
                periods_to_pay,
                c.now,
            ) == Ok::<PaymentCharge, BillingError>(c),
            Err(InstructionError::Billing(e)) => e == BillingError::MathOverflow
                && spec_subscription_price_overflows(
                platform.platform_fee_bps,
                plan.price_per_period,
                periods_to_pay,
            ),
            Err(InstructionError::Runtime(_)) => true,
        },
{
    match check_subscribable(plan, periods_to_pay) {
        Ok(()) => {},
        Err(e) => return Err(InstructionError::Billing(e)),
    }
    let now = match clock_unix_timestamp() {
        Ok(now) => now,
        Err(e) => return Err(InstructionError::Runtime(e)),
    };
    match price_subscription(platform.platform_fee_bps, plan.price_per_period, periods_to_pay, now) {
        Ok(c) => Ok(c),
        Err(e) => Err(InstructionError::Billing(e)),
    }
}

/// The first step of recording a paid subscription that overflows, in the
/// order the steps are taken: the expiry, the plan's subscriber count, the plan's
/// share of the payment and its revenue, the platform's subscription count, the
/// platform's revenue.
pub open spec fn spec_settlement_overflows(
    platform: PlatformConfig,
    plan: &SubscriptionPlan,
    charge: PaymentCharge,
) -> bool {
    let extension = spec_extension(charge.periods, plan.period_duration);
    ||| !fits_i64(extension)
    ||| !fits_i64(charge.now + extension)
    ||| !fits_u64(plan.current_subscribers + 1)
    ||| charge.amount < charge.platform_fee
    ||| !fits_u64(plan.total_revenue + (charge.amount - charge.platform_fee))
    ||| !fits_u64(platform.total_subscriptions + 1)
    ||| !fits_u64(platform.total_revenue + charge.platform_fee)
}

/// The subscription that a settled charge opens.
pub open spec fn spec_new_subscription(
    plan: &SubscriptionPlan,
    charge: PaymentCharge,
    user: Pubkey,
    plan_key: Pubkey,
    payment_mint: Pubkey,
    bump: u8,
) -> UserSubscription {
    UserSubscription {
        user,
        plan: plan_key,
        status: SubscriptionStatus::Active,
        subscribed_at: charge.now,
        expires_at: (charge.now + spec_extension(charge.periods, plan.period_duration)) as i64,
        last_payment_at: charge.now,
        total_paid: charge.amount,
        payment_token: payment_mint,
        auto_renew: true,
        periods_paid: charge.periods as u64,
        bump,
    }
}

/// The plan once a paid subscription is counted: one subscriber more, and its
/// share of the payment added to its revenue.
pub open spec fn spec_plan_after_subscription(plan: SubscriptionPlan, charge: PaymentCharge) -> SubscriptionPlan {
    SubscriptionPlan {
        current_subscribers: (plan.current_subscribers + 1) as u64,
        total_revenue: (plan.total_revenue + (charge.amount - charge.platform_fee)) as u64,
        ..plan
    }
}

/// The platform once a paid subscription is counted: one subscription more, and
/// the fee added to its revenue.
pub open spec fn spec_platform_after_subscription(
    platform: PlatformConfig,
    charge: PaymentCharge,
) -> PlatformConfig {
    PlatformConfig {
        total_subscriptions: (platform.total_subscriptions + 1) as u64,
        total_revenue: (platform.total_revenue + charge.platform_fee) as u64,
        ..platform
    }
}

/// Records a subscription whose charge has been paid: opens it, counts the
/// subscriber and the plan's share of the payment on the plan, and the
/// subscription and the platform's fee on the platform. Every step is checked;
/// where one overflows, `MathOverflow` comes back and nothing has changed.
pub fn settle_subscription(
    platform: &mut PlatformConfig,
    plan: &mut SubscriptionPlan,
    charge: &PaymentCharge,
    user: Pubkey,
    plan_key: Pubkey,
    payment_mint: Pubkey,
    bump: u8,
) -> (r: Result<(UserSubscription, SubscriptionCreated), BillingError>)
    ensures
        spec_settlement_overflows(*old(platform), old(plan), *charge) ==> r == Err::<
            (UserSubscription, SubscriptionCreated),
            BillingError,
        >(BillingError::MathOverflow) && *final(platform) == *old(platform) && *final(plan) == *old(
            plan,
        ),
        !spec_settlement_overflows(*old(platform), old(plan), *charge) ==> ({
            let sub = spec_new_subscription(old(plan), *charge, user, plan_key, payment_mint, bump);
            &&& r == Ok::<(UserSubscription, SubscriptionCreated), BillingError>(
                (
                    sub,
                    SubscriptionCreated {
                        user,
                        plan: plan_key,
                        amount_paid: charge.amount,
                        expires_at: sub.expires_at,
                        timestamp: charge.now,
                    },
                ),
            )
            &&& *final(plan) == spec_plan_after_subscription(*old(plan), *charge)
            &&& *final(platform) == spec_platform_after_subscription(*old(platform), *charge)
        }),
{
    let additional_time = match plan.period_duration.checked_mul(charge.periods as i64) {
        Some(t) => t,
        None => return Err(BillingError::MathOverflow),
    };
    let expires_at = match charge.now.checked_add(additional_time) {
        Some(t) => t,
        None => return Err(BillingError::MathOverflow),
    };
    let subscribers = match plan.current_subscribers.checked_add(1) {
        Some(n) => n,
        None => return Err(BillingError::MathOverflow),
    };
    let plan_share = match charge.amount.checked_sub(charge.platform_fee) {
        Some(n) => n,
        None => return Err(BillingError::MathOverflow),
    };
    let plan_revenue = match plan.total_revenue.checked_add(plan_share) {
        Some(n) => n,
        None => return Err(BillingError::MathOverflow),
    };
    let subscriptions = match platform.total_subscriptions.checked_add(1) {
        Some(n) => n,
        None => return Err(BillingError::MathOverflow),
    };
    let platform_revenue = match platform.total_revenue.checked_add(charge.platform_fee) {
        Some(n) => n,
        None => return Err(BillingError::MathOverflow),
    };
    let subscription = UserSubscription {
        user,
        plan: plan_key,
        status: SubscriptionStatus::Active,
        subscribed_at: charge.now,
        expires_at,
        last_payment_at: charge.now,
        total_paid: charge.amount,
        payment_token: payment_mint,
        auto_renew: true,
        periods_paid: charge.periods as u64,
        bump,
    };
    plan.current_subscribers = subscribers;
    plan.total_revenue = plan_revenue;
    platform.total_subscriptions = subscriptions;
    platform.total_revenue = platform_revenue;
    let event = SubscriptionCreated {
        user,
        plan: plan_key,
        amount_paid: charge.amount,
        expires_at,
        timestamp: charge.now,
    };
    Ok((subscription, event))
}

} // verus!
