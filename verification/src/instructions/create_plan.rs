use vstd::prelude::*;
use anchor_lang::solana_program::pubkey::Pubkey;
use crate::constants::{MAX_PERIOD_DURATION, MIN_PERIOD_DURATION};
use crate::errors::{BillingError, InstructionError};
use crate::events::PlanCreated;
use crate::math::fits_u64;
use crate::runtime::clock_unix_timestamp;
use crate::state::platform::PlatformConfig;
use crate::state::subscription_plan::{spec_valid_name, SubscriptionPlan};

verus! {

/// The first rule that the terms of a new plan break, in the order they are
/// checked: the name, the price, the period length.
pub open spec fn spec_plan_terms_error(name: Seq<char>, price_per_period: u64, period_duration: i64) -> Option<
    BillingError,
> {
    if !spec_valid_name(name) {
        Some(BillingError::InvalidPlanName)
    } else if price_per_period == 0 {
        Some(BillingError::InvalidPaymentAmount)
    } else if !(MIN_PERIOD_DURATION <= period_duration <= MAX_PERIOD_DURATION) {
        Some(BillingError::InvalidPeriodDuration)
    } else {
        None
    }
}

/// `plan` and `event` are the new plan and its report, made at time `now`.
pub open spec fn spec_plan_created(
    plan: SubscriptionPlan,
    event: PlanCreated,
    plan_id: u64,
    admin: Pubkey,
    name: Seq<char>,
    price_per_period: u64,
    period_duration: i64,
    max_subscribers: Option<u64>,
    bump: u8,
    now: i64,
) -> bool {
    &&& plan.plan_id == plan_id
    &&& plan.admin == admin
    &&& plan.name@ == name
    &&& plan.price_per_period == price_per_period
    &&& plan.period_duration == period_duration
    &&& plan.max_subscribers == max_subscribers
    &&& plan.current_subscribers == 0
    &&& plan.total_revenue == 0
    &&& plan.active
    &&& plan.created_at == now
    &&& plan.bump == bump
    &&& event.plan_id == plan_id
    &&& event.admin == admin
    &&& event.name@ == name
    &&& event.price_per_period == price_per_period
    &&& event.period_duration == period_duration
    &&& event.timestamp == now
}

/// The platform after one more plan was counted.
pub open spec fn spec_platform_with_plan(p: PlatformConfig) -> PlatformConfig {
    PlatformConfig { total_plans: (p.total_plans + 1) as u64, ..p }
}

fn validate_plan_terms(name: &str, price_per_period: u64, period_duration: i64) -> (r: Result<
    (),
    BillingError,
>)
    ensures
        match spec_plan_terms_error(name@, price_per_period, period_duration) {
            Some(e) => r == Err::<(), BillingError>(e),
            None => r is Ok,
        },
{
    SubscriptionPlan::validate_name(name)?;
    if price_per_period == 0 {
        return Err(BillingError::InvalidPaymentAmount);
    }
    if !(period_duration >= MIN_PERIOD_DURATION && period_duration <= MAX_PERIOD_DURATION) {
        return Err(BillingError::InvalidPeriodDuration);
    }
    Ok(())
}

/// Creates a plan at time `now` and counts it on the platform. The terms are
/// checked first (name, then price, then period length); then the plan count must
/// not overflow. On an error the platform is left as it was.
pub fn create_plan_at(
    platform: &mut PlatformConfig,
    plan_id: u64,
    admin: Pubkey,
    name: String,
    price_per_period: u64,
    period_duration: i64,
    max_subscribers: Option<u64>,
    bump: u8,
    now: i64,
) -> (r: Result<(SubscriptionPlan, PlanCreated), BillingError>)
    ensures
        spec_plan_terms_error(name@, price_per_period, period_duration) matches Some(e)
            ==> r == Err::<(SubscriptionPlan, PlanCreated), BillingError>(e) && *final(platform)
            == *old(platform),
        spec_plan_terms_error(name@, price_per_period, period_duration) is None && !fits_u64(
            old(platform).total_plans + 1,
        ) ==> r == Err::<(SubscriptionPlan, PlanCreated), BillingError>(BillingError::MathOverflow)
            && *final(platform) == *old(platform),
        spec_plan_terms_error(name@, price_per_period, period_duration) is None && fits_u64(
            old(platform).total_plans + 1,
        ) ==> (r matches Ok((plan, event)) && spec_plan_created(
            plan,
            event,
            plan_id,
            admin,
            name@,
            price_per_period,
            period_duration,
            max_subscribers,
            bump,
            now,
        ) && *final(platform) == spec_platform_with_plan(*old(platform))),
{
    validate_plan_terms(name.as_str(), price_per_period, period_duration)?;
    let total_plans = match platform.total_plans.checked_add(1) {
        Some(n) => n,
        None => return Err(BillingError::MathOverflow),
    };
    let event_name = name.clone();
    let plan = SubscriptionPlan {
        plan_id,
        admin,
        name,
        price_per_period,
        period_duration,
        max_subscribers,
        current_subscribers: 0,
        total_revenue: 0,
        active: true,
        created_at: now,
        bump,
    };
    platform.total_plans = total_plans;
    let event = PlanCreated {
        plan_id,
        admin,
        name: event_name,
        price_per_period,
        period_duration,
        timestamp: now,
    };
    Ok((plan, event))
}

/// Creates a plan stamped with the cluster clock, which is read once the terms
/// have passed their checks; where it cannot be read, the runtime's error comes
/// back and the platform is left as it was.
pub fn create_plan(
    platform: &mut PlatformConfig,
    plan_id: u64,
    admin: Pubkey,
    name: String,
    price_per_period: u64,
    period_duration: i64,
    max_subscribers: Option<u64>,
    bump: u8,
) -> (r: Result<(SubscriptionPlan, PlanCreated), InstructionError>)
    ensures
        spec_plan_terms_error(name@, price_per_period, period_duration) matches Some(e)
            ==> r == Err::<(SubscriptionPlan, PlanCreated), InstructionError>(
            InstructionError::Billing(e),
        ) && *final(platform) == *old(platform),
        r matches Err(InstructionError::Runtime(_)) ==> *final(platform) == *old(platform),
        spec_plan_terms_error(name@, price_per_period, period_duration) is None && !fits_u64(
            old(platform).total_plans + 1,
        ) ==> (r == Err::<(SubscriptionPlan, PlanCreated), InstructionError>(
            InstructionError::Billing(BillingError::MathOverflow),
        ) || r matches Err(InstructionError::Runtime(_))) && *final(platform) == *old(platform),
        spec_plan_terms_error(name@, price_per_period, period_duration) is None && fits_u64(
            old(platform).total_plans + 1,
        ) ==> (r matches Ok((plan, event)) && spec_plan_created(
            plan,
            event,
            plan_id,
            admin,
            name@,
            price_per_period,
            period_duration,
            max_subscribers,
            bump,
            plan.created_at,
        ) && *final(platform) == spec_platform_with_plan(*old(platform))) || r matches Err(
            InstructionError::Runtime(_),
        ),
{
    match validate_plan_terms(name.as_str(), price_per_period, period_duration) {
        Ok(()) => {},
        Err(e) => return Err(InstructionError::Billing(e)),
    }
    let now = match clock_unix_timestamp() {
        Ok(now) => now,
        Err(e) => return Err(InstructionError::Runtime(e)),
    };
    match create_plan_at(
        platform,
        plan_id,
        admin,
        name,
        price_per_period,
        period_duration,
        max_subscribers,
        bump,
        now,
    ) {
        Ok(created) => Ok(created),
        Err(e) => Err(InstructionError::Billing(e)),
    }
}

} // verus!
