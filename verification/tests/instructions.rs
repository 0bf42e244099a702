use anchor_lang::solana_program::pubkey::Pubkey;
use subscription_billing::constants::{
    MAX_NAME_LENGTH, MAX_PERIODS_PER_PAYMENT, MAX_PERIOD_DURATION, MAX_PLATFORM_FEE_BPS,
    MIN_PERIOD_DURATION, RENEWAL_WINDOW,
};
use subscription_billing::errors::{BillingError, InstructionError};
use subscription_billing::instructions::cancel_subscription::{
    cancel_subscription, cancel_subscription_at,
};
use subscription_billing::instructions::create_plan::{create_plan, create_plan_at};
use subscription_billing::instructions::initialize_platform::initialize_platform;
use subscription_billing::instructions::process_renewal::{
    process_renewal, process_renewal_at, settle_renewal,
};
use subscription_billing::instructions::subscribe::{settle_subscription, subscribe, subscribe_at};
use subscription_billing::instructions::PaymentCharge;
use subscription_billing::math::platform_fee;
use subscription_billing::state::platform::PlatformConfig;
use subscription_billing::state::subscription_plan::SubscriptionPlan;
use subscription_billing::state::user_subscription::{SubscriptionStatus, UserSubscription};

const DAY: i64 = 86400;
const MONTH: i64 = 2592000;
const NOW: i64 = 1_700_000_000;

fn key(b: u8) -> Pubkey {
    Pubkey::new_from_array([b; 32])
}

fn platform(fee_bps: u16) -> PlatformConfig {
    PlatformConfig {
        admin: key(1),
        platform_fee_bps: fee_bps,
        treasury: key(2),
        total_plans: 0,
        total_subscriptions: 0,
        total_revenue: 0,
        bump: 255,
    }
}

fn plan(price: u64, max: Option<u64>, current: u64) -> SubscriptionPlan {
    SubscriptionPlan {
        plan_id: 7,
        admin: key(1),
        name: String::from("Pro Plan"),
        price_per_period: price,
        period_duration: MONTH,
        max_subscribers: max,
        current_subscribers: current,
        total_revenue: 0,
        active: true,
        created_at: NOW - 1000,
        bump: 254,
    }
}

fn subscription(expires_at: i64) -> UserSubscription {
    UserSubscription {
        user: key(3),
        plan: key(4),
        status: SubscriptionStatus::Active,
        subscribed_at: expires_at - MONTH,
        expires_at,
        last_payment_at: expires_at - MONTH,
        total_paid: 10_000_000,
        payment_token: key(5),
        auto_renew: true,
        periods_paid: 1,
        bump: 253,
    }
}

// ---- initialize_platform ----

#[test]
fn initialize_platform_accepts_fee_up_to_cap() {
    let p = initialize_platform(250, key(1), key(2), 9).unwrap();
    assert_eq!(p.admin, key(1));
    assert_eq!(p.platform_fee_bps, 250);
    assert_eq!(p.treasury, key(2));
    assert_eq!(p.total_plans, 0);
    assert_eq!(p.total_subscriptions, 0);
    assert_eq!(p.total_revenue, 0);
    assert_eq!(p.bump, 9);
    assert!(initialize_platform(0, key(1), key(2), 9).is_ok());
    assert_eq!(
        initialize_platform(MAX_PLATFORM_FEE_BPS, key(1), key(2), 9).unwrap().platform_fee_bps,
        1000
    );
}

#[test]
fn initialize_platform_rejects_fee_over_cap() {
    assert_eq!(
        initialize_platform(1001, key(1), key(2), 9).unwrap_err(),
        BillingError::InvalidPlatformFee
    );
    assert_eq!(
        initialize_platform(u16::MAX, key(1), key(2), 9).unwrap_err(),
        BillingError::InvalidPlatformFee
    );
}

// ---- plan names ----

#[test]
fn validate_name_bounds_in_characters() {
    assert_eq!(
        SubscriptionPlan::validate_name(""),
        Err(BillingError::InvalidPlanName)
    );
    assert_eq!(SubscriptionPlan::validate_name("Pro Plan"), Ok(()));
    let fifty = "a".repeat(MAX_NAME_LENGTH);
    assert_eq!(SubscriptionPlan::validate_name(&fifty), Ok(()));
    let fifty_one = "a".repeat(51);
    assert_eq!(
        SubscriptionPlan::validate_name(&fifty_one),
        Err(BillingError::InvalidPlanName)
    );
    // Characters are counted, not bytes: 26 two-byte characters are 26 characters.
    assert_eq!(SubscriptionPlan::validate_name(&"é".repeat(26)), Ok(()));
    assert_eq!(SubscriptionPlan::validate_name(&"é".repeat(50)), Ok(()));
    assert_eq!(SubscriptionPlan::validate_name(&"🎵".repeat(50)), Ok(()));
    assert_eq!(
        SubscriptionPlan::validate_name(&"é".repeat(51)),
        Err(BillingError::InvalidPlanName)
    );
}

#[test]
fn is_at_capacity_cases() {
    assert!(!plan(1, None, u64::MAX).is_at_capacity());
    assert!(!plan(1, Some(10), 9).is_at_capacity());
    assert!(plan(1, Some(10), 10).is_at_capacity());
    assert!(plan(1, Some(10), 11).is_at_capacity());
    assert!(plan(1, Some(0), 0).is_at_capacity());
}

// ---- create_plan ----

#[test]
fn create_plan_at_builds_plan_and_counts_it() {
    let mut p = platform(250);
    let (created, event) = create_plan_at(
        &mut p,
        42,
        key(1),
        String::from("Pro Plan"),
        10_000_000,
        MONTH,
        Some(100),
        200,
        NOW,
    )
    .unwrap();
    assert_eq!(created.plan_id, 42);
    assert_eq!(created.admin, key(1));
    assert_eq!(created.name, "Pro Plan");
    assert_eq!(created.price_per_period, 10_000_000);
    assert_eq!(created.period_duration, MONTH);
    assert_eq!(created.max_subscribers, Some(100));
    assert_eq!(created.current_subscribers, 0);
    assert_eq!(created.total_revenue, 0);
    assert!(created.active);
    assert_eq!(created.created_at, NOW);
    assert_eq!(created.bump, 200);
    assert_eq!(event.plan_id, 42);
    assert_eq!(event.name, "Pro Plan");
    assert_eq!(event.timestamp, NOW);
    assert_eq!(event.price_per_period, 10_000_000);
    assert_eq!(event.period_duration, MONTH);
    assert_eq!(p.total_plans, 1);
}

#[test]
fn create_plan_at_checks_terms_in_order() {
    let mut p = platform(250);
    let r = create_plan_at(&mut p, 1, key(1), String::new(), 0, 0, None, 1, NOW);
    assert_eq!(r.unwrap_err(), BillingError::InvalidPlanName);
    let r = create_plan_at(&mut p, 1, key(1), String::from("A"), 0, 0, None, 1, NOW);
    assert_eq!(r.unwrap_err(), BillingError::InvalidPaymentAmount);
    let r = create_plan_at(&mut p, 1, key(1), String::from("A"), 1, MIN_PERIOD_DURATION - 1, None, 1, NOW);
    assert_eq!(r.unwrap_err(), BillingError::InvalidPeriodDuration);
    let r = create_plan_at(&mut p, 1, key(1), String::from("A"), 1, MAX_PERIOD_DURATION + 1, None, 1, NOW);
    assert_eq!(r.unwrap_err(), BillingError::InvalidPeriodDuration);
    assert!(create_plan_at(&mut p, 1, key(1), String::from("A"), 1, MIN_PERIOD_DURATION, None, 1, NOW).is_ok());
    assert!(create_plan_at(&mut p, 2, key(1), String::from("A"), 1, MAX_PERIOD_DURATION, None, 1, NOW).is_ok());
    assert_eq!(p.total_plans, 2);
}

#[test]
fn create_plan_at_overflowing_plan_count() {
    let mut p = platform(250);
    p.total_plans = u64::MAX;
    let r = create_plan_at(&mut p, 1, key(1), String::from("A"), 1, MONTH, None, 1, NOW);
    assert_eq!(r.unwrap_err(), BillingError::MathOverflow);
    assert_eq!(p.total_plans, u64::MAX);
}

#[test]
fn create_plan_off_chain_reports_the_clock() {
    let mut p = platform(250);
    let r = create_plan(&mut p, 1, key(1), String::from("A"), 1, MONTH, None, 1);
    assert!(matches!(r, Err(InstructionError::Runtime(_))));
    assert_eq!(p.total_plans, 0);
    let r = create_plan(&mut p, 1, key(1), String::new(), 1, MONTH, None, 1);
    assert!(matches!(
        r,
        Err(InstructionError::Billing(BillingError::InvalidPlanName))
    ));
}

// ---- subscribe ----

#[test]
fn subscribe_at_prices_the_periods() {
    let c = subscribe_at(&platform(250), &plan(10_000_000, None, 0), 3, NOW).unwrap();
    assert_eq!(
        c,
        PaymentCharge { amount: 30_000_000, platform_fee: 750_000, periods: 3, now: NOW }
    );
    let c = subscribe_at(&platform(333), &plan(7, None, 0), 1, NOW).unwrap();
    // 7 * 333 / 10000 rounds down to 0.
    assert_eq!(c.platform_fee, 0);
}

#[test]
fn subscribe_at_refusals() {
    let p = platform(250);
    let mut inactive = plan(10, None, 0);
    inactive.active = false;
    assert_eq!(subscribe_at(&p, &inactive, 1, NOW).unwrap_err(), BillingError::PlanNotActive);
    assert_eq!(
        subscribe_at(&p, &plan(10, Some(5), 5), 1, NOW).unwrap_err(),
        BillingError::PlanAtCapacity
    );
    assert_eq!(subscribe_at(&p, &plan(10, None, 0), 0, NOW).unwrap_err(), BillingError::InvalidPeriods);
    assert_eq!(
        subscribe_at(&p, &plan(10, None, 0), MAX_PERIODS_PER_PAYMENT + 1, NOW).unwrap_err(),
        BillingError::InvalidPeriods
    );
    assert!(subscribe_at(&p, &plan(10, None, 0), MAX_PERIODS_PER_PAYMENT, NOW).is_ok());
    // an inactive plan at capacity reports that it is inactive
    let mut both = plan(10, Some(1), 1);
    both.active = false;
    assert_eq!(subscribe_at(&p, &both, 0, NOW).unwrap_err(), BillingError::PlanNotActive);
}

#[test]
fn subscribe_at_overflows() {
    assert_eq!(
        subscribe_at(&platform(250), &plan(u64::MAX, None, 0), 2, NOW).unwrap_err(),
        BillingError::MathOverflow
    );
    assert_eq!(
        subscribe_at(&platform(250), &plan(u64::MAX / 2, None, 0), 1, NOW).unwrap_err(),
        BillingError::MathOverflow
    );
}

#[test]
fn subscribe_off_chain_reports_the_clock() {
    let r = subscribe(&platform(250), &plan(10, None, 0), 1);
    assert!(matches!(r, Err(InstructionError::Runtime(_))));
    let r = subscribe(&platform(250), &plan(10, None, 0), 0);
    assert!(matches!(r, Err(InstructionError::Billing(BillingError::InvalidPeriods))));
}

#[test]
fn settle_subscription_records_everything() {
    let mut p = platform(250);
    let mut pl = plan(10_000_000, Some(100), 4);
    let charge = subscribe_at(&p, &pl, 3, NOW).unwrap();
    let (sub, event) = settle_subscription(&mut p, &mut pl, &charge, key(3), key(4), key(5), 77).unwrap();
    assert_eq!(sub.user, key(3));
    assert_eq!(sub.plan, key(4));
    assert_eq!(sub.status, SubscriptionStatus::Active);
    assert_eq!(sub.subscribed_at, NOW);
    assert_eq!(sub.expires_at, NOW + 3 * MONTH);
    assert_eq!(sub.last_payment_at, NOW);
    assert_eq!(sub.total_paid, 30_000_000);
    assert_eq!(sub.payment_token, key(5));
    assert!(sub.auto_renew);
    assert_eq!(sub.periods_paid, 3);
    assert_eq!(sub.bump, 77);
    assert_eq!(pl.current_subscribers, 5);
    assert_eq!(pl.total_revenue, 29_250_000);
    assert_eq!(p.total_subscriptions, 1);
    assert_eq!(p.total_revenue, 750_000);
    assert_eq!(event.user, key(3));
    assert_eq!(event.plan, key(4));
    assert_eq!(event.amount_paid, 30_000_000);
    assert_eq!(event.expires_at, NOW + 3 * MONTH);
    assert_eq!(event.timestamp, NOW);
}

#[test]
fn settle_subscription_overflow_changes_nothing() {
    let mut p = platform(250);
    p.total_revenue = u64::MAX;
    let mut pl = plan(10_000_000, None, 4);
    let charge = subscribe_at(&p, &pl, 1, NOW).unwrap();
    let r = settle_subscription(&mut p, &mut pl, &charge, key(3), key(4), key(5), 77);
    assert_eq!(r.unwrap_err(), BillingError::MathOverflow);
    assert_eq!(pl.current_subscribers, 4);
    assert_eq!(pl.total_revenue, 0);
    assert_eq!(p.total_subscriptions, 0);
    assert_eq!(p.total_revenue, u64::MAX);

    let mut p = platform(250);
    let mut pl = plan(10, None, 0);
    let late = PaymentCharge { amount: 10, platform_fee: 0, periods: 1, now: i64::MAX };
    assert_eq!(
        settle_subscription(&mut p, &mut pl, &late, key(3), key(4), key(5), 1).unwrap_err(),
        BillingError::MathOverflow
    );
    let fee_too_big = PaymentCharge { amount: 10, platform_fee: 11, periods: 1, now: NOW };
    assert_eq!(
        settle_subscription(&mut p, &mut pl, &fee_too_big, key(3), key(4), key(5), 1).unwrap_err(),
        BillingError::MathOverflow
    );
    assert_eq!(pl.current_subscribers, 0);
}

// ---- renewal ----

#[test]
fn process_renewal_at_window() {
    let p = platform(250);
    let pl = plan(10_000_000, None, 1);
    let s = subscription(NOW + 2 * DAY);
    assert_eq!(
        process_renewal_at(&p, &pl, &s, NOW).unwrap_err(),
        BillingError::SubscriptionNotActive
    );
    let c = process_renewal_at(&p, &pl, &s, NOW + 2 * DAY - RENEWAL_WINDOW).unwrap();
    assert_eq!(
        c,
        PaymentCharge { amount: 10_000_000, platform_fee: 250_000, periods: 1, now: NOW + DAY }
    );
    assert_eq!(
        process_renewal_at(&p, &pl, &s, NOW + DAY - 1).unwrap_err(),
        BillingError::SubscriptionNotActive
    );
    // long past expiry it can still be renewed
    assert!(process_renewal_at(&p, &pl, &s, NOW + 100 * DAY).is_ok());
}

#[test]
fn process_renewal_at_refuses_without_auto_renew() {
    let mut s = subscription(NOW);
    s.auto_renew = false;
    assert_eq!(
        process_renewal_at(&platform(250), &plan(10, None, 1), &s, NOW).unwrap_err(),
        BillingError::SubscriptionNotActive
    );
}

#[test]
fn process_renewal_at_refuses_non_renewing_at_earliest_expiry() {
    let mut s = subscription(i64::MIN);
    s.auto_renew = false;
    assert_eq!(
        process_renewal_at(&platform(250), &plan(10, None, 1), &s, NOW).unwrap_err(),
        BillingError::SubscriptionNotActive
    );
    let r = process_renewal(&platform(250), &plan(10, None, 1), &s);
    assert!(matches!(
        r,
        Err(InstructionError::Billing(BillingError::SubscriptionNotActive))
    ));
}

#[test]
fn process_renewal_at_fee_overflow() {
    assert_eq!(
        process_renewal_at(&platform(250), &plan(u64::MAX, None, 1), &subscription(NOW), NOW).unwrap_err(),
        BillingError::MathOverflow
    );
}

#[test]
fn process_renewal_off_chain_reports_the_clock() {
    let r = process_renewal(&platform(250), &plan(10, None, 1), &subscription(NOW));
    assert!(matches!(r, Err(InstructionError::Runtime(_))));
    let mut s = subscription(NOW);
    s.auto_renew = false;
    let r = process_renewal(&platform(250), &plan(10, None, 1), &s);
    assert!(matches!(
        r,
        Err(InstructionError::Billing(BillingError::SubscriptionNotActive))
    ));
}

#[test]
fn settle_renewal_extends_one_period() {
    let mut p = platform(250);
    let mut pl = plan(10_000_000, None, 1);
    let mut s = subscription(NOW);
    s.status = SubscriptionStatus::Expired;
    let c = process_renewal_at(&p, &pl, &s, NOW + 5).unwrap();
    let event = settle_renewal(&mut p, &mut pl, &mut s, &c, key(4)).unwrap();
    assert_eq!(s.expires_at, NOW + MONTH);
    assert_eq!(s.total_paid, 20_000_000);
    assert_eq!(s.periods_paid, 2);
    assert_eq!(s.last_payment_at, NOW + 5);
    assert_eq!(s.status, SubscriptionStatus::Active);
    assert_eq!(pl.total_revenue, 9_750_000);
    assert_eq!(p.total_revenue, 250_000);
    assert_eq!(event.user, key(3));
    assert_eq!(event.plan, key(4));
    assert_eq!(event.amount_paid, 10_000_000);
    assert_eq!(event.new_expiry, NOW + MONTH);
    assert_eq!(event.timestamp, NOW + 5);
}

#[test]
fn settle_renewal_overflow_changes_nothing() {
    let mut p = platform(250);
    let mut pl = plan(10_000_000, None, 1);
    pl.total_revenue = u64::MAX;
    let mut s = subscription(NOW);
    let before = s;
    let c = process_renewal_at(&p, &pl, &s, NOW).unwrap();
    assert_eq!(
        settle_renewal(&mut p, &mut pl, &mut s, &c, key(4)).unwrap_err(),
        BillingError::MathOverflow
    );
    assert_eq!(s.expires_at, before.expires_at);
    assert_eq!(s.total_paid, before.total_paid);
    assert_eq!(s.periods_paid, before.periods_paid);
    assert_eq!(pl.total_revenue, u64::MAX);
    assert_eq!(p.total_revenue, 0);
}

// ---- cancel ----

#[test]
fn cancel_subscription_at_cancels_once() {
    let mut pl = plan(10, None, 3);
    let mut s = subscription(NOW);
    let event = cancel_subscription_at(&mut pl, &mut s, key(4), NOW).unwrap();
    assert_eq!(s.status, SubscriptionStatus::Cancelled);
    assert!(!s.auto_renew);
    assert_eq!(pl.current_subscribers, 2);
    assert_eq!(event.user, key(3));
    assert_eq!(event.plan, key(4));
    assert_eq!(event.timestamp, NOW);
    assert_eq!(
        cancel_subscription_at(&mut pl, &mut s, key(4), NOW).unwrap_err(),
        BillingError::AlreadyCancelled
    );
    assert_eq!(pl.current_subscribers, 2);
}

#[test]
fn cancel_subscription_at_count_stops_at_zero() {
    let mut pl = plan(10, None, 0);
    let mut s = subscription(NOW);
    s.status = SubscriptionStatus::Expired;
    assert!(cancel_subscription_at(&mut pl, &mut s, key(4), NOW).is_ok());
    assert_eq!(pl.current_subscribers, 0);
    assert_eq!(s.status, SubscriptionStatus::Cancelled);
}

#[test]
fn cancel_subscription_off_chain_changes_nothing() {
    let mut pl = plan(10, None, 3);
    let mut s = subscription(NOW);
    let r = cancel_subscription(&mut pl, &mut s, key(4));
    assert!(matches!(r, Err(InstructionError::Runtime(_))));
    assert_eq!(s.status, SubscriptionStatus::Active);
    assert!(s.auto_renew);
    assert_eq!(pl.current_subscribers, 3);
    s.status = SubscriptionStatus::Cancelled;
    let r = cancel_subscription(&mut pl, &mut s, key(4));
    assert!(matches!(
        r,
        Err(InstructionError::Billing(BillingError::AlreadyCancelled))
    ));
}

// ---- the fee ----

#[test]
fn platform_fee_exact_values() {
    assert_eq!(platform_fee(10_000, 1000), Ok(1000));
    assert_eq!(platform_fee(9_999, 1), Ok(0));
    assert_eq!(platform_fee(123_456_789, 250), Ok(3_086_419));
    assert_eq!(platform_fee(0, 1000), Ok(0));
    assert_eq!(platform_fee(u64::MAX, 2), Err(BillingError::MathOverflow));
    assert_eq!(platform_fee(u64::MAX, 1), Ok(u64::MAX / 10_000));
}
