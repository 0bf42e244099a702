use anchor_lang::solana_program::pubkey::Pubkey;
use subscription_billing::errors::BillingError;
use subscription_billing::instructions::cancel_subscription::cancel_subscription_at;
use subscription_billing::instructions::process_renewal::{process_renewal_at, settle_renewal};
use subscription_billing::instructions::subscribe::{settle_subscription, subscribe_at};
use subscription_billing::state::platform::PlatformConfig;
use subscription_billing::state::subscription_plan::SubscriptionPlan;
use subscription_billing::state::user_subscription::SubscriptionStatus;

const NOW: i64 = 1_700_000_000;
const MONTH: i64 = 2592000;

fn key(b: u8) -> Pubkey {
    Pubkey::new_from_array([b; 32])
}

fn platform(fee_bps: u16) -> PlatformConfig {
    PlatformConfig {
        admin: key(1),
        platform_fee_bps: fee_bps,
        treasury: key(2),
        total_plans: 1,
        total_subscriptions: 10,
        total_revenue: 1_000,
        bump: 255,
    }
}

fn plan(price: u64, max: Option<u64>, current: u64) -> SubscriptionPlan {
    SubscriptionPlan {
        plan_id: 1,
        admin: key(1),
        name: String::from("Basic"),
        price_per_period: price,
        period_duration: MONTH,
        max_subscribers: max,
        current_subscribers: current,
        total_revenue: 5_000,
        active: true,
        created_at: 0,
        bump: 254,
    }
}

#[test]
fn law_fee_within_cap_example() {
    let c = subscribe_at(&platform(1000), &plan(999_999, None, 0), 7, NOW).unwrap();
    assert_eq!(c.amount, 6_999_993);
    assert_eq!(c.platform_fee, 699_999);
    assert!(c.platform_fee * 10 <= c.amount);
}

#[test]
fn law_payment_split_examples() {
    let mut p = platform(250);
    let mut pl = plan(12_345, None, 0);
    let c = subscribe_at(&p, &pl, 2, NOW).unwrap();
    let (mut s, _) = settle_subscription(&mut p, &mut pl, &c, key(3), key(4), key(5), 1).unwrap();
    assert_eq!((pl.total_revenue - 5_000) + (p.total_revenue - 1_000), 24_690);

    let (plan_before, platform_before) = (pl.total_revenue, p.total_revenue);
    let r = process_renewal_at(&p, &pl, &s, s.expires_at).unwrap();
    settle_renewal(&mut p, &mut pl, &mut s, &r, key(4)).unwrap();
    assert_eq!(
        (pl.total_revenue - plan_before) + (p.total_revenue - platform_before),
        12_345
    );
}

#[test]
fn law_subscriber_limit_kept_example() {
    let mut p = platform(250);
    let mut pl = plan(10, Some(2), 1);
    let c = subscribe_at(&p, &pl, 1, NOW).unwrap();
    settle_subscription(&mut p, &mut pl, &c, key(3), key(4), key(5), 1).unwrap();
    assert_eq!(pl.current_subscribers, 2);
    assert_eq!(
        subscribe_at(&p, &pl, 1, NOW).unwrap_err(),
        BillingError::PlanAtCapacity
    );
}

#[test]
fn law_cancel_undoes_subscribe_count_example() {
    let mut p = platform(250);
    let mut pl = plan(10, None, 6);
    let c = subscribe_at(&p, &pl, 1, NOW).unwrap();
    let (mut s, _) = settle_subscription(&mut p, &mut pl, &c, key(3), key(4), key(5), 1).unwrap();
    assert_eq!(pl.current_subscribers, 7);
    cancel_subscription_at(&mut pl, &mut s, key(4), NOW + 1).unwrap();
    assert_eq!(pl.current_subscribers, 6);
}

#[test]
fn law_cancellation_is_final_example() {
    let mut p = platform(250);
    let mut pl = plan(10, None, 0);
    let c = subscribe_at(&p, &pl, 1, NOW).unwrap();
    let (mut s, _) = settle_subscription(&mut p, &mut pl, &c, key(3), key(4), key(5), 1).unwrap();
    cancel_subscription_at(&mut pl, &mut s, key(4), NOW).unwrap();
    assert_eq!(
        cancel_subscription_at(&mut pl, &mut s, key(4), NOW).unwrap_err(),
        BillingError::AlreadyCancelled
    );
    assert_eq!(
        process_renewal_at(&p, &pl, &s, s.expires_at).unwrap_err(),
        BillingError::SubscriptionNotActive
    );
}

#[test]
fn law_renewal_extends_one_period_example() {
    let mut p = platform(0);
    let mut pl = plan(500, None, 0);
    let c = subscribe_at(&p, &pl, 4, NOW).unwrap();
    let (mut s, _) = settle_subscription(&mut p, &mut pl, &c, key(3), key(4), key(5), 1).unwrap();
    let expiry = s.expires_at;
    let r = process_renewal_at(&p, &pl, &s, expiry - 10).unwrap();
    settle_renewal(&mut p, &mut pl, &mut s, &r, key(4)).unwrap();
    assert_eq!(s.expires_at, expiry + MONTH);
    assert_eq!(s.total_paid, 2_500);
    assert_eq!(s.periods_paid, 5);
    assert_eq!(s.status, SubscriptionStatus::Active);
    assert_eq!(s.last_payment_at, expiry - 10);
}

#[test]
fn law_active_excludes_expired_example() {
    let mut p = platform(0);
    let mut pl = plan(500, None, 0);
    let c = subscribe_at(&p, &pl, 1, NOW).unwrap();
    let (s, _) = settle_subscription(&mut p, &mut pl, &c, key(3), key(4), key(5), 1).unwrap();
    for t in [NOW, NOW + MONTH, NOW + MONTH + 1] {
        assert_eq!(s.is_active_at(t), !s.is_expired_at(t));
    }
}

#[test]
fn law_subscription_covers_paid_time_example() {
    let mut p = platform(0);
    let mut pl = plan(500, None, 0);
    let c = subscribe_at(&p, &pl, 3, NOW).unwrap();
    let (s, _) = settle_subscription(&mut p, &mut pl, &c, key(3), key(4), key(5), 1).unwrap();
    assert_eq!(s.expires_at, NOW + 3 * MONTH);
    assert!(s.is_active_at(NOW));
    assert!(s.is_active_at(NOW + 3 * MONTH));
    assert!(!s.is_active_at(NOW + 3 * MONTH + 1));
}

#[test]
fn law_subscriber_count_matches_live_subscriptions_example() {
    let mut p = platform(250);
    let mut pl = plan(10, None, 0);
    let mut subs = Vec::new();
    for user in 0..3u8 {
        let c = subscribe_at(&p, &pl, 1, NOW).unwrap();
        let (s, _) = settle_subscription(&mut p, &mut pl, &c, key(10 + user), key(4), key(5), 1).unwrap();
        subs.push(s);
    }
    let live = |subs: &Vec<subscription_billing::state::user_subscription::UserSubscription>| {
        subs.iter().filter(|s| s.status != SubscriptionStatus::Cancelled).count() as u64
    };
    assert_eq!(pl.current_subscribers, live(&subs));
    cancel_subscription_at(&mut pl, &mut subs[1], key(4), NOW + 1).unwrap();
    assert_eq!(pl.current_subscribers, live(&subs));
    let r = process_renewal_at(&p, &pl, &subs[0], subs[0].expires_at).unwrap();
    settle_renewal(&mut p, &mut pl, &mut subs[0], &r, key(4)).unwrap();
    assert_eq!(pl.current_subscribers, live(&subs));
    assert!(cancel_subscription_at(&mut pl, &mut subs[1], key(4), NOW + 2).is_err());
    assert_eq!(pl.current_subscribers, 2);
    assert_eq!(pl.current_subscribers, live(&subs));
}
