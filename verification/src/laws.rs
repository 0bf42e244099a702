use vstd::prelude::*;
use anchor_lang::solana_program::pubkey::Pubkey;
use crate::constants::{BPS_DENOMINATOR, MAX_PLATFORM_FEE_BPS, MIN_PERIOD_DURATION, RENEWAL_WINDOW};
use crate::errors::BillingError;
use crate::instructions::cancel_subscription::{
    spec_cancel_outcome,
    spec_cancelled,
    spec_plan_without_subscriber,
};
use crate::instructions::process_renewal::{
    spec_plan_after_renewal,
    spec_platform_after_renewal,
    spec_renewal_outcome,
    spec_renewal_overflows,
    spec_renewal_price,
};
use crate::instructions::subscribe::{
    spec_new_subscription,
    spec_plan_after_subscription,
    spec_platform_after_subscription,
    spec_settlement_overflows,
    spec_subscribe_outcome,
    spec_subscription_price,
};
use crate::instructions::PaymentCharge;
use crate::instructions::create_plan::spec_plan_created;
use crate::events::PlanCreated;
use crate::math::{fits_i64, fits_u64, spec_platform_fee};
use crate::state::platform::PlatformConfig;
use crate::state::subscription_plan::SubscriptionPlan;
use crate::state::user_subscription::{spec_extension, SubscriptionStatus, UserSubscription};

verus! {

proof fn lemma_fee_cap(amount: int, bps: int)
    requires
        0 <= amount,
        0 <= bps <= MAX_PLATFORM_FEE_BPS,
    ensures
        0 <= spec_platform_fee(amount, bps),
        spec_platform_fee(amount, bps) * BPS_DENOMINATOR <= amount * MAX_PLATFORM_FEE_BPS,
{
    let p = amount * bps;
    assert(0 <= p <= amount * 1000) by (nonlinear_arith)
        requires
            0 <= amount,
            0 <= bps <= 1000,
            p == amount * bps,
    ;
    assert(0 <= p / 10000 && (p / 10000) * 10000 <= p) by (nonlinear_arith)
        requires
            0 <= p,
    ;
}

/// Under a fee that `initialize_platform` accepts, the platform never takes more
/// than its cap (1000 basis points, a tenth) of what a subscription or a renewal
/// charges, so the plan's share is never negative.
pub proof fn law_fee_within_cap(fee_bps: u16, price_per_period: u64, periods_to_pay: u8, now: i64)
    requires
        fee_bps <= MAX_PLATFORM_FEE_BPS,
    ensures
        spec_subscription_price(fee_bps, price_per_period, periods_to_pay, now) matches Ok(c) ==> c.platform_fee
            * BPS_DENOMINATOR <= c.amount * MAX_PLATFORM_FEE_BPS && c.platform_fee <= c.amount,
        spec_renewal_price(fee_bps, price_per_period, now) matches Ok(c) ==> c.platform_fee
            * BPS_DENOMINATOR <= c.amount * MAX_PLATFORM_FEE_BPS && c.platform_fee <= c.amount,
{
    lemma_fee_cap(price_per_period * periods_to_pay, fee_bps as int);
    lemma_fee_cap(price_per_period as int, fee_bps as int);
}

/// Every payment that a subscription records is split without loss: what the
/// plan's revenue gains and what the platform's revenue gains add up to the
/// amount paid.
pub proof fn law_subscription_payment_split(
    platform: PlatformConfig,
    plan: SubscriptionPlan,
    charge: PaymentCharge,
)
    requires
        !spec_settlement_overflows(platform, &plan, charge),
    ensures
        (spec_plan_after_subscription(plan, charge).total_revenue - plan.total_revenue) + (
        spec_platform_after_subscription(platform, charge).total_revenue - platform.total_revenue)
            == charge.amount,
{
}

/// Every payment that a renewal records is split without loss between the plan's
/// revenue and the platform's revenue.
pub proof fn law_renewal_payment_split(
    platform: PlatformConfig,
    plan: SubscriptionPlan,
    subscription: UserSubscription,
    charge: PaymentCharge,
)
    requires
        !spec_renewal_overflows(platform, &plan, subscription, charge),
    ensures
        (spec_plan_after_renewal(plan, charge).total_revenue - plan.total_revenue) + (
        spec_platform_after_renewal(platform, charge).total_revenue - platform.total_revenue)
            == charge.amount,
{
}

/// A plan with a subscriber limit never goes over it by a subscription: a
/// subscription is only priced below the limit, and recording it adds one.
pub proof fn law_subscriber_limit_kept(
    platform: PlatformConfig,
    plan: SubscriptionPlan,
    periods_to_pay: u8,
    now: i64,
    charge: PaymentCharge,
)
    requires
        spec_subscribe_outcome(platform, &plan, periods_to_pay, now) == Ok::<
            PaymentCharge,
            BillingError,
        >(charge),
        !spec_settlement_overflows(platform, &plan, charge),
    ensures
        plan.max_subscribers matches Some(max) ==> spec_plan_after_subscription(
            plan,
            charge,
        ).current_subscribers <= max,
{
}

/// Cancelling undoes what subscribing did to the plan's subscriber count.
pub proof fn law_cancel_undoes_subscribe_count(plan: SubscriptionPlan, charge: PaymentCharge)
    requires
        fits_u64(plan.current_subscribers + 1),
    ensures
        spec_plan_without_subscriber(spec_plan_after_subscription(plan, charge)).current_subscribers
            == plan.current_subscribers,
{
}

/// A cancelled subscription stays cancelled: cancelling it again is refused with
/// `AlreadyCancelled`, and it can no longer be renewed.
pub proof fn law_cancellation_is_final(
    subscription: UserSubscription,
    platform: PlatformConfig,
    plan: SubscriptionPlan,
    plan_key: Pubkey,
    now: i64,
)
    ensures
        spec_cancel_outcome(spec_cancelled(subscription), plan_key, now) == Err::<
            crate::events::SubscriptionCancelled,
            BillingError,
        >(BillingError::AlreadyCancelled),
        spec_renewal_outcome(platform, &plan, spec_cancelled(subscription), now) == Err::<
            PaymentCharge,
            BillingError,
        >(BillingError::SubscriptionNotActive),
{
}

/// A renewal charges one period at the plan's price and extends the subscription
/// by exactly one period, counting the payment and reactivating it.
pub proof fn law_renewal_extends_one_period(
    platform: PlatformConfig,
    plan: SubscriptionPlan,
    subscription: UserSubscription,
    now: i64,
    charge: PaymentCharge,
)
    requires
        spec_renewal_outcome(platform, &plan, subscription, now) == Ok::<
            PaymentCharge,
            BillingError,
        >(charge),
        !spec_renewal_overflows(platform, &plan, subscription, charge),
    ensures
        ({
            let renewed = subscription.spec_extended(
                charge.periods,
                plan.period_duration,
                charge.amount,
                charge.now,
            );
            &&& charge.amount == plan.price_per_period
            &&& renewed.expires_at == subscription.expires_at + plan.period_duration
            &&& renewed.total_paid == subscription.total_paid + plan.price_per_period
            &&& renewed.periods_paid == subscription.periods_paid + 1
            &&& renewed.status == SubscriptionStatus::Active
            &&& renewed.last_payment_at == now
        }),
{
}

/// An active subscription is never expired at the same moment, and one whose
/// status is active gives access exactly until it expires.
pub proof fn law_active_excludes_expired(subscription: UserSubscription, now: i64)
    ensures
        subscription.spec_is_active_at(now) ==> !subscription.spec_is_expired_at(now),
        subscription.status == SubscriptionStatus::Active ==> (subscription.spec_is_active_at(now)
            <==> !subscription.spec_is_expired_at(now)),
{
}

/// Paying for `periods_to_pay` periods of a plan whose period is at least the
/// shortest allowed gives access from the moment of payment until exactly
/// `periods_to_pay` periods later, and not a moment longer.
pub proof fn law_subscription_covers_paid_time(
    platform: PlatformConfig,
    plan: SubscriptionPlan,
    periods_to_pay: u8,
    now: i64,
    charge: PaymentCharge,
    user: Pubkey,
    plan_key: Pubkey,
    payment_mint: Pubkey,
    bump: u8,
    t: i64,
)
    requires
        plan.period_duration >= MIN_PERIOD_DURATION,
        spec_subscribe_outcome(platform, &plan, periods_to_pay, now) == Ok::<
            PaymentCharge,
            BillingError,
        >(charge),
        !spec_settlement_overflows(platform, &plan, charge),
    ensures
        ({
            let sub = spec_new_subscription(&plan, charge, user, plan_key, payment_mint, bump);
            &&& sub.expires_at == now + plan.period_duration * periods_to_pay
            &&& now < sub.expires_at
            &&& sub.spec_is_active_at(t) <==> t <= now + plan.period_duration * periods_to_pay
        }),
{
    let d = plan.period_duration as int;
    let k = periods_to_pay as int;
    assert(d * k >= d) by (nonlinear_arith)
        requires
            d > 0,
            k >= 1,
    ;
}

/// Paying for `p1` periods and then for `p2` periods of the same length, at the
/// same moment, leaves a subscription as paying for `p1 + p2` periods at once,
/// where the two steps go through and the combined extension fits in an `i64`.
pub proof fn law_extensions_compose(
    subscription: UserSubscription,
    p1: u8,
    p2: u8,
    period_duration: i64,
    a1: u64,
    a2: u64,
    now: i64,
)
    requires
        !subscription.spec_extension_overflows(p1, period_duration, a1),
        !subscription.spec_extended(p1, period_duration, a1, now).spec_extension_overflows(
            p2,
            period_duration,
            a2,
        ),
        p1 + p2 <= u8::MAX,
        fits_i64(spec_extension((p1 + p2) as u8, period_duration)),
    ensures
        !subscription.spec_extension_overflows((p1 + p2) as u8, period_duration, (a1 + a2) as u64),
        subscription.spec_extended(p1, period_duration, a1, now).spec_extended(
            p2,
            period_duration,
            a2,
            now,
        ) == subscription.spec_extended((p1 + p2) as u8, period_duration, (a1 + a2) as u64, now),
{
    let d = period_duration as int;
    let x = p1 as int;
    let y = p2 as int;
    assert(d * x + d * y == d * (x + y)) by (nonlinear_arith);
}

/// The subscription still counts as a subscriber: it is not cancelled.
pub open spec fn spec_is_live(subscription: UserSubscription) -> bool {
    subscription.status != SubscriptionStatus::Cancelled
}

/// How many of `subscriptions` are not cancelled.
pub open spec fn spec_live_count(subscriptions: Seq<UserSubscription>) -> nat
    decreases subscriptions.len(),
{
    if subscriptions.len() == 0 {
        0
    } else {
        spec_live_count(subscriptions.drop_last()) + if spec_is_live(subscriptions.last()) {
            1nat
        } else {
            0nat
        }
    }
}

/// The plan counts exactly its subscriptions that are not cancelled, and every
/// cancelled one has stopped renewing.
pub open spec fn spec_subscriber_count_kept(
    plan: SubscriptionPlan,
    subscriptions: Seq<UserSubscription>,
) -> bool {
    &&& plan.current_subscribers == spec_live_count(subscriptions)
    &&& forall|j: int|
        0 <= j < subscriptions.len() && (#[trigger] subscriptions[j]).status
            == SubscriptionStatus::Cancelled ==> !subscriptions[j].auto_renew
}

proof fn lemma_live_count_update(subscriptions: Seq<UserSubscription>, i: int, x: UserSubscription)
    requires
        0 <= i < subscriptions.len(),
    ensures
        spec_live_count(subscriptions.update(i, x)) + (if spec_is_live(subscriptions[i]) {
            1int
        } else {
            0int
        }) == spec_live_count(subscriptions) + (if spec_is_live(x) {
            1int
        } else {
            0int
        }),
    decreases subscriptions.len(),
{
    let u = subscriptions.update(i, x);
    if i == subscriptions.len() - 1 {
        assert(u.drop_last() =~= subscriptions.drop_last());
    } else {
        assert(u.drop_last() =~= subscriptions.drop_last().update(i, x));
        lemma_live_count_update(subscriptions.drop_last(), i, x);
    }
}

/// A plan that was just created has no subscribers and no subscriptions.
pub proof fn law_subscriber_count_starts_empty(
    plan: SubscriptionPlan,
    event: PlanCreated,
    plan_id: u64,
    admin: Pubkey,
    name: Seq<char>,
    price_per_period: u64,
    period_duration: i64,
    max_subscribers: Option<u64>,
    bump: u8,
    now: i64,
)
    requires
        spec_plan_created(
            plan,
            event,
            plan_id,
            admin,
            name,
            price_per_period,
            period_duration,
            max_subscribers,
            bump,
            now,
        ),
    ensures
        spec_subscriber_count_kept(plan, Seq::empty()),
{
}

/// Recording a subscription adds one subscriber and one live subscription.
pub proof fn law_subscriber_count_kept_by_subscription(
    platform: PlatformConfig,
    plan: SubscriptionPlan,
    subscriptions: Seq<UserSubscription>,
    charge: PaymentCharge,
    user: Pubkey,
    plan_key: Pubkey,
    payment_mint: Pubkey,
    bump: u8,
)
    requires
        spec_subscriber_count_kept(plan, subscriptions),
        !spec_settlement_overflows(platform, &plan, charge),
    ensures
        spec_subscriber_count_kept(
            spec_plan_after_subscription(plan, charge),
            subscriptions.push(
                spec_new_subscription(&plan, charge, user, plan_key, payment_mint, bump),
            ),
        ),
{
    let pushed = subscriptions.push(
        spec_new_subscription(&plan, charge, user, plan_key, payment_mint, bump),
    );
    assert(pushed.drop_last() =~= subscriptions);
    assert forall|j: int|
        0 <= j < pushed.len() && (#[trigger] pushed[j]).status == SubscriptionStatus::Cancelled
            implies !pushed[j].auto_renew by {
        if j < subscriptions.len() {
            assert(pushed[j] == subscriptions[j]);
        }
    }
}

/// A renewal keeps the number of subscribers: the renewed subscription renews
/// automatically, so it was not cancelled, and it stays live.
pub proof fn law_subscriber_count_kept_by_renewal(
    platform: PlatformConfig,
    plan: SubscriptionPlan,
    subscriptions: Seq<UserSubscription>,
    i: int,
    now: i64,
    charge: PaymentCharge,
)
    requires
        spec_subscriber_count_kept(plan, subscriptions),
        0 <= i < subscriptions.len(),
        spec_renewal_outcome(platform, &plan, subscriptions[i], now) == Ok::<
            PaymentCharge,
            BillingError,
        >(charge),
        !spec_renewal_overflows(platform, &plan, subscriptions[i], charge),
    ensures
        spec_subscriber_count_kept(
            spec_plan_after_renewal(plan, charge),
            subscriptions.update(
                i,
                subscriptions[i].spec_extended(
                    charge.periods,
                    plan.period_duration,
                    charge.amount,
                    charge.now,
                ),
            ),
        ),
{
    let x = subscriptions[i].spec_extended(
        charge.periods,
        plan.period_duration,
        charge.amount,
        charge.now,
    );
    lemma_live_count_update(subscriptions, i, x);
    let u = subscriptions.update(i, x);
    assert forall|j: int|
        0 <= j < u.len() && (#[trigger] u[j]).status == SubscriptionStatus::Cancelled
            implies !u[j].auto_renew by {
        if j != i {
            assert(u[j] == subscriptions[j]);
        }
    }
}

/// Cancelling a live subscription removes exactly one subscriber.
pub proof fn law_subscriber_count_kept_by_cancellation(
    plan: SubscriptionPlan,
    subscriptions: Seq<UserSubscription>,
    i: int,
)
    requires
        spec_subscriber_count_kept(plan, subscriptions),
        0 <= i < subscriptions.len(),
        subscriptions[i].status != SubscriptionStatus::Cancelled,
    ensures
        spec_subscriber_count_kept(
            spec_plan_without_subscriber(plan),
            subscriptions.update(i, spec_cancelled(subscriptions[i])),
        ),
{
    let x = spec_cancelled(subscriptions[i]);
    lemma_live_count_update(subscriptions, i, x);
    let u = subscriptions.update(i, x);
    assert forall|j: int|
        0 <= j < u.len() && (#[trigger] u[j]).status == SubscriptionStatus::Cancelled
            implies !u[j].auto_renew by {
        if j != i {
            assert(u[j] == subscriptions[j]);
        }
    }
}

/// A renewal is decided by the clock against the subscription's expiry: it is
/// refused as not active exactly when the subscription does not renew or the
/// time lies more than a day (`RENEWAL_WINDOW`) before its expiry; inside that
/// window, one period is charged at the plan's price with the platform's fee
/// `price * bps / 10000`, dated at that time.
pub proof fn law_renewal_window_decides(
    platform: PlatformConfig,
    plan: SubscriptionPlan,
    subscription: UserSubscription,
    now: i64,
)
    ensures
        spec_renewal_outcome(platform, &plan, subscription, now) == Err::<PaymentCharge, BillingError>(
            BillingError::SubscriptionNotActive,
        ) <==> (!subscription.auto_renew || now < subscription.expires_at - RENEWAL_WINDOW),
        subscription.auto_renew && now >= subscription.expires_at - RENEWAL_WINDOW
            && plan.price_per_period * platform.platform_fee_bps <= u64::MAX ==> spec_renewal_outcome(
            platform,
            &plan,
            subscription,
            now,
        ) == Ok::<PaymentCharge, BillingError>(
            PaymentCharge {
                amount: plan.price_per_period,
                platform_fee: (plan.price_per_period * platform.platform_fee_bps / 10000) as u64,
                periods: 1,
                now,
            },
        ),
{
}

/// Once the renewal window has opened it stays open: a renewal that goes through
/// at one time goes through at every later time, for the same price.
pub proof fn law_renewal_window_stays_open(
    platform: PlatformConfig,
    plan: SubscriptionPlan,
    subscription: UserSubscription,
    earlier: i64,
    later: i64,
)
    requires
        earlier <= later,
    ensures
        spec_renewal_outcome(platform, &plan, subscription, earlier) matches Ok(c) ==> (
        spec_renewal_outcome(platform, &plan, subscription, later) == Ok::<PaymentCharge, BillingError>(
            PaymentCharge { now: later, ..c },
        )),
{
}

/// A subscription is priced at the moment given and, once settled, runs from
/// that moment for exactly the periods paid: it starts and is paid at `now` and
/// expires `periods_to_pay` periods later.
pub proof fn law_subscription_starts_at_payment(
    platform: PlatformConfig,
    plan: SubscriptionPlan,
    periods_to_pay: u8,
    now: i64,
    user: Pubkey,
    plan_key: Pubkey,
    payment_mint: Pubkey,
    bump: u8,
)
    ensures
        spec_subscribe_outcome(platform, &plan, periods_to_pay, now) matches Ok(c) ==> {
            &&& c.now == now
            &&& c.periods == periods_to_pay
            &&& c.amount == plan.price_per_period * periods_to_pay
        },
        spec_subscribe_outcome(platform, &plan, periods_to_pay, now) matches Ok(c) ==> (
        !spec_settlement_overflows(platform, &plan, c) ==> {
            let sub = spec_new_subscription(&plan, c, user, plan_key, payment_mint, bump);
            &&& sub.subscribed_at == now
            &&& sub.last_payment_at == now
            &&& sub.expires_at == now + plan.period_duration * periods_to_pay
        }),
{
}

/// Whether a subscription can be bought, and at what price, does not depend on
/// when: subscribing at two moments gives the same charge but for its date.
pub proof fn law_subscription_price_ignores_time(
    platform: PlatformConfig,
    plan: SubscriptionPlan,
    periods_to_pay: u8,
    t1: i64,
    t2: i64,
)
    ensures
        spec_subscribe_outcome(platform, &plan, periods_to_pay, t1) is Ok <==> spec_subscribe_outcome(
            platform,
            &plan,
            periods_to_pay,
            t2,
        ) is Ok,
        spec_subscribe_outcome(platform, &plan, periods_to_pay, t1) matches Ok(c) ==> spec_subscribe_outcome(
            platform,
            &plan,
            periods_to_pay,
            t2,
        ) == Ok::<PaymentCharge, BillingError>(PaymentCharge { now: t2, ..c }),
{
}

/// Access follows the clock: a subscription gives access at a time exactly when
/// its status is active and the time is not past its expiry; past its expiry it
/// gives none, and access that holds at a time held at every earlier time.
pub proof fn law_access_follows_the_clock(subscription: UserSubscription, earlier: i64, later: i64)
    requires
        earlier <= later,
    ensures
        subscription.spec_is_active_at(later) <==> (subscription.status == SubscriptionStatus::Active
            && later <= subscription.expires_at),
        later > subscription.expires_at ==> !subscription.spec_is_active_at(later),
        subscription.spec_is_active_at(later) ==> subscription.spec_is_active_at(earlier),
{
}

/// Expiry follows the clock alone: a subscription is expired at a time exactly
/// when the time is past its expiry, whatever its status, and stays expired at
/// every later time.
pub proof fn law_expiry_follows_the_clock(
    subscription: UserSubscription,
    status: SubscriptionStatus,
    earlier: i64,
    later: i64,
)
    requires
        earlier <= later,
    ensures
        subscription.spec_is_expired_at(earlier) <==> earlier > subscription.expires_at,
        (UserSubscription { status, ..subscription }).spec_is_expired_at(earlier)
            == subscription.spec_is_expired_at(earlier),
        subscription.spec_is_expired_at(earlier) ==> subscription.spec_is_expired_at(later),
{
}

/// A plan is stamped with the moment it is created: its creation time and its
/// event's timestamp are both that moment.
pub proof fn law_plan_stamped_at_creation(
    plan: SubscriptionPlan,
    event: PlanCreated,
    plan_id: u64,
    admin: Pubkey,
    name: Seq<char>,
    price_per_period: u64,
    period_duration: i64,
    max_subscribers: Option<u64>,
    bump: u8,
    now: i64,
)
    requires
        spec_plan_created(
            plan,
            event,
            plan_id,
            admin,
            name,
            price_per_period,
            period_duration,
            max_subscribers,
            bump,
            now,
        ),
    ensures
        plan.created_at == now,
        event.timestamp == now,
        plan.created_at == event.timestamp,
{
}

} // verus!
