use vstd::prelude::*;
use anchor_lang::solana_program::pubkey::Pubkey;
use crate::errors::{BillingError, InstructionError};
use crate::math::{fits_i64, fits_u64};
use crate::runtime::clock_unix_timestamp;

verus! {

#[derive(Debug, Clone, Copy, PartialEq, Eq, Structural)]
pub enum SubscriptionStatus {
    Active,
    Expired,
    Cancelled,
}

/// One user's subscription to one plan.
#[derive(Debug, Clone, Copy)]
pub struct UserSubscription {
    pub user: Pubkey,
    pub plan: Pubkey,
    pub status: SubscriptionStatus,
    pub subscribed_at: i64,
    pub expires_at: i64,
    pub last_payment_at: i64,
    pub total_paid: u64,
    pub payment_token: Pubkey,
    pub auto_renew: bool,
    pub periods_paid: u64,
    pub bump: u8,
}

/// Seconds that `periods` periods of `period_duration` seconds add.
pub open spec fn spec_extension(periods: u8, period_duration: i64) -> int {
    period_duration * periods
}

impl UserSubscription {
    /// Bytes of account space a subscription takes, with its 8-byte discriminator.
    pub const LEN: usize = 32 + 32 + 1 + 8 + 8 + 8 + 8 + 32 + 1 + 8 + 1 + 8;

    /// At time `now` the subscription gives access: it is active and not past its expiry.
    pub open spec fn spec_is_active_at(&self, now: i64) -> bool {
        self.status == SubscriptionStatus::Active && now <= self.expires_at
    }

    /// At time `now` the subscription is past its expiry.
    pub open spec fn spec_is_expired_at(&self, now: i64) -> bool {
        now > self.expires_at
    }

    /// The new expiry does not fit.
    pub open spec fn spec_expiry_overflows(&self, periods: u8, period_duration: i64) -> bool {
        !fits_i64(spec_extension(periods, period_duration))
            || !fits_i64(self.expires_at + spec_extension(periods, period_duration))
    }

    /// The new total paid does not fit.
    pub open spec fn spec_paid_overflows(&self, amount_paid: u64) -> bool {
        !fits_u64(self.total_paid + amount_paid)
    }

    /// The new count of periods paid does not fit.
    pub open spec fn spec_count_overflows(&self, periods: u8) -> bool {
        !fits_u64(self.periods_paid + periods)
    }

    /// Extending the subscription overflows somewhere.
    pub open spec fn spec_extension_overflows(
        &self,
        periods: u8,
        period_duration: i64,
        amount_paid: u64,
    ) -> bool {
        self.spec_expiry_overflows(periods, period_duration) || self.spec_paid_overflows(
            amount_paid,
        ) || self.spec_count_overflows(periods)
    }

    /// The subscription with the expiry pushed out and the payment counted, but
    /// its payment time and status not yet touched, where nothing overflows.
    pub open spec fn spec_paid_periods_added(
        self,
        periods: u8,
        period_duration: i64,
        amount_paid: u64,
    ) -> UserSubscription {
        UserSubscription {
            expires_at: (self.expires_at + spec_extension(periods, period_duration)) as i64,
            total_paid: (self.total_paid + amount_paid) as u64,
            periods_paid: (self.periods_paid + periods) as u64,
            ..self
        }
    }

    /// The subscription as an extension that overflows leaves it: the steps before
    /// the one that overflows (expiry, then total paid, then periods paid) are done.
    pub open spec fn spec_partly_extended(
        self,
        periods: u8,
        period_duration: i64,
        amount_paid: u64,
    ) -> UserSubscription {
        if self.spec_expiry_overflows(periods, period_duration) {
            self
        } else if self.spec_paid_overflows(amount_paid) {
            UserSubscription {
                expires_at: (self.expires_at + spec_extension(periods, period_duration)) as i64,
                ..self
            }
        } else {
            UserSubscription {
                expires_at: (self.expires_at + spec_extension(periods, period_duration)) as i64,
                total_paid: (self.total_paid + amount_paid) as u64,
                ..self
            }
        }
    }

    /// The subscription after `periods` more periods were paid for with `amount_paid`
    /// at time `now`, where nothing overflows: the expiry, the total paid and the
    /// periods paid grow, the payment time is `now` and the status is active.
    pub open spec fn spec_extended(
        self,
        periods: u8,
        period_duration: i64,
        amount_paid: u64,
        now: i64,
    ) -> UserSubscription {
        UserSubscription {
            last_payment_at: now,
            status: SubscriptionStatus::Active,
            ..self.spec_paid_periods_added(periods, period_duration, amount_paid)
        }
    }

    /// Whether the subscription gives access at time `now`.
    pub fn is_active_at(&self, now: i64) -> (r: bool)
        ensures
            r == self.spec_is_active_at(now),
    {
        self.status == SubscriptionStatus::Active && now <= self.expires_at
    }

    /// Whether the subscription is past its expiry at time `now`.
    pub fn is_expired_at(&self, now: i64) -> (r: bool)
        ensures
            r == self.spec_is_expired_at(now),
    {
        now > self.expires_at
    }

    /// Whether the subscription gives access now, by the cluster clock.
    pub fn is_active(&self) -> (r: Result<bool, InstructionError>)
        ensures
            r matches Ok(b) ==> (b ==> self.status == SubscriptionStatus::Active),
            r matches Ok(b) ==> (self.expires_at == i64::MAX ==> b == (self.status
                == SubscriptionStatus::Active)),
            r is Err ==> r matches Err(InstructionError::Runtime(_)),
    {
        match clock_unix_timestamp() {
            Ok(now) => Ok(self.is_active_at(now)),
            Err(e) => Err(InstructionError::Runtime(e)),
        }
    }

    /// Whether the subscription is past its expiry now, by the cluster clock.
    pub fn is_expired(&self) -> (r: Result<bool, InstructionError>)
        ensures
            r matches Ok(b) ==> (self.expires_at == i64::MAX ==> !b),
            r is Err ==> r matches Err(InstructionError::Runtime(_)),
    {
        match clock_unix_timestamp() {
            Ok(now) => Ok(self.is_expired_at(now)),
            Err(e) => Err(InstructionError::Runtime(e)),
        }
    }

    /// Pushes the expiry out by `periods` periods and counts the payment, in that
    /// order, each step checked; a step that overflows stops there with `MathOverflow`.
    fn add_paid_periods(&mut self, periods: u8, period_duration: i64, amount_paid: u64) -> (r:
        Result<(), BillingError>)
        ensures
            old(self).spec_extension_overflows(periods, period_duration, amount_paid) ==> r
                == Err::<(), BillingError>(BillingError::MathOverflow) && *final(self) == old(
                self,
            ).spec_partly_extended(periods, period_duration, amount_paid),
            !old(self).spec_extension_overflows(periods, period_duration, amount_paid) ==> r is Ok
                && *final(self) == old(self).spec_paid_periods_added(
                periods,
                period_duration,
                amount_paid,
            ),
    {
        let additional_time = match period_duration.checked_mul(periods as i64) {
            Some(t) => t,
            None => return Err(BillingError::MathOverflow),
        };
        self.expires_at = match self.expires_at.checked_add(additional_time) {
            Some(t) => t,
            None => return Err(BillingError::MathOverflow),
        };
        self.total_paid = match self.total_paid.checked_add(amount_paid) {
            Some(t) => t,
            None => return Err(BillingError::MathOverflow),
        };
        self.periods_paid = match self.periods_paid.checked_add(periods as u64) {
            Some(t) => t,
            None => return Err(BillingError::MathOverflow),
        };
        Ok(())
    }

    /// Extends the subscription by `periods` periods of `period_duration` seconds,
    /// paid with `amount_paid` at time `now`, and marks it active. Each step is
    /// checked in turn (expiry, total paid, periods paid); the first that overflows
    /// ends the call with `MathOverflow` and leaves the steps before it done.
    pub fn extend_subscription_at(
        &mut self,
        periods: u8,
        period_duration: i64,
        amount_paid: u64,
        now: i64,
    ) -> (r: Result<(), BillingError>)
        ensures
            old(self).spec_extension_overflows(periods, period_duration, amount_paid) ==> r
                == Err::<(), BillingError>(BillingError::MathOverflow) && *final(self) == old(
                self,
            ).spec_partly_extended(periods, period_duration, amount_paid),
            !old(self).spec_extension_overflows(periods, period_duration, amount_paid) ==> r is Ok
                && *final(self) == old(self).spec_extended(
                periods,
                period_duration,
                amount_paid,
                now,
            ),
    {
        self.add_paid_periods(periods, period_duration, amount_paid)?;
        self.last_payment_at = now;
        self.status = SubscriptionStatus::Active;
        Ok(())
    }

    /// `extend_subscription_at` at the time the cluster clock gives, read once the
    /// arithmetic has gone through. Where the clock cannot be read, the call fails
    /// with the runtime's error, the expiry and both totals already extended and
    /// the payment time and status untouched.
    pub fn extend_subscription(&mut self, periods: u8, period_duration: i64, amount_paid: u64) -> (r:
        Result<(), InstructionError>)
        ensures
            old(self).spec_extension_overflows(periods, period_duration, amount_paid) ==> r
                == Err::<(), InstructionError>(InstructionError::Billing(BillingError::MathOverflow))
                && *final(self) == old(self).spec_partly_extended(
                periods,
                period_duration,
                amount_paid,
            ),
            !old(self).spec_extension_overflows(periods, period_duration, amount_paid) ==> (r is Ok
                && *final(self) == old(self).spec_extended(
                periods,
                period_duration,
                amount_paid,
                final(self).last_payment_at,
            )) || (r matches Err(InstructionError::Runtime(_)) && *final(self) == old(
                self,
            ).spec_paid_periods_added(periods, period_duration, amount_paid)),
    {
        match self.add_paid_periods(periods, period_duration, amount_paid) {
            Ok(()) => {},
            Err(e) => return Err(InstructionError::Billing(e)),
        }
        match clock_unix_timestamp() {
            Ok(now) => {
                self.last_payment_at = now;
                self.status = SubscriptionStatus::Active;
                Ok(())
            },
            Err(e) => Err(InstructionError::Runtime(e)),
        }
    }
}

} // verus!
