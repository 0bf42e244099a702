use vstd::prelude::*;
use anchor_lang::solana_program::pubkey::Pubkey;
use crate::constants::MAX_NAME_LENGTH;
use crate::errors::BillingError;
use vstd::string::StrSliceExecFns;

verus! {

/// A plan that users subscribe to.
#[derive(Debug)]
pub struct SubscriptionPlan {
    pub plan_id: u64,
    pub admin: Pubkey,
    /// From 1 to 50 characters.
    pub name: String,
    pub price_per_period: u64,
    /// Length of one billing period, in seconds.
    pub period_duration: i64,
    pub max_subscribers: Option<u64>,
    pub current_subscribers: u64,
    /// What the plan has earned, platform fees taken off.
    pub total_revenue: u64,
    pub active: bool,
    pub created_at: i64,
    pub bump: u8,
}

/// A name is valid when it has from 1 to `MAX_NAME_LENGTH` characters.
pub open spec fn spec_valid_name(name: Seq<char>) -> bool {
    1 <= name.len() <= MAX_NAME_LENGTH
}

impl SubscriptionPlan {
    /// Bytes of account space a plan takes, with its 8-byte discriminator; the
    /// name takes a 4-byte length and up to 50 characters of at most 4 bytes each.
    pub const LEN: usize = 8 + 32 + (4 + 200) + 8 + 8 + (1 + 8) + 8 + 8 + 1 + 8 + 1 + 8;

    /// The plan has a subscriber limit and has reached it.
    pub open spec fn spec_at_capacity(&self) -> bool {
        match self.max_subscribers {
            Some(max) => self.current_subscribers >= max,
            None => false,
        }
    }

    pub fn is_at_capacity(&self) -> (r: bool)
        ensures
            r == self.spec_at_capacity(),
    {
        if let Some(max) = self.max_subscribers {
            self.current_subscribers >= max
        } else {
            false
        }
    }

    pub fn validate_name(name: &str) -> (r: Result<(), BillingError>)
        ensures
            r is Ok <==> spec_valid_name(name@),
            r is Err ==> r == Err::<(), BillingError>(BillingError::InvalidPlanName),
    {
        if !name.is_empty() && name.unicode_len() <= MAX_NAME_LENGTH {
            Ok(())
        } else {
            Err(BillingError::InvalidPlanName)
        }
    }
}

} // verus!
