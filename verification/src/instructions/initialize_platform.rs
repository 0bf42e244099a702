use vstd::prelude::*;
use anchor_lang::solana_program::pubkey::Pubkey;
use crate::constants::MAX_PLATFORM_FEE_BPS;
use crate::errors::BillingError;
use crate::state::platform::PlatformConfig;

verus! {

/// Sets up the platform: `admin` runs it, `treasury` collects payments, and
/// `platform_fee_bps` (at most 1000 basis points) of each payment is the platform's.
pub fn initialize_platform(platform_fee_bps: u16, admin: Pubkey, treasury: Pubkey, bump: u8) -> (r:
    Result<PlatformConfig, BillingError>)
    ensures
        platform_fee_bps > MAX_PLATFORM_FEE_BPS ==> r == Err::<PlatformConfig, BillingError>(
            BillingError::InvalidPlatformFee,
        ),
        platform_fee_bps <= MAX_PLATFORM_FEE_BPS ==> r == Ok::<PlatformConfig, BillingError>(
            PlatformConfig {
                admin,
                platform_fee_bps,
                treasury,
                total_plans: 0,
                total_subscriptions: 0,
                total_revenue: 0,
                bump,
            },
        ),
{
    if platform_fee_bps > MAX_PLATFORM_FEE_BPS {
        return Err(BillingError::InvalidPlatformFee);
    }
    Ok(
        PlatformConfig {
            admin,
            platform_fee_bps,
            treasury,
            total_plans: 0,
            total_subscriptions: 0,
            total_revenue: 0,
            bump,
        },
    )
}

} // verus!
