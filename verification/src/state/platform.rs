use vstd::prelude::*;
use anchor_lang::solana_program::pubkey::Pubkey;

verus! {

/// The platform's one configuration account.
#[derive(Debug, Clone, Copy)]
pub struct PlatformConfig {
    pub admin: Pubkey,
    /// Basis points of each payment that go to the platform (100 = 1%).
    pub platform_fee_bps: u16,
    pub treasury: Pubkey,
    pub total_plans: u64,
    pub total_subscriptions: u64,
    /// The platform fees collected so far.
    pub total_revenue: u64,
    pub bump: u8,
}

impl PlatformConfig {
    /// Bytes of account space the configuration takes, with its 8-byte discriminator.
    pub const LEN: usize = 32 + 2 + 32 + 8 + 8 + 8 + 1 + 8;
}

} // verus!
