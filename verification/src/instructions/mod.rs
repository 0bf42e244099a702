pub mod cancel_subscription;
pub mod create_plan;
pub mod initialize_platform;
pub mod process_renewal;
pub mod subscribe;

use vstd::prelude::*;

verus! {

/// A payment that an instruction asks for before it can go on: `amount` moves
/// from the payer's token account to the treasury, of which `platform_fee` is the
/// platform's share; it pays for `periods` periods and was priced at time `now`.
#[derive(Debug, Clone, Copy, PartialEq, Eq, Structural)]
pub struct PaymentCharge {
    pub amount: u64,
    pub platform_fee: u64,
    pub periods: u8,
    pub now: i64,
}

} // verus!
