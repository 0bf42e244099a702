use vstd::prelude::*;

verus! {

/// Shortest billing period a plan may have, in seconds (one day). This bound,
/// the longest period and the most periods per payment are values chosen for
/// this crate; no outside rule fixes them.
pub const MIN_PERIOD_DURATION: i64 = 86400;

/// Longest billing period a plan may have, in seconds (one year of 365 days).
pub const MAX_PERIOD_DURATION: i64 = 31536000;

/// Most periods a subscriber may pay for in one payment.
pub const MAX_PERIODS_PER_PAYMENT: u8 = 12;

/// Highest platform fee, in basis points.
pub const MAX_PLATFORM_FEE_BPS: u16 = 1000;

/// Basis points in a whole: a fee of `bps` takes `amount * bps / 10000`.
pub const BPS_DENOMINATOR: u64 = 10000;

/// A subscription may be renewed from this many seconds before it expires (24 hours).
pub const RENEWAL_WINDOW: i64 = 86400;

/// Longest plan name, in characters.
pub const MAX_NAME_LENGTH: usize = 50;

} // verus!
