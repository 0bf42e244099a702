use vstd::prelude::*;
use anchor_lang::solana_program::program_error::ProgramError;

verus! {

/// The program's own errors.
#[derive(Debug, Clone, Copy, PartialEq, Eq, Structural)]
pub enum BillingError {
    InvalidPlanName,
    PlanAtCapacity,
    PlanNotActive,
    SubscriptionNotActive,
    SubscriptionExpired,
    InvalidPaymentAmount,
    InvalidPeriodDuration,
    InvalidPeriods,
    Unauthorized,
    MathOverflow,
    InvalidPlatformFee,
    InsufficientPayment,
    AlreadyCancelled,
    InsufficientBalance,
}

impl BillingError {
    /// The message that the program reports with the error.
    pub fn message(&self) -> (m: &'static str)
        ensures
            m@ == spec_billing_message(*self),
    {
        match self {
            BillingError::InvalidPlanName => "Invalid plan name: must be 1-50 characters",
            BillingError::PlanAtCapacity => "Plan has reached maximum subscriber capacity",
            BillingError::PlanNotActive => "Plan is not active",
            BillingError::SubscriptionNotActive => "Subscription is not active",
            BillingError::SubscriptionExpired => "Subscription has expired",
            BillingError::InvalidPaymentAmount => "Invalid payment amount",
            BillingError::InvalidPeriodDuration => "Invalid period duration",
            BillingError::InvalidPeriods => "Invalid number of periods",
            BillingError::Unauthorized => "Unauthorized: only admin can perform this action",
            BillingError::MathOverflow => "Math overflow occurred",
            BillingError::InvalidPlatformFee => "Invalid platform fee: must be 0-1000 bps",
            BillingError::InsufficientPayment => "Insufficient payment for subscription",
            BillingError::AlreadyCancelled => "Cannot cancel already cancelled subscription",
            BillingError::InsufficientBalance => "Withdrawal amount exceeds available balance",
        }
    }
}

/// The message of each error, as the program reports it.
pub open spec fn spec_billing_message(e: BillingError) -> Seq<char> {
    match e {
        BillingError::InvalidPlanName => "Invalid plan name: must be 1-50 characters"@,
        BillingError::PlanAtCapacity => "Plan has reached maximum subscriber capacity"@,
        BillingError::PlanNotActive => "Plan is not active"@,
        BillingError::SubscriptionNotActive => "Subscription is not active"@,
        BillingError::SubscriptionExpired => "Subscription has expired"@,
        BillingError::InvalidPaymentAmount => "Invalid payment amount"@,
        BillingError::InvalidPeriodDuration => "Invalid period duration"@,
        BillingError::InvalidPeriods => "Invalid number of periods"@,
        BillingError::Unauthorized => "Unauthorized: only admin can perform this action"@,
        BillingError::MathOverflow => "Math overflow occurred"@,
        BillingError::InvalidPlatformFee => "Invalid platform fee: must be 0-1000 bps"@,
        BillingError::InsufficientPayment => "Insufficient payment for subscription"@,
        BillingError::AlreadyCancelled => "Cannot cancel already cancelled subscription"@,
        BillingError::InsufficientBalance => "Withdrawal amount exceeds available balance"@,
    }
}

/// Why an instruction failed: one of the program's own errors, or an error
/// that the runtime reported (the cluster clock could not be read).
#[derive(Debug)]
pub enum InstructionError {
    Billing(BillingError),
    Runtime(ProgramError),
}

} // verus!
