//! The errors that an operation can end with; each leaves every record as it was.
use vstd::prelude::*;

verus! {

#[derive(Clone, Copy, Debug, PartialEq, Eq, Structural)]
pub enum SubscriptionError {
    PlanIdTooLong,
    NameTooLong,
    DescriptionTooLong,
    InvalidPrice,
    InvalidPeriod,
    PlanInactive,
    PlanAtCapacity,
    SubscriptionInactive,
    SubscriptionPaused,
    PaymentNotDue,
    InsufficientFunds,
    ArithmeticOverflow,
    Unauthorized,
    InvalidTokenMint,
    SubscriptionAlreadyExists,
    AccountAlreadyInitialized,
}

impl SubscriptionError {
    /// A short human-readable description of the error.
    pub fn message(&self) -> &'static str {
        match self {
            SubscriptionError::PlanIdTooLong => "Plan ID is too long",
            SubscriptionError::NameTooLong => "Name is too long",
            SubscriptionError::DescriptionTooLong => "Description is too long",
            SubscriptionError::InvalidPrice => "Invalid price - must be greater than 0",
            SubscriptionError::InvalidPeriod => "Invalid period - must be between one hour and one year",
            SubscriptionError::PlanInactive => "Subscription plan is inactive",
            SubscriptionError::PlanAtCapacity => "Plan has reached maximum subscriber capacity",
            SubscriptionError::SubscriptionInactive => "Subscription is inactive",
            SubscriptionError::SubscriptionPaused => "Subscription is paused",
            SubscriptionError::PaymentNotDue => "Payment is not due yet",
            SubscriptionError::InsufficientFunds => "Insufficient funds for payment",
            SubscriptionError::ArithmeticOverflow => "Arithmetic overflow detected",
            SubscriptionError::Unauthorized => "Unauthorized",
            SubscriptionError::InvalidTokenMint => "Invalid token mint",
            SubscriptionError::SubscriptionAlreadyExists => "Subscription already exists",
            SubscriptionError::AccountAlreadyInitialized => "Account is already initialized",
        }
    }
}

} // verus!
