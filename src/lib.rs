//! Recurring, pull-based subscription billing: plans, subscriptions, payment
//! collection and provider withdrawals, with every state transition proved
//! against its contract.
pub mod address;
pub mod constants;
pub mod context;
pub mod error;
pub mod events;
pub mod payment;
pub mod plan;
pub mod state;
pub mod subscription;

pub use address::Address;
pub use context::{
    CancelSubscription, CreateSubscriptionPlan, InitializeManager, PauseSubscription,
    ProcessPayment, ResumeSubscription, Subscribe, TokenHolding, UpdateSubscriptionPlan,
    WithdrawFunds,
};
pub use error::SubscriptionError;
pub use events::{
    PaymentProcessed, SubscriptionCancelled, SubscriptionCreated, SubscriptionPlanCreated,
    SubscriptionPlanUpdated,
};
pub use payment::{collect_payment, process_payment, release_funds, withdraw_funds};
pub use plan::{create_subscription_plan, initialize_manager, update_subscription_plan};
pub use state::{Subscription, SubscriptionManager, SubscriptionPlan, SubscriptionStatus};
pub use subscription::{
    cancel_subscription, enroll, pause_subscription, resume_subscription, subscribe,
};
