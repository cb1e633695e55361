//! The records that each state change hands back for observers.
use crate::address::Address;
use vstd::prelude::*;

verus! {

#[derive(Clone, Debug)]
pub struct SubscriptionPlanCreated {
    pub provider: Address,
    pub plan_id: String,
    pub price_per_period: u64,
    pub period_duration_seconds: i64,
    pub payment_token: Address,
}

#[derive(Clone, Copy, Debug)]
pub struct SubscriptionCreated {
    pub subscriber: Address,
    pub subscription_plan: Address,
    pub start_time: i64,
    pub next_payment_due: i64,
}

#[derive(Clone, Copy, Debug)]
pub struct PaymentProcessed {
    pub subscriber: Address,
    pub subscription_plan: Address,
    pub amount: u64,
    pub payment_number: u32,
    pub payment_nonce: u64,
    pub next_payment_due: i64,
}

#[derive(Clone, Copy, Debug)]
pub struct SubscriptionCancelled {
    pub subscriber: Address,
    pub subscription_plan: Address,
    pub cancelled_at: i64,
}

#[derive(Clone, Debug)]
pub struct SubscriptionPlanUpdated {
    pub provider: Address,
    pub plan_id: String,
    pub name: String,
    pub description: String,
    pub price_per_period: u64,
    pub period_duration_seconds: i64,
    pub max_subscribers: Option<u32>,
    pub is_active: bool,
    pub updated_at: i64,
}

} // verus!
