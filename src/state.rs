//! The persisted records: the registry, plans and subscriptions.
use crate::address::{utf8, Address};
use crate::constants::{
    MAX_DESCRIPTION_LENGTH, MAX_NAME_LENGTH, MAX_PERIOD_DURATION, MAX_PLAN_ID_LENGTH,
    MIN_PERIOD_DURATION,
};
use vstd::prelude::*;

verus! {

/// The single registry of a deployment, with its global counters.
#[derive(Clone, Copy, Debug)]
pub struct SubscriptionManager {
    pub authority: Address,
    pub total_providers: u64,
    pub total_subscriptions: u64,
    pub bump: u8,
}

/// A plan that a provider publishes.
#[derive(Clone, Debug)]
pub struct SubscriptionPlan {
    pub provider: Address,
    pub plan_id: String,
    pub name: String,
    pub description: String,
    pub price_per_period: u64,
    pub period_duration_seconds: i64,
    pub payment_token: Address,
    pub max_subscribers: Option<u32>,
    pub current_subscribers: u32,
    pub total_revenue: u64,
    pub is_active: bool,
    pub created_at: i64,
    pub bump: u8,
}

/// The byte length of a string.
pub open spec fn byte_len(s: Seq<char>) -> nat {
    utf8(s).len()
}

/// Whether a plan's published terms are within their bounds.
pub open spec fn valid_terms(plan_id: Seq<char>, name: Seq<char>, description: Seq<char>, price: u64, period: i64) -> bool {
    &&& byte_len(plan_id) <= MAX_PLAN_ID_LENGTH
    &&& byte_len(name) <= MAX_NAME_LENGTH
    &&& byte_len(description) <= MAX_DESCRIPTION_LENGTH
    &&& price > 0
    &&& MIN_PERIOD_DURATION <= period <= MAX_PERIOD_DURATION
}

/// Whether `count` subscribers fit under the capacity `max`.
pub open spec fn within_capacity(count: u32, max: Option<u32>) -> bool {
    match max {
        Some(m) => count <= m,
        None => true,
    }
}

impl SubscriptionPlan {
    /// The plan's invariant: its terms are within their bounds and it holds no
    /// more subscribers than its capacity.
    pub open spec fn wf(&self) -> bool {
        &&& valid_terms(self.plan_id@, self.name@, self.description@, self.price_per_period, self.period_duration_seconds)
        &&& within_capacity(self.current_subscribers, self.max_subscribers)
    }
}

/// Where a subscription stands in its lifecycle.
#[derive(Clone, Copy, Debug, PartialEq, Eq, Structural)]
pub enum SubscriptionStatus {
    Active,
    Paused,
    Cancelled,
}

/// The membership of one subscriber in one plan.
#[derive(Clone, Copy, Debug)]
pub struct Subscription {
    pub subscriber: Address,
    pub subscription_plan: Address,
    pub start_time: i64,
    pub next_payment_due: i64,
    pub is_active: bool,
    pub is_paused: bool,
    pub paused_at: Option<i64>,
    pub cancelled_at: Option<i64>,
    pub total_payments_made: u32,
    pub total_amount_paid: u64,
    pub payment_nonce: u64,
    pub bump: u8,
}

impl Subscription {
    /// Cancelled is terminal; paused is a state of an active subscription.
    pub open spec fn spec_status(&self) -> SubscriptionStatus {
        if !self.is_active {
            SubscriptionStatus::Cancelled
        } else if self.is_paused {
            SubscriptionStatus::Paused
        } else {
            SubscriptionStatus::Active
        }
    }

    /// The flags agree with the recorded times: a paused subscription records
    /// when it paused, and exactly the cancelled ones record a cancellation.
    pub open spec fn wf(&self) -> bool {
        &&& self.is_paused ==> self.is_active && self.paused_at is Some
        &&& self.is_active <==> self.cancelled_at is None
    }

    #[verifier::when_used_as_spec(spec_status)]
    pub fn status(&self) -> (r: SubscriptionStatus)
        ensures
            r == self.spec_status(),
    {
        if !self.is_active {
            SubscriptionStatus::Cancelled
        } else if self.is_paused {
            SubscriptionStatus::Paused
        } else {
            SubscriptionStatus::Active
        }
    }
}

} // verus!
