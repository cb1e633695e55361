//! The accounts that each operation reads and writes, as plain values. Each
//! `*_key` field is the address at which the record beside it is stored.
use crate::address::Address;
use crate::state::{Subscription, SubscriptionManager, SubscriptionPlan};
use vstd::prelude::*;

verus! {

/// A token balance, as the token program keeps it: `owner` is the authority
/// that may move it, `mint` the token it holds.
#[derive(Clone, Copy, Debug)]
pub struct TokenHolding {
    pub key: Address,
    pub owner: Address,
    pub mint: Address,
    pub amount: u64,
}

pub struct InitializeManager {
    pub program_id: Address,
    pub subscription_manager_key: Address,
    pub subscription_manager: SubscriptionManager,
    pub authority: Address,
}

pub struct CreateSubscriptionPlan {
    pub program_id: Address,
    pub subscription_plan_key: Address,
    pub subscription_plan: SubscriptionPlan,
    pub subscription_manager_key: Address,
    pub subscription_manager: SubscriptionManager,
    pub provider_vault: TokenHolding,
    pub payment_token_mint: Address,
    pub payment_token_mint_owner: Address,
    pub provider: Address,
}

pub struct UpdateSubscriptionPlan {
    pub program_id: Address,
    pub subscription_plan_key: Address,
    pub subscription_plan: SubscriptionPlan,
    pub provider: Address,
}

pub struct Subscribe {
    pub program_id: Address,
    pub subscription_key: Address,
    pub subscription: Subscription,
    pub subscription_plan_key: Address,
    pub subscription_plan: SubscriptionPlan,
    pub subscription_manager_key: Address,
    pub subscription_manager: SubscriptionManager,
    pub subscriber: Address,
}

pub struct CancelSubscription {
    pub program_id: Address,
    pub subscription_key: Address,
    pub subscription: Subscription,
    pub subscription_plan_key: Address,
    pub subscription_plan: SubscriptionPlan,
    pub subscriber: Address,
}

pub struct PauseSubscription {
    pub program_id: Address,
    pub subscription_key: Address,
    pub subscription: Subscription,
    pub subscription_plan_key: Address,
    pub subscriber: Address,
}

pub struct ResumeSubscription {
    pub program_id: Address,
    pub subscription_key: Address,
    pub subscription: Subscription,
    pub subscription_plan_key: Address,
    pub subscriber: Address,
}

pub struct ProcessPayment {
    pub program_id: Address,
    pub subscription_key: Address,
    pub subscription: Subscription,
    pub subscription_plan_key: Address,
    pub subscription_plan: SubscriptionPlan,
    pub subscriber_token_account: TokenHolding,
    pub provider_vault: TokenHolding,
    pub subscriber: Address,
}

pub struct WithdrawFunds {
    pub program_id: Address,
    pub subscription_plan_key: Address,
    pub subscription_plan: SubscriptionPlan,
    pub provider_vault: TokenHolding,
    pub provider_token_account: TokenHolding,
    pub provider: Address,
}

} // verus!
