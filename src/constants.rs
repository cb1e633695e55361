//! Bounds and seeds shared by every operation.
use vstd::prelude::*;

verus! {

/// Longest plan identifier, in bytes.
pub const MAX_PLAN_ID_LENGTH: usize = 32;

/// Longest plan name, in bytes.
pub const MAX_NAME_LENGTH: usize = 64;

/// Longest plan description, in bytes.
pub const MAX_DESCRIPTION_LENGTH: usize = 256;

/// Shortest billing period: one hour, in seconds.
pub const MIN_PERIOD_DURATION: i64 = 3600;

/// Longest billing period: one year, in seconds.
pub const MAX_PERIOD_DURATION: i64 = 31_536_000;

/// Tolerance before the due time within which a payment may already be
/// collected: five minutes, in seconds.
pub const PAYMENT_GRACE_PERIOD: i64 = 300;

/// Domain tag of the registry's address.
pub const SUBSCRIPTION_MANAGER_SEED: &'static str = "subscription_manager";

/// Domain tag of a plan's address.
pub const SUBSCRIPTION_PLAN_SEED: &'static str = "subscription_plan";

/// Domain tag of a subscription's address.
pub const SUBSCRIPTION_SEED: &'static str = "subscription";

/// Domain tag of a plan's custody holding.
pub const PROVIDER_VAULT_SEED: &'static str = "provider_vault";

} // verus!
