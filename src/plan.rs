//! The registry and the plan catalog: setting up the registry, publishing a
//! plan with its custody holding, and changing a plan's terms.
use crate::address::{
    bump_of, check_derived_address, is_derived, manager_address, manager_seeds, plan_address, plan_seeds,
    token_program_id, token_program_key, vault_address, vault_seeds,
    zero_key,
};
use crate::constants::{
    MAX_DESCRIPTION_LENGTH, MAX_NAME_LENGTH, MAX_PERIOD_DURATION, MAX_PLAN_ID_LENGTH,
    MIN_PERIOD_DURATION,
};
use crate::context::{CreateSubscriptionPlan, InitializeManager, TokenHolding, UpdateSubscriptionPlan};
use crate::error::SubscriptionError;
use crate::events::{SubscriptionPlanCreated, SubscriptionPlanUpdated};
use crate::state::{byte_len, within_capacity, SubscriptionManager, SubscriptionPlan};
use vstd::prelude::*;

verus! {

pub open spec fn outcome(e: Option<SubscriptionError>) -> Result<(), SubscriptionError> {
    match e {
        Some(e) => Err(e),
        None => Ok(()),
    }
}

/// The first bound that a plan's terms break, in the order in which they are checked.
pub open spec fn plan_terms_error(
    plan_id: Seq<char>,
    name: Seq<char>,
    description: Seq<char>,
    price: u64,
    period: i64,
) -> Option<SubscriptionError> {
    if byte_len(plan_id) > MAX_PLAN_ID_LENGTH {
        Some(SubscriptionError::PlanIdTooLong)
    } else if byte_len(name) > MAX_NAME_LENGTH {
        Some(SubscriptionError::NameTooLong)
    } else if byte_len(description) > MAX_DESCRIPTION_LENGTH {
        Some(SubscriptionError::DescriptionTooLong)
    } else if price == 0 {
        Some(SubscriptionError::InvalidPrice)
    } else if period < MIN_PERIOD_DURATION || period > MAX_PERIOD_DURATION {
        Some(SubscriptionError::InvalidPeriod)
    } else {
        None
    }
}

/// Checks a plan's terms against their bounds.
pub fn validate_plan_terms(plan_id: &str, name: &str, description: &str, price_per_period: u64, period_duration_seconds: i64) -> (r: Result<(), SubscriptionError>)
    ensures
        r == outcome(plan_terms_error(plan_id@, name@, description@, price_per_period, period_duration_seconds)),
{
    if plan_id.as_bytes().len() > MAX_PLAN_ID_LENGTH {
        return Err(SubscriptionError::PlanIdTooLong);
    }
    if name.as_bytes().len() > MAX_NAME_LENGTH {
        return Err(SubscriptionError::NameTooLong);
    }
    if description.as_bytes().len() > MAX_DESCRIPTION_LENGTH {
        return Err(SubscriptionError::DescriptionTooLong);
    }
    if price_per_period == 0 {
        return Err(SubscriptionError::InvalidPrice);
    }
    if period_duration_seconds < MIN_PERIOD_DURATION || period_duration_seconds > MAX_PERIOD_DURATION {
        return Err(SubscriptionError::InvalidPeriod);
    }
    Ok(())
}

/// Sets up the registry at its derived address, owned by a signer that is not
/// the all-zero identity, with both counters at zero. The registry is created
/// once: a record that is already written is refused and kept as it is.
pub fn initialize_manager(ctx: &mut InitializeManager) -> (r: Result<(), SubscriptionError>)
    ensures
        ({
            let seeds = manager_seeds();
            let pid = old(ctx).program_id@;
            if old(ctx).authority@ == zero_key() {
                &&& r == Err::<(), SubscriptionError>(SubscriptionError::Unauthorized)
                &&& *final(ctx) == *old(ctx)
            } else if old(ctx).subscription_manager.authority@ != zero_key() {
                &&& r == Err::<(), SubscriptionError>(SubscriptionError::AccountAlreadyInitialized)
                &&& *final(ctx) == *old(ctx)
            } else if !is_derived(seeds, pid, old(ctx).subscription_manager_key@) {
                &&& r == Err::<(), SubscriptionError>(SubscriptionError::Unauthorized)
                &&& *final(ctx) == *old(ctx)
            } else {
                &&& r == Ok::<(), SubscriptionError>(())
                &&& final(ctx).subscription_manager == (SubscriptionManager {
                    authority: old(ctx).authority,
                    total_providers: 0,
                    total_subscriptions: 0,
                    bump: bump_of(seeds, pid),
                })
                &&& final(ctx).program_id == old(ctx).program_id
                &&& final(ctx).subscription_manager_key == old(ctx).subscription_manager_key
                &&& final(ctx).authority == old(ctx).authority
            }
        }),
{
    if ctx.authority.is_zero() {
        return Err(SubscriptionError::Unauthorized);
    }
    if !ctx.subscription_manager.authority.is_zero() {
        return Err(SubscriptionError::AccountAlreadyInitialized);
    }
    let bump = check_derived_address(manager_address(&ctx.program_id), &ctx.subscription_manager_key)?;
    ctx.subscription_manager = SubscriptionManager {
        authority: ctx.authority,
        total_providers: 0,
        total_subscriptions: 0,
        bump,
    };
    Ok(())
}

/// Whether the plan record or its custody holding is already written: a plan
/// is created once per provider and plan identifier, and never overwritten.
pub open spec fn plan_exists(ctx: CreateSubscriptionPlan) -> bool {
    ctx.subscription_plan.provider@ != zero_key() || ctx.provider_vault.owner@ != zero_key()
}

/// The error with which publishing a plan ends, if any, in the order in which
/// the checks run: the terms, the registry's standing, a plan already there,
/// the mint, the derived addresses, the provider counter.
pub open spec fn create_plan_error(
    ctx: CreateSubscriptionPlan,
    plan_id: Seq<char>,
    name: Seq<char>,
    description: Seq<char>,
    price: u64,
    period: i64,
) -> Option<SubscriptionError> {
    let pid = ctx.program_id@;
    if plan_terms_error(plan_id, name, description, price, period) is Some {
        plan_terms_error(plan_id, name, description, price, period)
    } else if ctx.subscription_manager.authority@ == zero_key() {
        Some(SubscriptionError::Unauthorized)
    } else if plan_exists(ctx) {
        Some(SubscriptionError::AccountAlreadyInitialized)
    } else if ctx.payment_token_mint_owner@ != token_program_key() {
        Some(SubscriptionError::InvalidTokenMint)
    } else if !is_derived(manager_seeds(), pid, ctx.subscription_manager_key@)
        || !is_derived(plan_seeds(ctx.provider@, plan_id), pid, ctx.subscription_plan_key@)
        || !is_derived(vault_seeds(ctx.provider@, plan_id), pid, ctx.provider_vault.key@) {
        Some(SubscriptionError::Unauthorized)
    } else if ctx.subscription_manager.total_providers == u64::MAX {
        Some(SubscriptionError::ArithmeticOverflow)
    } else {
        None
    }
}

/// What publishing a plan does: on an error nothing changes; else the plan
/// record starts active with no subscribers and no revenue, its custody
/// holding starts empty under the plan's own authority (never the
/// provider's), and the registry counts one more provider.
pub open spec fn plan_created(
    old_ctx: CreateSubscriptionPlan,
    new_ctx: CreateSubscriptionPlan,
    plan_id: String,
    name: String,
    description: String,
    price_per_period: u64,
    period_duration_seconds: i64,
    max_subscribers: Option<u32>,
    now: i64,
    r: Result<SubscriptionPlanCreated, SubscriptionError>,
) -> bool {
    match create_plan_error(old_ctx, plan_id@, name@, description@, price_per_period, period_duration_seconds) {
        Some(e) => r matches Err(x) && x == e && new_ctx == old_ctx,
        None => {
            &&& new_ctx.subscription_plan == (SubscriptionPlan {
                provider: old_ctx.provider,
                plan_id,
                name,
                description,
                price_per_period,
                period_duration_seconds,
                payment_token: old_ctx.payment_token_mint,
                max_subscribers,
                current_subscribers: 0,
                total_revenue: 0,
                is_active: true,
                created_at: now,
                bump: bump_of(plan_seeds(old_ctx.provider@, plan_id@), old_ctx.program_id@),
            })
            &&& new_ctx.provider_vault == (TokenHolding {
                key: old_ctx.provider_vault.key,
                owner: old_ctx.subscription_plan_key,
                mint: old_ctx.payment_token_mint,
                amount: 0,
            })
            &&& new_ctx.subscription_manager == (SubscriptionManager {
                total_providers: (old_ctx.subscription_manager.total_providers + 1) as u64,
                ..old_ctx.subscription_manager
            })
            &&& new_ctx.program_id == old_ctx.program_id
            &&& new_ctx.subscription_plan_key == old_ctx.subscription_plan_key
            &&& new_ctx.subscription_manager_key == old_ctx.subscription_manager_key
            &&& new_ctx.payment_token_mint == old_ctx.payment_token_mint
            &&& new_ctx.payment_token_mint_owner == old_ctx.payment_token_mint_owner
            &&& new_ctx.provider == old_ctx.provider
            &&& new_ctx.subscription_plan.wf()
            &&& r matches Ok(ev) && {
                &&& ev.provider == old_ctx.provider
                &&& ev.plan_id@ == plan_id@
                &&& ev.price_per_period == price_per_period
                &&& ev.period_duration_seconds == period_duration_seconds
                &&& ev.payment_token == old_ctx.payment_token_mint
            }
        },
    }
}

/// Publishes the plan that `ctx.provider` names `plan_id`, at time `now`.
pub fn create_subscription_plan(
    ctx: &mut CreateSubscriptionPlan,
    plan_id: String,
    name: String,
    description: String,
    price_per_period: u64,
    period_duration_seconds: i64,
    max_subscribers: Option<u32>,
    now: i64,
) -> (r: Result<SubscriptionPlanCreated, SubscriptionError>)
    ensures
        plan_created(
            *old(ctx),
            *final(ctx),
            plan_id,
            name,
            description,
            price_per_period,
            period_duration_seconds,
            max_subscribers,
            now,
            r,
        ),
{
    validate_plan_terms(plan_id.as_str(), name.as_str(), description.as_str(), price_per_period, period_duration_seconds)?;
    if ctx.subscription_manager.authority.is_zero() {
        return Err(SubscriptionError::Unauthorized);
    }
    if !ctx.subscription_plan.provider.is_zero() || !ctx.provider_vault.owner.is_zero() {
        return Err(SubscriptionError::AccountAlreadyInitialized);
    }
    if ctx.payment_token_mint_owner != token_program_id() {
        return Err(SubscriptionError::InvalidTokenMint);
    }
    check_derived_address(manager_address(&ctx.program_id), &ctx.subscription_manager_key)?;
    let bump = check_derived_address(
        plan_address(&ctx.program_id, &ctx.provider, plan_id.as_str()),
        &ctx.subscription_plan_key,
    )?;
    check_derived_address(vault_address(&ctx.program_id, &ctx.provider, plan_id.as_str()), &ctx.provider_vault.key)?;
    let total_providers = match ctx.subscription_manager.total_providers.checked_add(1) {
        Some(n) => n,
        None => return Err(SubscriptionError::ArithmeticOverflow),
    };
    let event = SubscriptionPlanCreated {
        provider: ctx.provider,
        plan_id: plan_id.clone(),
        price_per_period,
        period_duration_seconds,
        payment_token: ctx.payment_token_mint,
    };
    ctx.subscription_plan = SubscriptionPlan {
        provider: ctx.provider,
        plan_id,
        name,
        description,
        price_per_period,
        period_duration_seconds,
        payment_token: ctx.payment_token_mint,
        max_subscribers,
        current_subscribers: 0,
        total_revenue: 0,
        is_active: true,
        created_at: now,
        bump,
    };
    ctx.provider_vault = TokenHolding {
        key: ctx.provider_vault.key,
        owner: ctx.subscription_plan_key,
        mint: ctx.payment_token_mint,
        amount: 0,
    };
    ctx.subscription_manager.total_providers = total_providers;
    Ok(event)
}

/// Every valid plan creation succeeds: with terms within their bounds, a
/// registry that is written, no plan yet for the provider and identifier, a
/// mint of the token program, records at their derived addresses and room in
/// the provider counter, the plan starts with no subscribers and no revenue,
/// and the registry counts exactly one more provider and nothing else changes
/// in it.
pub proof fn lemma_valid_creation_starts_empty(
    old_ctx: CreateSubscriptionPlan,
    new_ctx: CreateSubscriptionPlan,
    plan_id: String,
    name: String,
    description: String,
    price_per_period: u64,
    period_duration_seconds: i64,
    max_subscribers: Option<u32>,
    now: i64,
    r: Result<SubscriptionPlanCreated, SubscriptionError>,
)
    requires
        plan_created(
            old_ctx,
            new_ctx,
            plan_id,
            name,
            description,
            price_per_period,
            period_duration_seconds,
            max_subscribers,
            now,
            r,
        ),
        plan_terms_error(plan_id@, name@, description@, price_per_period, period_duration_seconds) is None,
        old_ctx.subscription_manager.authority@ != zero_key(),
        !plan_exists(old_ctx),
        old_ctx.payment_token_mint_owner@ == token_program_key(),
        is_derived(manager_seeds(), old_ctx.program_id@, old_ctx.subscription_manager_key@),
        is_derived(plan_seeds(old_ctx.provider@, plan_id@), old_ctx.program_id@, old_ctx.subscription_plan_key@),
        is_derived(vault_seeds(old_ctx.provider@, plan_id@), old_ctx.program_id@, old_ctx.provider_vault.key@),
        old_ctx.subscription_manager.total_providers < u64::MAX,
    ensures
        r is Ok,
        new_ctx.subscription_plan.current_subscribers == 0,
        new_ctx.subscription_plan.total_revenue == 0,
        new_ctx.subscription_manager.total_providers == old_ctx.subscription_manager.total_providers + 1,
        new_ctx.subscription_manager.total_subscriptions == old_ctx.subscription_manager.total_subscriptions,
        new_ctx.subscription_manager.authority == old_ctx.subscription_manager.authority,
        new_ctx.provider_vault.amount == 0,
{
}

/// Publishing never overwrites: where a plan or its custody holding is
/// already written, creation fails and every record keeps what it held.
pub proof fn lemma_existing_plan_kept(
    old_ctx: CreateSubscriptionPlan,
    new_ctx: CreateSubscriptionPlan,
    plan_id: String,
    name: String,
    description: String,
    price_per_period: u64,
    period_duration_seconds: i64,
    max_subscribers: Option<u32>,
    now: i64,
    r: Result<SubscriptionPlanCreated, SubscriptionError>,
)
    requires
        plan_created(
            old_ctx,
            new_ctx,
            plan_id,
            name,
            description,
            price_per_period,
            period_duration_seconds,
            max_subscribers,
            now,
            r,
        ),
        plan_exists(old_ctx),
    ensures
        r is Err,
        new_ctx == old_ctx,
{
}

/// Whether an optional new name or description is over `max` bytes.
pub open spec fn too_long(s: Option<String>, max: usize) -> bool {
    s matches Some(t) && byte_len(t@) > max
}

/// The error with which changing a plan ends, if any: the caller must be the
/// plan's provider and the plan must sit at its derived address; then the new
/// terms are checked, and a new capacity may not fall below the subscribers
/// the plan already has.
pub open spec fn update_plan_error(
    ctx: UpdateSubscriptionPlan,
    name: Option<String>,
    description: Option<String>,
    price_per_period: Option<u64>,
    max_subscribers: Option<Option<u32>>,
) -> Option<SubscriptionError> {
    let plan = ctx.subscription_plan;
    if ctx.provider@ != plan.provider@ || !is_derived(plan_seeds(plan.provider@, plan.plan_id@), ctx.program_id@, ctx.subscription_plan_key@) {
        Some(SubscriptionError::Unauthorized)
    } else if too_long(name, MAX_NAME_LENGTH) {
        Some(SubscriptionError::NameTooLong)
    } else if too_long(description, MAX_DESCRIPTION_LENGTH) {
        Some(SubscriptionError::DescriptionTooLong)
    } else if price_per_period == Some(0u64) {
        Some(SubscriptionError::InvalidPrice)
    } else if max_subscribers matches Some(m) && !within_capacity(plan.current_subscribers, m) {
        Some(SubscriptionError::PlanAtCapacity)
    } else {
        None
    }
}

pub open spec fn or_keep<T>(new: Option<T>, current: T) -> T {
    match new {
        Some(v) => v,
        None => current,
    }
}

/// Changes a plan's mutable terms and its active flag; each `None` keeps what
/// the plan has. An inactive plan takes no new subscribers, while existing
/// subscriptions go on paying until they are cancelled.
pub fn update_subscription_plan(
    ctx: &mut UpdateSubscriptionPlan,
    name: Option<String>,
    description: Option<String>,
    price_per_period: Option<u64>,
    max_subscribers: Option<Option<u32>>,
    is_active: Option<bool>,
    now: i64,
) -> (r: Result<SubscriptionPlanUpdated, SubscriptionError>)
    ensures
        match update_plan_error(*old(ctx), name, description, price_per_period, max_subscribers) {
            Some(e) => r matches Err(x) && x == e && *final(ctx) == *old(ctx),
            None => {
                let plan = final(ctx).subscription_plan;
                &&& plan == (SubscriptionPlan {
                    name: or_keep(name, old(ctx).subscription_plan.name),
                    description: or_keep(description, old(ctx).subscription_plan.description),
                    price_per_period: or_keep(price_per_period, old(ctx).subscription_plan.price_per_period),
                    max_subscribers: or_keep(max_subscribers, old(ctx).subscription_plan.max_subscribers),
                    is_active: or_keep(is_active, old(ctx).subscription_plan.is_active),
                    ..old(ctx).subscription_plan
                })
                &&& final(ctx).program_id == old(ctx).program_id
                &&& final(ctx).subscription_plan_key == old(ctx).subscription_plan_key
                &&& final(ctx).provider == old(ctx).provider
                &&& old(ctx).subscription_plan.wf() ==> plan.wf()
                &&& r matches Ok(ev) && {
                    &&& ev.provider == plan.provider
                    &&& ev.plan_id@ == plan.plan_id@
                    &&& ev.name@ == plan.name@
                    &&& ev.description@ == plan.description@
                    &&& ev.price_per_period == plan.price_per_period
                    &&& ev.period_duration_seconds == plan.period_duration_seconds
                    &&& ev.max_subscribers == plan.max_subscribers
                    &&& ev.is_active == plan.is_active
                    &&& ev.updated_at == now
                }
            },
        },
{
    if ctx.provider != ctx.subscription_plan.provider {
        return Err(SubscriptionError::Unauthorized);
    }
    check_derived_address(
        plan_address(&ctx.program_id, &ctx.subscription_plan.provider, ctx.subscription_plan.plan_id.as_str()),
        &ctx.subscription_plan_key,
    )?;
    if let Some(n) = &name {
        if n.as_str().as_bytes().len() > MAX_NAME_LENGTH {
            return Err(SubscriptionError::NameTooLong);
        }
    }
    if let Some(d) = &description {
        if d.as_str().as_bytes().len() > MAX_DESCRIPTION_LENGTH {
            return Err(SubscriptionError::DescriptionTooLong);
        }
    }
    if let Some(p) = price_per_period {
        if p == 0 {
            return Err(SubscriptionError::InvalidPrice);
        }
    }
    if let Some(Some(m)) = max_subscribers {
        if ctx.subscription_plan.current_subscribers > m {
            return Err(SubscriptionError::PlanAtCapacity);
        }
    }
    if let Some(n) = name {
        ctx.subscription_plan.name = n;
    }
    if let Some(d) = description {
        ctx.subscription_plan.description = d;
    }
    if let Some(p) = price_per_period {
        ctx.subscription_plan.price_per_period = p;
    }
    if let Some(m) = max_subscribers {
        ctx.subscription_plan.max_subscribers = m;
    }
    if let Some(a) = is_active {
        ctx.subscription_plan.is_active = a;
    }
    let plan = &ctx.subscription_plan;
    Ok(SubscriptionPlanUpdated {
        provider: plan.provider,
        plan_id: plan.plan_id.clone(),
        name: plan.name.clone(),
        description: plan.description.clone(),
        price_per_period: plan.price_per_period,
        period_duration_seconds: plan.period_duration_seconds,
        max_subscribers: plan.max_subscribers,
        is_active: plan.is_active,
        updated_at: now,
    })
}

} // verus!
