//! The subscription lifecycle: enrolment, pause, resume and cancellation.
use crate::address::{
    bump_of, check_derived_address, is_derived, manager_address, manager_seeds, plan_address, plan_seeds,
    subscription_address, subscription_seeds, zero_key, Address,
};
use crate::context::{CancelSubscription, PauseSubscription, ResumeSubscription, Subscribe};
use crate::error::SubscriptionError;
use crate::events::{SubscriptionCancelled, SubscriptionCreated};
use crate::state::{Subscription, SubscriptionStatus};
use vstd::prelude::*;

verus! {

/// Whether the records that an enrolment names sit at their derived addresses.
pub open spec fn subscribe_addresses_valid(ctx: Subscribe) -> bool {
    let pid = ctx.program_id@;
    let plan = ctx.subscription_plan;
    &&& is_derived(subscription_seeds(ctx.subscriber@, ctx.subscription_plan_key@), pid, ctx.subscription_key@)
    &&& is_derived(manager_seeds(), pid, ctx.subscription_manager_key@)
    &&& is_derived(plan_seeds(plan.provider@, plan.plan_id@), pid, ctx.subscription_plan_key@)
}

/// The error with which an enrolment ends, if any, in the order in which the
/// checks run.
pub open spec fn enroll_error(ctx: Subscribe, now: i64) -> Option<SubscriptionError> {
    let plan = ctx.subscription_plan;
    if plan.max_subscribers matches Some(m) && plan.current_subscribers >= m {
        Some(SubscriptionError::PlanAtCapacity)
    } else if !plan.is_active {
        Some(SubscriptionError::PlanInactive)
    } else if ctx.subscriber@ == plan.provider@ {
        Some(SubscriptionError::Unauthorized)
    } else if ctx.subscription.subscriber@ != zero_key() {
        Some(SubscriptionError::SubscriptionAlreadyExists)
    } else if now + plan.period_duration_seconds > i64::MAX || now + plan.period_duration_seconds < i64::MIN
        || plan.current_subscribers == u32::MAX
        || ctx.subscription_manager.total_subscriptions == u64::MAX {
        Some(SubscriptionError::ArithmeticOverflow)
    } else {
        None
    }
}

/// What an enrolment at time `now` does: on an error nothing changes; else
/// the subscription starts active with its first payment due one period
/// from now, and the plan and the registry each count one more subscription.
pub open spec fn enrolled(
    old_ctx: Subscribe,
    new_ctx: Subscribe,
    now: i64,
    bump: u8,
    r: Result<SubscriptionCreated, SubscriptionError>,
) -> bool {
    match enroll_error(old_ctx, now) {
        Some(e) => r == Err::<SubscriptionCreated, SubscriptionError>(e) && new_ctx == old_ctx,
        None => {
            let due = (now + old_ctx.subscription_plan.period_duration_seconds) as i64;
            &&& new_ctx.subscription == (Subscription {
                subscriber: old_ctx.subscriber,
                subscription_plan: old_ctx.subscription_plan_key,
                start_time: now,
                next_payment_due: due,
                is_active: true,
                is_paused: false,
                paused_at: None,
                cancelled_at: None,
                total_payments_made: 0,
                total_amount_paid: 0,
                payment_nonce: 0,
                bump,
            })
            &&& new_ctx.subscription_plan == (crate::state::SubscriptionPlan {
                current_subscribers: (old_ctx.subscription_plan.current_subscribers + 1) as u32,
                ..old_ctx.subscription_plan
            })
            &&& new_ctx.subscription_manager == (crate::state::SubscriptionManager {
                total_subscriptions: (old_ctx.subscription_manager.total_subscriptions + 1) as u64,
                ..old_ctx.subscription_manager
            })
            &&& new_ctx.program_id == old_ctx.program_id
            &&& new_ctx.subscription_key == old_ctx.subscription_key
            &&& new_ctx.subscription_plan_key == old_ctx.subscription_plan_key
            &&& new_ctx.subscription_manager_key == old_ctx.subscription_manager_key
            &&& new_ctx.subscriber == old_ctx.subscriber
            &&& r == Ok::<SubscriptionCreated, SubscriptionError>(SubscriptionCreated {
                subscriber: old_ctx.subscriber,
                subscription_plan: old_ctx.subscription_plan_key,
                start_time: now,
                next_payment_due: due,
            })
        },
    }
}

/// Enrols `ctx.subscriber` in the plan, once the records' addresses have been
/// checked; `bump` is the subscription address's bump seed.
pub fn enroll(ctx: &mut Subscribe, now: i64, bump: u8) -> (r: Result<SubscriptionCreated, SubscriptionError>)
    ensures
        enrolled(*old(ctx), *final(ctx), now, bump, r),
        old(ctx).subscription_plan.wf() ==> final(ctx).subscription_plan.wf(),
{
    let plan = &ctx.subscription_plan;
    if let Some(max) = plan.max_subscribers {
        if plan.current_subscribers >= max {
            return Err(SubscriptionError::PlanAtCapacity);
        }
    }
    if !plan.is_active {
        return Err(SubscriptionError::PlanInactive);
    }
    if ctx.subscriber == plan.provider {
        return Err(SubscriptionError::Unauthorized);
    }
    if !ctx.subscription.subscriber.is_zero() {
        return Err(SubscriptionError::SubscriptionAlreadyExists);
    }
    let due = match now.checked_add(plan.period_duration_seconds) {
        Some(t) => t,
        None => return Err(SubscriptionError::ArithmeticOverflow),
    };
    let current_subscribers = match plan.current_subscribers.checked_add(1) {
        Some(n) => n,
        None => return Err(SubscriptionError::ArithmeticOverflow),
    };
    let total_subscriptions = match ctx.subscription_manager.total_subscriptions.checked_add(1) {
        Some(n) => n,
        None => return Err(SubscriptionError::ArithmeticOverflow),
    };
    ctx.subscription = Subscription {
        subscriber: ctx.subscriber,
        subscription_plan: ctx.subscription_plan_key,
        start_time: now,
        next_payment_due: due,
        is_active: true,
        is_paused: false,
        paused_at: None,
        cancelled_at: None,
        total_payments_made: 0,
        total_amount_paid: 0,
        payment_nonce: 0,
        bump,
    };
    ctx.subscription_plan.current_subscribers = current_subscribers;
    ctx.subscription_manager.total_subscriptions = total_subscriptions;
    Ok(SubscriptionCreated {
        subscriber: ctx.subscriber,
        subscription_plan: ctx.subscription_plan_key,
        start_time: now,
        next_payment_due: due,
    })
}

/// What subscribing does: a record at an address other than its derived one
/// is refused as `Unauthorized` before anything else; then as `enroll`.
pub open spec fn subscribed(
    old_ctx: Subscribe,
    new_ctx: Subscribe,
    now: i64,
    r: Result<SubscriptionCreated, SubscriptionError>,
) -> bool {
    if subscribe_addresses_valid(old_ctx) {
        enrolled(
            old_ctx,
            new_ctx,
            now,
            bump_of(subscription_seeds(old_ctx.subscriber@, old_ctx.subscription_plan_key@), old_ctx.program_id@),
            r,
        )
    } else {
        r == Err::<SubscriptionCreated, SubscriptionError>(SubscriptionError::Unauthorized) && new_ctx == old_ctx
    }
}

/// Subscribes `ctx.subscriber` to the plan at time `now`.
pub fn subscribe(ctx: &mut Subscribe, now: i64) -> (r: Result<SubscriptionCreated, SubscriptionError>)
    ensures
        subscribed(*old(ctx), *final(ctx), now, r),
        old(ctx).subscription_plan.wf() ==> final(ctx).subscription_plan.wf(),
{
    let bump = check_derived_address(
        subscription_address(&ctx.program_id, &ctx.subscriber, &ctx.subscription_plan_key),
        &ctx.subscription_key,
    )?;
    check_derived_address(manager_address(&ctx.program_id), &ctx.subscription_manager_key)?;
    check_derived_address(
        plan_address(&ctx.program_id, &ctx.subscription_plan.provider, ctx.subscription_plan.plan_id.as_str()),
        &ctx.subscription_plan_key,
    )?;
    enroll(ctx, now, bump)
}

/// Whether `subscription`, stored at `key`, is the one of `subscriber` in the
/// plan at `plan_key`.
pub open spec fn owns(subscription: Subscription, key: Seq<u8>, subscriber: Seq<u8>, plan_key: Seq<u8>, program_id: Seq<u8>) -> bool {
    &&& is_derived(subscription_seeds(subscriber, plan_key), program_id, key)
    &&& subscription.subscriber@ == subscriber
    &&& subscription.subscription_plan@ == plan_key
}

/// Refuses, as `Unauthorized`, a subscription that is not the one of
/// `subscriber` in the plan at `plan_key`.
pub fn check_ownership(
    subscription: &Subscription,
    key: &Address,
    subscriber: &Address,
    plan_key: &Address,
    program_id: &Address,
) -> (r: Result<(), SubscriptionError>)
    ensures
        r == (if owns(*subscription, key@, subscriber@, plan_key@, program_id@) {
            Ok::<(), SubscriptionError>(())
        } else {
            Err(SubscriptionError::Unauthorized)
        }),
{
    check_derived_address(subscription_address(program_id, subscriber, plan_key), key)?;
    if subscription.subscriber != *subscriber || subscription.subscription_plan != *plan_key {
        return Err(SubscriptionError::Unauthorized);
    }
    Ok(())
}

/// Pauses an active subscription at time `now`; payments are refused while
/// it is paused.
pub fn pause_subscription(ctx: &mut PauseSubscription, now: i64) -> (r: Result<(), SubscriptionError>)
    ensures
        ({
            let sub = old(ctx).subscription;
            if !owns(sub, old(ctx).subscription_key@, old(ctx).subscriber@, old(ctx).subscription_plan_key@, old(ctx).program_id@) {
                r == Err::<(), SubscriptionError>(SubscriptionError::Unauthorized) && *final(ctx) == *old(ctx)
            } else if sub.status() == SubscriptionStatus::Cancelled {
                r == Err::<(), SubscriptionError>(SubscriptionError::SubscriptionInactive) && *final(ctx) == *old(ctx)
            } else if sub.status() == SubscriptionStatus::Paused {
                r == Err::<(), SubscriptionError>(SubscriptionError::SubscriptionPaused) && *final(ctx) == *old(ctx)
            } else {
                &&& r == Ok::<(), SubscriptionError>(())
                &&& *final(ctx) == (PauseSubscription {
                    subscription: Subscription { is_paused: true, paused_at: Some(now), ..sub },
                    ..*old(ctx)
                })
                &&& final(ctx).subscription.status() == SubscriptionStatus::Paused
            }
        }),
        old(ctx).subscription.wf() ==> final(ctx).subscription.wf(),
{
    check_ownership(&ctx.subscription, &ctx.subscription_key, &ctx.subscriber, &ctx.subscription_plan_key, &ctx.program_id)?;
    if !ctx.subscription.is_active {
        return Err(SubscriptionError::SubscriptionInactive);
    }
    if ctx.subscription.is_paused {
        return Err(SubscriptionError::SubscriptionPaused);
    }
    ctx.subscription.is_paused = true;
    ctx.subscription.paused_at = Some(now);
    Ok(())
}

/// Resumes a paused subscription. The due time is left as it was, so a
/// subscription whose due time passed while it was paused may be charged at
/// once. Resuming one that is not paused changes nothing.
pub fn resume_subscription(ctx: &mut ResumeSubscription) -> (r: Result<(), SubscriptionError>)
    ensures
        ({
            let sub = old(ctx).subscription;
            if !owns(sub, old(ctx).subscription_key@, old(ctx).subscriber@, old(ctx).subscription_plan_key@, old(ctx).program_id@) {
                r == Err::<(), SubscriptionError>(SubscriptionError::Unauthorized) && *final(ctx) == *old(ctx)
            } else if sub.status() == SubscriptionStatus::Cancelled {
                r == Err::<(), SubscriptionError>(SubscriptionError::SubscriptionInactive) && *final(ctx) == *old(ctx)
            } else if sub.status() == SubscriptionStatus::Active {
                r == Ok::<(), SubscriptionError>(()) && *final(ctx) == *old(ctx)
            } else {
                &&& r == Ok::<(), SubscriptionError>(())
                &&& *final(ctx) == (ResumeSubscription {
                    subscription: Subscription { is_paused: false, paused_at: None, ..sub },
                    ..*old(ctx)
                })
                &&& final(ctx).subscription.status() == SubscriptionStatus::Active
            }
        }),
        old(ctx).subscription.wf() ==> final(ctx).subscription.wf(),
{
    check_ownership(&ctx.subscription, &ctx.subscription_key, &ctx.subscriber, &ctx.subscription_plan_key, &ctx.program_id)?;
    if !ctx.subscription.is_active {
        return Err(SubscriptionError::SubscriptionInactive);
    }
    if ctx.subscription.is_paused {
        ctx.subscription.is_paused = false;
        ctx.subscription.paused_at = None;
    }
    Ok(())
}

/// What cancelling at time `now` does: on an error nothing changes; else the
/// subscription is cancelled for good and the plan counts one subscriber less.
pub open spec fn cancelled(
    old_ctx: CancelSubscription,
    new_ctx: CancelSubscription,
    now: i64,
    r: Result<SubscriptionCancelled, SubscriptionError>,
) -> bool {
    let sub = old_ctx.subscription;
    let plan = old_ctx.subscription_plan;
    if !owns(sub, old_ctx.subscription_key@, old_ctx.subscriber@, old_ctx.subscription_plan_key@, old_ctx.program_id@) {
        r == Err::<SubscriptionCancelled, SubscriptionError>(SubscriptionError::Unauthorized) && new_ctx == old_ctx
    } else if sub.status() == SubscriptionStatus::Cancelled {
        r == Err::<SubscriptionCancelled, SubscriptionError>(SubscriptionError::SubscriptionInactive) && new_ctx == old_ctx
    } else if plan.current_subscribers == 0 {
        r == Err::<SubscriptionCancelled, SubscriptionError>(SubscriptionError::ArithmeticOverflow) && new_ctx == old_ctx
    } else {
        &&& new_ctx == (CancelSubscription {
            subscription: Subscription { is_active: false, is_paused: false, cancelled_at: Some(now), ..sub },
            subscription_plan: crate::state::SubscriptionPlan {
                current_subscribers: (plan.current_subscribers - 1) as u32,
                ..plan
            },
            ..old_ctx
        })
        &&& r == Ok::<SubscriptionCancelled, SubscriptionError>(SubscriptionCancelled {
            subscriber: sub.subscriber,
            subscription_plan: sub.subscription_plan,
            cancelled_at: now,
        })
    }
}

/// Cancels an active or paused subscription at time `now`, for good, and
/// takes it off the plan's subscriber count.
pub fn cancel_subscription(ctx: &mut CancelSubscription, now: i64) -> (r: Result<SubscriptionCancelled, SubscriptionError>)
    ensures
        cancelled(*old(ctx), *final(ctx), now, r),
        r is Ok ==> final(ctx).subscription.status() == SubscriptionStatus::Cancelled,
        old(ctx).subscription.wf() ==> final(ctx).subscription.wf(),
        old(ctx).subscription_plan.wf() ==> final(ctx).subscription_plan.wf(),
{
    check_ownership(&ctx.subscription, &ctx.subscription_key, &ctx.subscriber, &ctx.subscription_plan_key, &ctx.program_id)?;
    if !ctx.subscription.is_active {
        return Err(SubscriptionError::SubscriptionInactive);
    }
    let current_subscribers = match ctx.subscription_plan.current_subscribers.checked_sub(1) {
        Some(n) => n,
        None => return Err(SubscriptionError::ArithmeticOverflow),
    };
    ctx.subscription.is_active = false;
    ctx.subscription.is_paused = false;
    ctx.subscription.cancelled_at = Some(now);
    ctx.subscription_plan.current_subscribers = current_subscribers;
    Ok(SubscriptionCancelled {
        subscriber: ctx.subscription.subscriber,
        subscription_plan: ctx.subscription.subscription_plan,
        cancelled_at: now,
    })
}

/// A plan whose subscriber count has reached its capacity refuses every
/// enrolment with `PlanAtCapacity`, and no subscription record is written,
/// once the records' addresses have been accepted.
pub proof fn lemma_full_plan_refuses_enrolment(
    old_ctx: Subscribe,
    new_ctx: Subscribe,
    now: i64,
    r: Result<SubscriptionCreated, SubscriptionError>,
)
    requires
        subscribed(old_ctx, new_ctx, now, r),
        subscribe_addresses_valid(old_ctx),
        old_ctx.subscription_plan.max_subscribers == Some(old_ctx.subscription_plan.current_subscribers),
    ensures
        r == Err::<SubscriptionCreated, SubscriptionError>(SubscriptionError::PlanAtCapacity),
        new_ctx == old_ctx,
        new_ctx.subscription == old_ctx.subscription,
        new_ctx.subscription_plan == old_ctx.subscription_plan,
        new_ctx.subscription_manager == old_ctx.subscription_manager,
{
}

/// Cancelling takes the subscription off the plan's count exactly once: a
/// second cancellation of it is refused with `SubscriptionInactive` and
/// leaves the plan's count alone.
pub proof fn lemma_cancel_counts_once(
    ctx0: CancelSubscription,
    ctx1: CancelSubscription,
    ctx2: CancelSubscription,
    t1: i64,
    t2: i64,
    r1: Result<SubscriptionCancelled, SubscriptionError>,
    r2: Result<SubscriptionCancelled, SubscriptionError>,
)
    requires
        cancelled(ctx0, ctx1, t1, r1),
        r1 is Ok,
        cancelled(ctx1, ctx2, t2, r2),
    ensures
        ctx1.subscription_plan.current_subscribers == ctx0.subscription_plan.current_subscribers - 1,
        r2 == Err::<SubscriptionCancelled, SubscriptionError>(SubscriptionError::SubscriptionInactive),
        ctx2.subscription_plan.current_subscribers == ctx1.subscription_plan.current_subscribers,
{
}

} // verus!
