//! Payment collection into a plan's custody holding, and the provider's
//! withdrawal from it.
use crate::address::{
    check_derived_address, is_derived, plan_address, plan_seeds, vault_address, vault_seeds,
};
use crate::constants::PAYMENT_GRACE_PERIOD;
use crate::context::{ProcessPayment, TokenHolding, WithdrawFunds};
use crate::error::SubscriptionError;
use crate::events::PaymentProcessed;
use crate::state::{Subscription, SubscriptionPlan, SubscriptionStatus};
use crate::subscription::{check_ownership, owns};
use vstd::prelude::*;

verus! {

/// Whether a payment due at `next_due` may be collected at time `now`: from
/// the grace period before the due time on.
pub open spec fn payment_due(next_due: i64, now: i64) -> bool {
    now >= next_due - PAYMENT_GRACE_PERIOD
}

/// Whether the subscription's next payment may be collected at time `now`.
pub fn is_payment_due(subscription: &Subscription, now: i64) -> (r: bool)
    ensures
        r == payment_due(subscription.next_payment_due, now),
{
    (now as i128) >= (subscription.next_payment_due as i128) - (PAYMENT_GRACE_PERIOD as i128)
}

/// Whether `a + b` leaves the range of `u64`.
pub open spec fn overflows_u64(a: u64, b: u64) -> bool {
    a + b > u64::MAX
}

/// Whether the subscriber's holding is the subscriber's own and the custody
/// holding is under the plan's authority, both of the plan's token.
pub open spec fn holdings_match(ctx: ProcessPayment) -> bool {
    &&& ctx.subscriber_token_account.owner@ == ctx.subscriber@
    &&& ctx.provider_vault.owner@ == ctx.subscription_plan_key@
    &&& ctx.subscriber_token_account.mint@ == ctx.subscription_plan.payment_token@
    &&& ctx.provider_vault.mint@ == ctx.subscription_plan.payment_token@
}

/// Whether every counter, the due time and the custody balance can take one
/// more payment without leaving their ranges.
pub open spec fn collection_fits(ctx: ProcessPayment) -> bool {
    let sub = ctx.subscription;
    let plan = ctx.subscription_plan;
    let price = plan.price_per_period;
    &&& i64::MIN <= sub.next_payment_due + plan.period_duration_seconds <= i64::MAX
    &&& sub.total_payments_made < u32::MAX
    &&& !overflows_u64(sub.total_amount_paid, price)
    &&& sub.payment_nonce < u64::MAX
    &&& !overflows_u64(plan.total_revenue, price)
    &&& !overflows_u64(ctx.provider_vault.amount, price)
}

/// The error with which a collection at time `now` ends, if any, in the order
/// in which the checks run: the holdings' owners and tokens, the
/// subscription's state, the due time, the balance, and every counter.
pub open spec fn collect_error(ctx: ProcessPayment, now: i64) -> Option<SubscriptionError> {
    let sub = ctx.subscription;
    let plan = ctx.subscription_plan;
    if ctx.subscriber_token_account.owner@ != ctx.subscriber@ || ctx.provider_vault.owner@ != ctx.subscription_plan_key@ {
        Some(SubscriptionError::Unauthorized)
    } else if ctx.subscriber_token_account.mint@ != plan.payment_token@ || ctx.provider_vault.mint@ != plan.payment_token@ {
        Some(SubscriptionError::InvalidTokenMint)
    } else if !sub.is_active {
        Some(SubscriptionError::SubscriptionInactive)
    } else if sub.is_paused {
        Some(SubscriptionError::SubscriptionPaused)
    } else if !payment_due(sub.next_payment_due, now) {
        Some(SubscriptionError::PaymentNotDue)
    } else if ctx.subscriber_token_account.amount < plan.price_per_period {
        Some(SubscriptionError::InsufficientFunds)
    } else if !collection_fits(ctx) {
        Some(SubscriptionError::ArithmeticOverflow)
    } else {
        None
    }
}

/// What a collection at time `now` does. On an error nothing changes. Else,
/// in one step: one period's price moves from the subscriber's holding to the
/// custody holding; the due time moves one period on; the subscription counts
/// one more payment, the price more paid, and one more nonce; and the plan's
/// revenue grows by the price.
pub open spec fn collected(
    old_ctx: ProcessPayment,
    new_ctx: ProcessPayment,
    now: i64,
    r: Result<PaymentProcessed, SubscriptionError>,
) -> bool {
    match collect_error(old_ctx, now) {
        Some(e) => r == Err::<PaymentProcessed, SubscriptionError>(e) && new_ctx == old_ctx,
        None => {
            let sub = old_ctx.subscription;
            let plan = old_ctx.subscription_plan;
            let price = plan.price_per_period;
            let new_sub = Subscription {
                next_payment_due: (sub.next_payment_due + plan.period_duration_seconds) as i64,
                total_payments_made: (sub.total_payments_made + 1) as u32,
                total_amount_paid: (sub.total_amount_paid + price) as u64,
                payment_nonce: (sub.payment_nonce + 1) as u64,
                ..sub
            };
            &&& new_ctx.subscription == new_sub
            &&& new_ctx.subscription_plan == (SubscriptionPlan {
                total_revenue: (plan.total_revenue + price) as u64,
                ..plan
            })
            &&& new_ctx.subscriber_token_account == (TokenHolding {
                amount: (old_ctx.subscriber_token_account.amount - price) as u64,
                ..old_ctx.subscriber_token_account
            })
            &&& new_ctx.provider_vault == (TokenHolding {
                amount: (old_ctx.provider_vault.amount + price) as u64,
                ..old_ctx.provider_vault
            })
            &&& new_ctx.program_id == old_ctx.program_id
            &&& new_ctx.subscription_key == old_ctx.subscription_key
            &&& new_ctx.subscription_plan_key == old_ctx.subscription_plan_key
            &&& new_ctx.subscriber == old_ctx.subscriber
            &&& r == Ok::<PaymentProcessed, SubscriptionError>(PaymentProcessed {
                subscriber: sub.subscriber,
                subscription_plan: sub.subscription_plan,
                amount: price,
                payment_number: new_sub.total_payments_made,
                payment_nonce: new_sub.payment_nonce,
                next_payment_due: new_sub.next_payment_due,
            })
        },
    }
}

/// Collects one period's payment at time `now`, once the records' addresses
/// have been checked. Anyone may ask for it: every condition is read from the
/// records themselves.
pub fn collect_payment(ctx: &mut ProcessPayment, now: i64) -> (r: Result<PaymentProcessed, SubscriptionError>)
    ensures
        collected(*old(ctx), *final(ctx), now, r),
{
    if ctx.subscriber_token_account.owner != ctx.subscriber || ctx.provider_vault.owner != ctx.subscription_plan_key {
        return Err(SubscriptionError::Unauthorized);
    }
    let price = ctx.subscription_plan.price_per_period;
    if ctx.subscriber_token_account.mint != ctx.subscription_plan.payment_token
        || ctx.provider_vault.mint != ctx.subscription_plan.payment_token {
        return Err(SubscriptionError::InvalidTokenMint);
    }
    if !ctx.subscription.is_active {
        return Err(SubscriptionError::SubscriptionInactive);
    }
    if ctx.subscription.is_paused {
        return Err(SubscriptionError::SubscriptionPaused);
    }
    if !is_payment_due(&ctx.subscription, now) {
        return Err(SubscriptionError::PaymentNotDue);
    }
    if ctx.subscriber_token_account.amount < price {
        return Err(SubscriptionError::InsufficientFunds);
    }
    let sub = &ctx.subscription;
    let next_payment_due = match sub.next_payment_due.checked_add(ctx.subscription_plan.period_duration_seconds) {
        Some(t) => t,
        None => return Err(SubscriptionError::ArithmeticOverflow),
    };
    let total_payments_made = match sub.total_payments_made.checked_add(1) {
        Some(n) => n,
        None => return Err(SubscriptionError::ArithmeticOverflow),
    };
    let total_amount_paid = match sub.total_amount_paid.checked_add(price) {
        Some(n) => n,
        None => return Err(SubscriptionError::ArithmeticOverflow),
    };
    let payment_nonce = match sub.payment_nonce.checked_add(1) {
        Some(n) => n,
        None => return Err(SubscriptionError::ArithmeticOverflow),
    };
    let total_revenue = match ctx.subscription_plan.total_revenue.checked_add(price) {
        Some(n) => n,
        None => return Err(SubscriptionError::ArithmeticOverflow),
    };
    let vault_amount = match ctx.provider_vault.amount.checked_add(price) {
        Some(n) => n,
        None => return Err(SubscriptionError::ArithmeticOverflow),
    };
    ctx.subscription.next_payment_due = next_payment_due;
    ctx.subscription.total_payments_made = total_payments_made;
    ctx.subscription.total_amount_paid = total_amount_paid;
    ctx.subscription.payment_nonce = payment_nonce;
    ctx.subscription_plan.total_revenue = total_revenue;
    ctx.subscriber_token_account.amount = ctx.subscriber_token_account.amount - price;
    ctx.provider_vault.amount = vault_amount;
    Ok(PaymentProcessed {
        subscriber: ctx.subscription.subscriber,
        subscription_plan: ctx.subscription.subscription_plan,
        amount: price,
        payment_number: total_payments_made,
        payment_nonce,
        next_payment_due,
    })
}

/// Whether the records that a collection names sit at their derived
/// addresses and belong together.
pub open spec fn payment_addresses_valid(ctx: ProcessPayment) -> bool {
    let plan = ctx.subscription_plan;
    &&& owns(ctx.subscription, ctx.subscription_key@, ctx.subscriber@, ctx.subscription_plan_key@, ctx.program_id@)
    &&& is_derived(vault_seeds(plan.provider@, plan.plan_id@), ctx.program_id@, ctx.provider_vault.key@)
}

/// What processing a payment does: records that are not where their seeds
/// put them, or that do not belong together, are refused as `Unauthorized`
/// before anything else; then as `collect_payment`.
pub open spec fn processed(
    old_ctx: ProcessPayment,
    new_ctx: ProcessPayment,
    now: i64,
    r: Result<PaymentProcessed, SubscriptionError>,
) -> bool {
    if payment_addresses_valid(old_ctx) {
        collected(old_ctx, new_ctx, now, r)
    } else {
        r == Err::<PaymentProcessed, SubscriptionError>(SubscriptionError::Unauthorized) && new_ctx == old_ctx
    }
}

/// Processes the subscription's payment at time `now`.
pub fn process_payment(ctx: &mut ProcessPayment, now: i64) -> (r: Result<PaymentProcessed, SubscriptionError>)
    ensures
        processed(*old(ctx), *final(ctx), now, r),
        r is Ok ==> {
            &&& final(ctx).subscription.next_payment_due == old(ctx).subscription.next_payment_due
                + old(ctx).subscription_plan.period_duration_seconds
            &&& final(ctx).subscription.payment_nonce == old(ctx).subscription.payment_nonce + 1
            &&& final(ctx).subscription.total_amount_paid == old(ctx).subscription.total_amount_paid
                + old(ctx).subscription_plan.price_per_period
            &&& final(ctx).subscription_plan.total_revenue == old(ctx).subscription_plan.total_revenue
                + old(ctx).subscription_plan.price_per_period
        },
        r is Err ==> *final(ctx) == *old(ctx),
{
    check_ownership(&ctx.subscription, &ctx.subscription_key, &ctx.subscriber, &ctx.subscription_plan_key, &ctx.program_id)?;
    check_derived_address(
        vault_address(&ctx.program_id, &ctx.subscription_plan.provider, ctx.subscription_plan.plan_id.as_str()),
        &ctx.provider_vault.key,
    )?;
    collect_payment(ctx, now)
}

/// The amount that a withdrawal asks for: `requested`, or all that the
/// custody holding has.
pub open spec fn withdrawal_amount(requested: Option<u64>, available: u64) -> u64 {
    match requested {
        Some(a) => a,
        None => available,
    }
}

/// The error with which a withdrawal ends, if any, once the addresses have
/// been checked: the plan must be active, the receiving holding the
/// provider's own and of the plan's token, the custody holding the plan's,
/// and the amount at most what custody holds.
pub open spec fn release_error(ctx: WithdrawFunds, requested: Option<u64>) -> Option<SubscriptionError> {
    let plan = ctx.subscription_plan;
    let amount = withdrawal_amount(requested, ctx.provider_vault.amount);
    if !plan.is_active {
        Some(SubscriptionError::PlanInactive)
    } else if ctx.provider_token_account.owner@ != ctx.provider@ || ctx.provider_vault.owner@ != ctx.subscription_plan_key@ {
        Some(SubscriptionError::Unauthorized)
    } else if ctx.provider_token_account.mint@ != plan.payment_token@ || ctx.provider_vault.mint@ != plan.payment_token@ {
        Some(SubscriptionError::InvalidTokenMint)
    } else if amount > ctx.provider_vault.amount {
        Some(SubscriptionError::InsufficientFunds)
    } else if overflows_u64(ctx.provider_token_account.amount, amount) {
        Some(SubscriptionError::ArithmeticOverflow)
    } else {
        None
    }
}

/// What a withdrawal does: on an error nothing changes; else the amount moves
/// from the custody holding to the provider's holding and is handed back.
pub open spec fn released(
    old_ctx: WithdrawFunds,
    new_ctx: WithdrawFunds,
    requested: Option<u64>,
    r: Result<u64, SubscriptionError>,
) -> bool {
    match release_error(old_ctx, requested) {
        Some(e) => r == Err::<u64, SubscriptionError>(e) && new_ctx == old_ctx,
        None => {
            let amount = withdrawal_amount(requested, old_ctx.provider_vault.amount);
            &&& r == Ok::<u64, SubscriptionError>(amount)
            &&& new_ctx == (WithdrawFunds {
                provider_vault: TokenHolding {
                    amount: (old_ctx.provider_vault.amount - amount) as u64,
                    ..old_ctx.provider_vault
                },
                provider_token_account: TokenHolding {
                    amount: (old_ctx.provider_token_account.amount + amount) as u64,
                    ..old_ctx.provider_token_account
                },
                ..old_ctx
            })
        },
    }
}

/// Moves `requested` (or, with `None`, everything) from the plan's custody
/// holding to the provider's holding, once the addresses have been checked.
pub fn release_funds(ctx: &mut WithdrawFunds, requested: Option<u64>) -> (r: Result<u64, SubscriptionError>)
    ensures
        released(*old(ctx), *final(ctx), requested, r),
{
    if !ctx.subscription_plan.is_active {
        return Err(SubscriptionError::PlanInactive);
    }
    if ctx.provider_token_account.owner != ctx.provider || ctx.provider_vault.owner != ctx.subscription_plan_key {
        return Err(SubscriptionError::Unauthorized);
    }
    if ctx.provider_token_account.mint != ctx.subscription_plan.payment_token
        || ctx.provider_vault.mint != ctx.subscription_plan.payment_token {
        return Err(SubscriptionError::InvalidTokenMint);
    }
    let amount = match requested {
        Some(a) => a,
        None => ctx.provider_vault.amount,
    };
    if amount > ctx.provider_vault.amount {
        return Err(SubscriptionError::InsufficientFunds);
    }
    let provider_amount = match ctx.provider_token_account.amount.checked_add(amount) {
        Some(n) => n,
        None => return Err(SubscriptionError::ArithmeticOverflow),
    };
    ctx.provider_vault.amount = ctx.provider_vault.amount - amount;
    ctx.provider_token_account.amount = provider_amount;
    Ok(amount)
}

/// Whether the plan and its custody holding sit where the provider's identity
/// and the plan identifier put them, and the caller is the plan's provider.
pub open spec fn withdraw_addresses_valid(ctx: WithdrawFunds) -> bool {
    let plan = ctx.subscription_plan;
    &&& ctx.provider@ == plan.provider@
    &&& is_derived(plan_seeds(ctx.provider@, plan.plan_id@), ctx.program_id@, ctx.subscription_plan_key@)
    &&& is_derived(vault_seeds(ctx.provider@, plan.plan_id@), ctx.program_id@, ctx.provider_vault.key@)
}

/// What a withdrawal does: `Unauthorized` for a caller other than the
/// provider or records away from their derived addresses; then as
/// `release_funds`.
pub open spec fn withdrawn(
    old_ctx: WithdrawFunds,
    new_ctx: WithdrawFunds,
    requested: Option<u64>,
    r: Result<u64, SubscriptionError>,
) -> bool {
    if withdraw_addresses_valid(old_ctx) {
        released(old_ctx, new_ctx, requested, r)
    } else {
        r == Err::<u64, SubscriptionError>(SubscriptionError::Unauthorized) && new_ctx == old_ctx
    }
}

/// The provider's withdrawal from the plan's custody holding: the only path
/// by which collected funds reach the provider.
pub fn withdraw_funds(ctx: &mut WithdrawFunds, requested: Option<u64>) -> (r: Result<u64, SubscriptionError>)
    ensures
        withdrawn(*old(ctx), *final(ctx), requested, r),
{
    if ctx.provider != ctx.subscription_plan.provider {
        return Err(SubscriptionError::Unauthorized);
    }
    check_derived_address(
        plan_address(&ctx.program_id, &ctx.provider, ctx.subscription_plan.plan_id.as_str()),
        &ctx.subscription_plan_key,
    )?;
    check_derived_address(
        vault_address(&ctx.program_id, &ctx.provider, ctx.subscription_plan.plan_id.as_str()),
        &ctx.provider_vault.key,
    )?;
    release_funds(ctx, requested)
}

/// A successful collection moves the due time on by exactly one period,
/// the nonce by exactly one, and both the subscription's total paid and the
/// plan's revenue by exactly the price; a failed one changes neither record.
pub proof fn lemma_collection_moves_one_period(
    old_ctx: ProcessPayment,
    new_ctx: ProcessPayment,
    now: i64,
    r: Result<PaymentProcessed, SubscriptionError>,
)
    requires
        processed(old_ctx, new_ctx, now, r),
    ensures
        r is Ok ==> {
            let price = old_ctx.subscription_plan.price_per_period;
            &&& new_ctx.subscription.next_payment_due == old_ctx.subscription.next_payment_due
                + old_ctx.subscription_plan.period_duration_seconds
            &&& new_ctx.subscription.payment_nonce == old_ctx.subscription.payment_nonce + 1
            &&& new_ctx.subscription.total_amount_paid == old_ctx.subscription.total_amount_paid + price
            &&& new_ctx.subscription_plan.total_revenue == old_ctx.subscription_plan.total_revenue + price
        },
        r is Err ==> new_ctx.subscription == old_ctx.subscription && new_ctx.subscription_plan
            == old_ctx.subscription_plan,
{
}

/// Collecting twice at the same time: the second attempt is refused with
/// `PaymentNotDue` unless the new due time, one period later, is already
/// within the grace period; and it is never refused as not due when it is.
pub proof fn lemma_repeated_collection(
    ctx0: ProcessPayment,
    ctx1: ProcessPayment,
    ctx2: ProcessPayment,
    now: i64,
    r1: Result<PaymentProcessed, SubscriptionError>,
    r2: Result<PaymentProcessed, SubscriptionError>,
)
    requires
        processed(ctx0, ctx1, now, r1),
        r1 is Ok,
        processed(ctx1, ctx2, now, r2),
    ensures
        !payment_due(ctx1.subscription.next_payment_due, now) ==> r2 == Err::<PaymentProcessed, SubscriptionError>(
            SubscriptionError::PaymentNotDue,
        ) && ctx2 == ctx1,
        payment_due(ctx1.subscription.next_payment_due, now) ==> r2 != Err::<PaymentProcessed, SubscriptionError>(
            SubscriptionError::PaymentNotDue,
        ),
        ctx1.subscription.next_payment_due == ctx0.subscription.next_payment_due
            + ctx0.subscription_plan.period_duration_seconds,
{
}

/// A cancelled subscription is never charged: every collection on it fails
/// and changes nothing, and once the holdings pass their checks the error is
/// `SubscriptionInactive`.
pub proof fn lemma_cancelled_never_pays(
    old_ctx: ProcessPayment,
    new_ctx: ProcessPayment,
    now: i64,
    r: Result<PaymentProcessed, SubscriptionError>,
)
    requires
        processed(old_ctx, new_ctx, now, r),
        old_ctx.subscription.status() == SubscriptionStatus::Cancelled,
    ensures
        r is Err,
        new_ctx == old_ctx,
        r != Err::<PaymentProcessed, SubscriptionError>(SubscriptionError::Unauthorized) && r
            != Err::<PaymentProcessed, SubscriptionError>(SubscriptionError::InvalidTokenMint) ==> r
            == Err::<PaymentProcessed, SubscriptionError>(SubscriptionError::SubscriptionInactive),
        payment_addresses_valid(old_ctx) && holdings_match(old_ctx) ==> r == Err::<
            PaymentProcessed,
            SubscriptionError,
        >(SubscriptionError::SubscriptionInactive),
        new_ctx.subscription_plan.current_subscribers == old_ctx.subscription_plan.current_subscribers,
        new_ctx.subscriber_token_account.amount == old_ctx.subscriber_token_account.amount,
        new_ctx.provider_vault.amount == old_ctx.provider_vault.amount,
{
}

/// A due payment is collected: on records at their derived addresses with
/// matching holdings, an active unpaused subscription whose due time is
/// within the grace period, a balance that covers the price and counters with
/// room, collection succeeds whether or not the plan is still active. The due
/// time, the nonce, the total paid and the plan's revenue each move by exactly
/// one step, and exactly the price moves from the subscriber's holding to the
/// custody holding at the plan's derived custody address.
pub proof fn lemma_due_collection_succeeds(
    old_ctx: ProcessPayment,
    new_ctx: ProcessPayment,
    now: i64,
    r: Result<PaymentProcessed, SubscriptionError>,
)
    requires
        processed(old_ctx, new_ctx, now, r),
        payment_addresses_valid(old_ctx),
        holdings_match(old_ctx),
        old_ctx.subscription.is_active,
        !old_ctx.subscription.is_paused,
        payment_due(old_ctx.subscription.next_payment_due, now),
        old_ctx.subscriber_token_account.amount >= old_ctx.subscription_plan.price_per_period,
        collection_fits(old_ctx),
    ensures
        r is Ok,
        ({
            let price = old_ctx.subscription_plan.price_per_period;
            &&& new_ctx.subscription.next_payment_due == old_ctx.subscription.next_payment_due
                + old_ctx.subscription_plan.period_duration_seconds
            &&& new_ctx.subscription.payment_nonce == old_ctx.subscription.payment_nonce + 1
            &&& new_ctx.subscription.total_amount_paid == old_ctx.subscription.total_amount_paid + price
            &&& new_ctx.subscription_plan.total_revenue == old_ctx.subscription_plan.total_revenue + price
            &&& new_ctx.subscriber_token_account.amount == old_ctx.subscriber_token_account.amount - price
            &&& new_ctx.provider_vault.amount == old_ctx.provider_vault.amount + price
            &&& new_ctx.provider_vault.key == old_ctx.provider_vault.key
            &&& new_ctx.subscriber_token_account.key == old_ctx.subscriber_token_account.key
        }),
        is_derived(
            vault_seeds(old_ctx.subscription_plan.provider@, old_ctx.subscription_plan.plan_id@),
            old_ctx.program_id@,
            new_ctx.provider_vault.key@,
        ),
{
}

/// Where custody holds what collections deposited less what withdrawals took
/// (`total_in - total_out`), a collection keeps that so, with the price added
/// to `total_in`.
pub proof fn lemma_collection_deposits_price(
    old_ctx: ProcessPayment,
    new_ctx: ProcessPayment,
    now: i64,
    r: Result<PaymentProcessed, SubscriptionError>,
    total_in: int,
    total_out: int,
)
    requires
        processed(old_ctx, new_ctx, now, r),
        old_ctx.provider_vault.amount == total_in - total_out,
    ensures
        r is Ok ==> new_ctx.provider_vault.amount == (total_in + old_ctx.subscription_plan.price_per_period)
            - total_out,
        r is Err ==> new_ctx.provider_vault.amount == total_in - total_out,
{
}

/// A withdrawal moves exactly the amount it hands back from custody to the
/// provider's holding. Where custody holds what collections deposited less
/// what earlier withdrawals took (`total_in - total_out`), that amount never
/// exceeds `total_in - total_out`, and custody afterwards holds
/// `total_in - (total_out + amount)`.
pub proof fn lemma_withdrawal_bounded_by_deposits(
    old_ctx: WithdrawFunds,
    new_ctx: WithdrawFunds,
    requested: Option<u64>,
    r: Result<u64, SubscriptionError>,
    total_in: int,
    total_out: int,
)
    requires
        withdrawn(old_ctx, new_ctx, requested, r),
        old_ctx.provider_vault.amount == total_in - total_out,
    ensures
        r matches Ok(amount) ==> {
            &&& amount <= total_in - total_out
            &&& new_ctx.provider_vault.amount == total_in - (total_out + amount)
            &&& new_ctx.provider_token_account.amount == old_ctx.provider_token_account.amount + amount
        },
        r is Err ==> new_ctx.provider_vault == old_ctx.provider_vault && new_ctx.provider_token_account
            == old_ctx.provider_token_account,
{
}

} // verus!
