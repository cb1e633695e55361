use subs3::address::{
    check_derived_address, manager_address, plan_address, subscription_address, vault_address,
};
use subs3::constants::{PAYMENT_GRACE_PERIOD, SUBSCRIPTION_PLAN_SEED};
use subs3::payment::is_payment_due;
use subs3::plan::validate_plan_terms;
use subs3::{
    cancel_subscription, collect_payment, create_subscription_plan, initialize_manager,
    pause_subscription, process_payment, resume_subscription, subscribe,
    update_subscription_plan, withdraw_funds, Address, CancelSubscription,
    CreateSubscriptionPlan, InitializeManager, PauseSubscription, ProcessPayment,
    ResumeSubscription, Subscribe, Subscription, SubscriptionError, SubscriptionManager,
    SubscriptionPlan, SubscriptionStatus, TokenHolding, UpdateSubscriptionPlan, WithdrawFunds,
};

const TOKEN_PROGRAM: [u8; 32] = [
    6, 221, 246, 225, 215, 101, 161, 147, 217, 203, 225, 70, 206, 235, 121, 172, 28, 180, 133,
    237, 95, 91, 55, 145, 58, 140, 245, 133, 126, 255, 0, 169,
];

fn key(b: u8) -> Address {
    Address::new([b; 32])
}

fn program() -> Address {
    key(7)
}

fn provider() -> Address {
    key(1)
}

fn subscriber() -> Address {
    key(2)
}

fn mint() -> Address {
    key(3)
}

fn blank_manager() -> SubscriptionManager {
    SubscriptionManager {
        authority: Address::default(),
        total_providers: 0,
        total_subscriptions: 0,
        bump: 0,
    }
}

fn blank_plan() -> SubscriptionPlan {
    SubscriptionPlan {
        provider: Address::default(),
        plan_id: String::new(),
        name: String::new(),
        description: String::new(),
        price_per_period: 0,
        period_duration_seconds: 0,
        payment_token: Address::default(),
        max_subscribers: None,
        current_subscribers: 0,
        total_revenue: 0,
        is_active: false,
        created_at: 0,
        bump: 0,
    }
}

fn blank_subscription() -> Subscription {
    Subscription {
        subscriber: Address::default(),
        subscription_plan: Address::default(),
        start_time: 0,
        next_payment_due: 0,
        is_active: false,
        is_paused: false,
        paused_at: None,
        cancelled_at: None,
        total_payments_made: 0,
        total_amount_paid: 0,
        payment_nonce: 0,
        bump: 0,
    }
}

fn holding(k: Address, owner: Address, amount: u64) -> TokenHolding {
    TokenHolding { key: k, owner, mint: mint(), amount }
}

fn registry() -> (Address, SubscriptionManager) {
    let (manager_key, _) = manager_address(&program()).unwrap();
    let mut ctx = InitializeManager {
        program_id: program(),
        subscription_manager_key: manager_key,
        subscription_manager: blank_manager(),
        authority: key(9),
    };
    initialize_manager(&mut ctx).unwrap();
    (manager_key, ctx.subscription_manager)
}

fn plan_ctx(plan_id: &str) -> CreateSubscriptionPlan {
    let (manager_key, manager) = registry();
    let (plan_key, _) = plan_address(&program(), &provider(), plan_id).unwrap();
    let (vault_key, _) = vault_address(&program(), &provider(), plan_id).unwrap();
    CreateSubscriptionPlan {
        program_id: program(),
        subscription_plan_key: plan_key,
        subscription_plan: blank_plan(),
        subscription_manager_key: manager_key,
        subscription_manager: manager,
        provider_vault: TokenHolding { key: vault_key, owner: Address::default(), mint: Address::default(), amount: 0 },
        payment_token_mint: mint(),
        payment_token_mint_owner: Address::new(TOKEN_PROGRAM),
        provider: provider(),
    }
}

fn create(ctx: &mut CreateSubscriptionPlan, price: u64, period: i64, max: Option<u32>) -> Result<(), SubscriptionError> {
    create_subscription_plan(
        ctx,
        "basic".to_string(),
        "Basic".to_string(),
        "A basic plan".to_string(),
        price,
        period,
        max,
        0,
    )
    .map(|_| ())
}

/// A published plan, its address, its custody holding and the registry.
fn published(price: u64, period: i64, max: Option<u32>) -> CreateSubscriptionPlan {
    let mut ctx = plan_ctx("basic");
    create(&mut ctx, price, period, max).unwrap();
    ctx
}

fn subscribe_ctx(plan: &CreateSubscriptionPlan, who: Address) -> Subscribe {
    let (sub_key, _) = subscription_address(&program(), &who, &plan.subscription_plan_key).unwrap();
    Subscribe {
        program_id: program(),
        subscription_key: sub_key,
        subscription: blank_subscription(),
        subscription_plan_key: plan.subscription_plan_key,
        subscription_plan: plan.subscription_plan.clone(),
        subscription_manager_key: plan.subscription_manager_key,
        subscription_manager: plan.subscription_manager,
        subscriber: who,
    }
}

fn payment_ctx(s: &Subscribe, vault: TokenHolding, balance: u64) -> ProcessPayment {
    ProcessPayment {
        program_id: program(),
        subscription_key: s.subscription_key,
        subscription: s.subscription,
        subscription_plan_key: s.subscription_plan_key,
        subscription_plan: s.subscription_plan.clone(),
        subscriber_token_account: holding(key(20), s.subscriber, balance),
        provider_vault: vault,
        subscriber: s.subscriber,
    }
}

fn subscribed(price: u64, period: i64, at: i64) -> (CreateSubscriptionPlan, Subscribe) {
    let plan = published(price, period, None);
    let mut s = subscribe_ctx(&plan, subscriber());
    subscribe(&mut s, at).unwrap();
    (plan, s)
}

#[test]
fn derived_addresses_are_stable_and_distinct() {
    let a = plan_address(&program(), &provider(), "basic").unwrap();
    let b = plan_address(&program(), &provider(), "basic").unwrap();
    let c = plan_address(&program(), &provider(), "premium").unwrap();
    let v = vault_address(&program(), &provider(), "basic").unwrap();
    assert_eq!(a.0, b.0);
    assert_eq!(a.1, b.1);
    assert_ne!(a.0, c.0);
    assert_ne!(a.0, v.0);
    assert_ne!(a.0, program());
    assert_eq!(SUBSCRIPTION_PLAN_SEED, "subscription_plan");
}

#[test]
fn check_derived_address_accepts_only_the_found_key() {
    let found = plan_address(&program(), &provider(), "basic");
    let (k, bump) = found.unwrap();
    assert_eq!(check_derived_address(found, &k), Ok(bump));
    assert_eq!(check_derived_address(found, &key(5)), Err(SubscriptionError::Unauthorized));
    assert_eq!(check_derived_address(None, &k), Err(SubscriptionError::Unauthorized));
}

#[test]
fn address_zero_and_equality() {
    assert!(Address::default().is_zero());
    assert!(!key(1).is_zero());
    assert_eq!(key(4), key(4));
    assert_ne!(key(4), key(5));
}

#[test]
fn initialize_manager_sets_zero_counters() {
    let (_, manager) = registry();
    assert_eq!(manager.authority, key(9));
    assert_eq!(manager.total_providers, 0);
    assert_eq!(manager.total_subscriptions, 0);
}

#[test]
fn initialize_manager_refuses_zero_authority_and_wrong_address() {
    let (manager_key, _) = manager_address(&program()).unwrap();
    let mut ctx = InitializeManager {
        program_id: program(),
        subscription_manager_key: manager_key,
        subscription_manager: blank_manager(),
        authority: Address::default(),
    };
    assert_eq!(initialize_manager(&mut ctx), Err(SubscriptionError::Unauthorized));
    ctx.authority = key(9);
    ctx.subscription_manager_key = key(8);
    assert_eq!(initialize_manager(&mut ctx), Err(SubscriptionError::Unauthorized));
    assert_eq!(ctx.subscription_manager.authority, Address::default());
}

#[test]
fn new_plan_starts_empty_and_counts_a_provider() {
    let mut ctx = plan_ctx("basic");
    let before = ctx.subscription_manager.total_providers;
    let event = create_subscription_plan(
        &mut ctx,
        "basic".to_string(),
        "Basic".to_string(),
        "A basic plan".to_string(),
        1_000_000,
        86_400,
        Some(10),
        42,
    )
    .unwrap();
    let plan = &ctx.subscription_plan;
    assert_eq!(plan.current_subscribers, 0);
    assert_eq!(plan.total_revenue, 0);
    assert!(plan.is_active);
    assert_eq!(plan.created_at, 42);
    assert_eq!(plan.provider, provider());
    assert_eq!(plan.payment_token, mint());
    assert_eq!(plan.max_subscribers, Some(10));
    assert_eq!(ctx.subscription_manager.total_providers, before + 1);
    assert_eq!(ctx.provider_vault.owner, ctx.subscription_plan_key);
    assert_ne!(ctx.provider_vault.owner, provider());
    assert_eq!(ctx.provider_vault.amount, 0);
    assert_eq!(event.plan_id, "basic");
    assert_eq!(event.price_per_period, 1_000_000);
    let (_, bump) = plan_address(&program(), &provider(), "basic").unwrap();
    assert_eq!(plan.bump, bump);
}

#[test]
fn plan_terms_are_checked_in_order() {
    let long_id = "x".repeat(33);
    let long_name = "n".repeat(65);
    let long_desc = "d".repeat(257);
    assert_eq!(validate_plan_terms(&long_id, &long_name, "", 0, 0), Err(SubscriptionError::PlanIdTooLong));
    assert_eq!(validate_plan_terms("id", &long_name, &long_desc, 0, 0), Err(SubscriptionError::NameTooLong));
    assert_eq!(validate_plan_terms("id", "n", &long_desc, 0, 0), Err(SubscriptionError::DescriptionTooLong));
    assert_eq!(validate_plan_terms("id", "n", "d", 0, 3600), Err(SubscriptionError::InvalidPrice));
    assert_eq!(validate_plan_terms("id", "n", "d", 1, 3599), Err(SubscriptionError::InvalidPeriod));
    assert_eq!(validate_plan_terms("id", "n", "d", 1, 31_536_001), Err(SubscriptionError::InvalidPeriod));
    assert_eq!(validate_plan_terms("id", "n", "d", 1, 3600), Ok(()));
    assert_eq!(validate_plan_terms(&"x".repeat(32), &"n".repeat(64), &"d".repeat(256), 1, 31_536_000), Ok(()));
    // bytes, not characters, are counted
    assert_eq!(validate_plan_terms(&"é".repeat(17), "n", "d", 1, 3600), Err(SubscriptionError::PlanIdTooLong));
}

#[test]
fn create_plan_refuses_bad_terms_without_change() {
    let mut ctx = plan_ctx("basic");
    assert_eq!(create(&mut ctx, 0, 86_400, None), Err(SubscriptionError::InvalidPrice));
    assert_eq!(create(&mut ctx, 5, 60, None), Err(SubscriptionError::InvalidPeriod));
    assert_eq!(ctx.subscription_manager.total_providers, 0);
    assert!(!ctx.subscription_plan.is_active);
}

#[test]
fn create_plan_refuses_foreign_mint_and_wrong_addresses() {
    let mut ctx = plan_ctx("basic");
    ctx.payment_token_mint_owner = key(30);
    assert_eq!(create(&mut ctx, 5, 86_400, None), Err(SubscriptionError::InvalidTokenMint));
    let mut ctx = plan_ctx("basic");
    ctx.provider_vault.key = key(31);
    assert_eq!(create(&mut ctx, 5, 86_400, None), Err(SubscriptionError::Unauthorized));
    let mut ctx = plan_ctx("other");
    assert_eq!(create(&mut ctx, 5, 86_400, None), Err(SubscriptionError::Unauthorized));
    let mut ctx = plan_ctx("basic");
    ctx.subscription_manager.authority = Address::default();
    assert_eq!(create(&mut ctx, 5, 86_400, None), Err(SubscriptionError::Unauthorized));
}

#[test]
fn create_plan_overflowing_provider_count_fails() {
    let mut ctx = plan_ctx("basic");
    ctx.subscription_manager.total_providers = u64::MAX;
    assert_eq!(create(&mut ctx, 5, 86_400, None), Err(SubscriptionError::ArithmeticOverflow));
    assert_eq!(ctx.subscription_manager.total_providers, u64::MAX);
}

#[test]
fn subscribe_sets_first_due_time_one_period_ahead() {
    let plan = published(1_000_000, 86_400, None);
    let mut s = subscribe_ctx(&plan, subscriber());
    let event = subscribe(&mut s, 0).unwrap();
    assert_eq!(s.subscription.next_payment_due, 86_400);
    assert_eq!(event.next_payment_due, 86_400);
    assert_eq!(s.subscription.status(), SubscriptionStatus::Active);
    assert_eq!(s.subscription.subscriber, subscriber());
    assert_eq!(s.subscription.subscription_plan, plan.subscription_plan_key);
    assert_eq!(s.subscription_plan.current_subscribers, 1);
    assert_eq!(s.subscription_manager.total_subscriptions, 1);
}

#[test]
fn full_plan_refuses_subscriber() {
    let plan = published(1_000, 3_600, Some(1));
    let mut first = subscribe_ctx(&plan, subscriber());
    subscribe(&mut first, 0).unwrap();
    let mut after = plan.subscription_plan.clone();
    after.current_subscribers = first.subscription_plan.current_subscribers;
    let mut second = subscribe_ctx(&plan, key(40));
    second.subscription_plan = after;
    assert_eq!(subscribe(&mut second, 10).err(), Some(SubscriptionError::PlanAtCapacity));
    assert!(second.subscription.subscriber.is_zero());
    assert_eq!(second.subscription_plan.current_subscribers, 1);
    assert_eq!(second.subscription_manager.total_subscriptions, 0);
}

#[test]
fn provider_cannot_subscribe_to_own_plan() {
    let plan = published(1_000, 3_600, None);
    let mut s = subscribe_ctx(&plan, provider());
    assert_eq!(subscribe(&mut s, 0).err(), Some(SubscriptionError::Unauthorized));
    assert!(s.subscription.subscriber.is_zero());
}

#[test]
fn subscribe_refuses_inactive_plan_existing_record_and_overflow() {
    let plan = published(1_000, 3_600, None);
    let mut s = subscribe_ctx(&plan, subscriber());
    s.subscription_plan.is_active = false;
    assert_eq!(subscribe(&mut s, 0).err(), Some(SubscriptionError::PlanInactive));
    let mut s = subscribe_ctx(&plan, subscriber());
    s.subscription.subscriber = subscriber();
    assert_eq!(subscribe(&mut s, 0).err(), Some(SubscriptionError::SubscriptionAlreadyExists));
    let mut s = subscribe_ctx(&plan, subscriber());
    assert_eq!(subscribe(&mut s, i64::MAX - 10).err(), Some(SubscriptionError::ArithmeticOverflow));
    let mut s = subscribe_ctx(&plan, subscriber());
    s.subscription_key = key(41);
    assert_eq!(subscribe(&mut s, 0).err(), Some(SubscriptionError::Unauthorized));
}

#[test]
fn grace_window_boundary() {
    let mut sub = blank_subscription();
    sub.next_payment_due = 86_400;
    assert!(is_payment_due(&sub, 86_400 - PAYMENT_GRACE_PERIOD));
    assert!(!is_payment_due(&sub, 86_400 - PAYMENT_GRACE_PERIOD - 1));
    sub.next_payment_due = i64::MIN;
    assert!(is_payment_due(&sub, i64::MIN));
}

#[test]
fn daily_plan_collects_within_grace_then_refuses() {
    let (plan, s) = subscribed(1_000_000, 86_400, 0);
    assert_eq!(s.subscription.next_payment_due, 86_400);
    let mut p = payment_ctx(&s, plan.provider_vault, 5_000_000);
    let event = process_payment(&mut p, 86_399).unwrap();
    assert_eq!(event.amount, 1_000_000);
    assert_eq!(event.payment_nonce, 1);
    assert_eq!(event.payment_number, 1);
    assert_eq!(event.next_payment_due, 172_800);
    assert_eq!(p.subscription.next_payment_due, 172_800);
    assert_eq!(process_payment(&mut p, 86_399).err(), Some(SubscriptionError::PaymentNotDue));
    assert_eq!(p.subscription.payment_nonce, 1);
}

#[test]
fn collection_moves_counters_and_balances_together() {
    let (plan, s) = subscribed(250, 3_600, 1_000);
    let mut p = payment_ctx(&s, plan.provider_vault, 1_000);
    process_payment(&mut p, 4_600).unwrap();
    assert_eq!(p.subscription.next_payment_due, 8_200);
    assert_eq!(p.subscription.payment_nonce, 1);
    assert_eq!(p.subscription.total_amount_paid, 250);
    assert_eq!(p.subscription.total_payments_made, 1);
    assert_eq!(p.subscription_plan.total_revenue, 250);
    assert_eq!(p.subscriber_token_account.amount, 750);
    assert_eq!(p.provider_vault.amount, 250);
    // an overdue subscription may be caught up one period per call
    process_payment(&mut p, 100_000).unwrap();
    assert_eq!(p.subscription.next_payment_due, 11_800);
    assert_eq!(p.subscription.payment_nonce, 2);
    assert_eq!(p.subscription_plan.total_revenue, 500);
}

#[test]
fn collection_refuses_short_balance_and_foreign_holdings() {
    let (plan, s) = subscribed(250, 3_600, 0);
    let mut p = payment_ctx(&s, plan.provider_vault, 249);
    assert_eq!(process_payment(&mut p, 3_600).err(), Some(SubscriptionError::InsufficientFunds));
    assert_eq!(p.provider_vault.amount, 0);
    let mut p = payment_ctx(&s, plan.provider_vault, 1_000);
    p.subscriber_token_account.mint = key(50);
    assert_eq!(process_payment(&mut p, 3_600).err(), Some(SubscriptionError::InvalidTokenMint));
    let mut p = payment_ctx(&s, plan.provider_vault, 1_000);
    p.subscriber_token_account.owner = key(51);
    assert_eq!(process_payment(&mut p, 3_600).err(), Some(SubscriptionError::Unauthorized));
    let mut p = payment_ctx(&s, plan.provider_vault, 1_000);
    p.provider_vault.key = key(52);
    assert_eq!(process_payment(&mut p, 3_600).err(), Some(SubscriptionError::Unauthorized));
}

#[test]
fn collection_overflow_changes_nothing() {
    let (plan, s) = subscribed(250, 3_600, 0);
    let mut p = payment_ctx(&s, plan.provider_vault, 1_000);
    p.subscription_plan.total_revenue = u64::MAX - 1;
    assert_eq!(collect_payment(&mut p, 3_600).err(), Some(SubscriptionError::ArithmeticOverflow));
    assert_eq!(p.subscription.payment_nonce, 0);
    assert_eq!(p.subscription.next_payment_due, 3_600);
    assert_eq!(p.subscriber_token_account.amount, 1_000);
    let mut p = payment_ctx(&s, plan.provider_vault, 1_000);
    p.subscription.payment_nonce = u64::MAX;
    assert_eq!(collect_payment(&mut p, 3_600).err(), Some(SubscriptionError::ArithmeticOverflow));
}

#[test]
fn paused_subscription_is_not_charged_until_resumed() {
    let (plan, s) = subscribed(250, 3_600, 0);
    let mut pause = PauseSubscription {
        program_id: program(),
        subscription_key: s.subscription_key,
        subscription: s.subscription,
        subscription_plan_key: s.subscription_plan_key,
        subscriber: subscriber(),
    };
    pause_subscription(&mut pause, 100).unwrap();
    assert_eq!(pause.subscription.status(), SubscriptionStatus::Paused);
    assert_eq!(pause.subscription.paused_at, Some(100));
    assert_eq!(pause_subscription(&mut pause, 200), Err(SubscriptionError::SubscriptionPaused));
    let mut p = payment_ctx(&s, plan.provider_vault, 1_000);
    p.subscription = pause.subscription;
    assert_eq!(process_payment(&mut p, 10_000).err(), Some(SubscriptionError::SubscriptionPaused));
    let mut resume = ResumeSubscription {
        program_id: program(),
        subscription_key: s.subscription_key,
        subscription: pause.subscription,
        subscription_plan_key: s.subscription_plan_key,
        subscriber: subscriber(),
    };
    resume_subscription(&mut resume).unwrap();
    assert_eq!(resume.subscription.status(), SubscriptionStatus::Active);
    assert_eq!(resume.subscription.next_payment_due, 3_600);
    assert_eq!(resume.subscription.paused_at, None);
    resume_subscription(&mut resume).unwrap();
    assert_eq!(resume.subscription.status(), SubscriptionStatus::Active);
    p.subscription = resume.subscription;
    assert!(process_payment(&mut p, 10_000).is_ok());
}

#[test]
fn pause_by_someone_else_is_refused() {
    let (_, s) = subscribed(250, 3_600, 0);
    let mut pause = PauseSubscription {
        program_id: program(),
        subscription_key: s.subscription_key,
        subscription: s.subscription,
        subscription_plan_key: s.subscription_plan_key,
        subscriber: key(60),
    };
    assert_eq!(pause_subscription(&mut pause, 1), Err(SubscriptionError::Unauthorized));
    assert!(!pause.subscription.is_paused);
}

fn cancel_ctx(s: &Subscribe, plan: SubscriptionPlan) -> CancelSubscription {
    CancelSubscription {
        program_id: program(),
        subscription_key: s.subscription_key,
        subscription: s.subscription,
        subscription_plan_key: s.subscription_plan_key,
        subscription_plan: plan,
        subscriber: s.subscriber,
    }
}

#[test]
fn cancelled_subscription_refuses_payment_and_counts_once() {
    let (plan, s) = subscribed(250, 3_600, 0);
    let mut c = cancel_ctx(&s, s.subscription_plan.clone());
    assert_eq!(c.subscription_plan.current_subscribers, 1);
    let event = cancel_subscription(&mut c, 500).unwrap();
    assert_eq!(event.cancelled_at, 500);
    assert_eq!(c.subscription.status(), SubscriptionStatus::Cancelled);
    assert_eq!(c.subscription.cancelled_at, Some(500));
    assert_eq!(c.subscription_plan.current_subscribers, 0);
    let mut p = payment_ctx(&s, plan.provider_vault, 1_000);
    p.subscription = c.subscription;
    assert_eq!(process_payment(&mut p, 10_000).err(), Some(SubscriptionError::SubscriptionInactive));
    let mut again = cancel_ctx(&s, c.subscription_plan.clone());
    again.subscription = c.subscription;
    again.subscription_plan.current_subscribers = 3;
    assert_eq!(cancel_subscription(&mut again, 600).err(), Some(SubscriptionError::SubscriptionInactive));
    assert_eq!(again.subscription_plan.current_subscribers, 3);
    let mut resume = ResumeSubscription {
        program_id: program(),
        subscription_key: s.subscription_key,
        subscription: c.subscription,
        subscription_plan_key: s.subscription_plan_key,
        subscriber: subscriber(),
    };
    assert_eq!(resume_subscription(&mut resume), Err(SubscriptionError::SubscriptionInactive));
}

#[test]
fn cancel_with_zero_count_is_an_overflow() {
    let (_, s) = subscribed(250, 3_600, 0);
    let mut plan = s.subscription_plan.clone();
    plan.current_subscribers = 0;
    let mut c = cancel_ctx(&s, plan);
    assert_eq!(cancel_subscription(&mut c, 5).err(), Some(SubscriptionError::ArithmeticOverflow));
    assert!(c.subscription.is_active);
}

fn withdraw_ctx(plan: &CreateSubscriptionPlan, vault_amount: u64) -> WithdrawFunds {
    let mut vault = plan.provider_vault;
    vault.amount = vault_amount;
    WithdrawFunds {
        program_id: program(),
        subscription_plan_key: plan.subscription_plan_key,
        subscription_plan: plan.subscription_plan.clone(),
        provider_vault: vault,
        provider_token_account: holding(key(70), provider(), 10),
        provider: provider(),
    }
}

#[test]
fn withdrawal_moves_exactly_what_was_collected() {
    let (plan, s) = subscribed(300, 3_600, 0);
    let mut p = payment_ctx(&s, plan.provider_vault, 1_000);
    process_payment(&mut p, 3_600).unwrap();
    process_payment(&mut p, 7_200).unwrap();
    assert_eq!(p.provider_vault.amount, 600);
    let mut w = withdraw_ctx(&plan, p.provider_vault.amount);
    assert_eq!(withdraw_funds(&mut w, Some(200)), Ok(200));
    assert_eq!(w.provider_vault.amount, 400);
    assert_eq!(w.provider_token_account.amount, 210);
    assert_eq!(withdraw_funds(&mut w, Some(401)), Err(SubscriptionError::InsufficientFunds));
    assert_eq!(w.provider_vault.amount, 400);
    assert_eq!(withdraw_funds(&mut w, None), Ok(400));
    assert_eq!(w.provider_vault.amount, 0);
    assert_eq!(w.provider_token_account.amount, 610);
    assert_eq!(withdraw_funds(&mut w, None), Ok(0));
}

#[test]
fn withdrawal_refuses_others_and_inactive_plans() {
    let plan = published(300, 3_600, None);
    let mut w = withdraw_ctx(&plan, 500);
    w.provider = key(80);
    w.provider_token_account.owner = key(80);
    assert_eq!(withdraw_funds(&mut w, None), Err(SubscriptionError::Unauthorized));
    let mut w = withdraw_ctx(&plan, 500);
    w.provider_token_account.owner = key(81);
    assert_eq!(withdraw_funds(&mut w, None), Err(SubscriptionError::Unauthorized));
    let mut w = withdraw_ctx(&plan, 500);
    w.provider_token_account.mint = key(82);
    assert_eq!(withdraw_funds(&mut w, None), Err(SubscriptionError::InvalidTokenMint));
    let mut w = withdraw_ctx(&plan, 500);
    w.subscription_plan.is_active = false;
    assert_eq!(withdraw_funds(&mut w, None), Err(SubscriptionError::PlanInactive));
    let mut w = withdraw_ctx(&plan, 500);
    w.provider_token_account.amount = u64::MAX;
    assert_eq!(withdraw_funds(&mut w, Some(1)), Err(SubscriptionError::ArithmeticOverflow));
    assert_eq!(w.provider_vault.amount, 500);
}

fn update_ctx(plan: &CreateSubscriptionPlan) -> UpdateSubscriptionPlan {
    UpdateSubscriptionPlan {
        program_id: program(),
        subscription_plan_key: plan.subscription_plan_key,
        subscription_plan: plan.subscription_plan.clone(),
        provider: provider(),
    }
}

#[test]
fn update_plan_changes_given_terms_only() {
    let plan = published(300, 3_600, None);
    let mut u = update_ctx(&plan);
    let event = update_subscription_plan(&mut u, Some("Gold".to_string()), None, Some(900), Some(Some(5)), Some(false), 77).unwrap();
    assert_eq!(u.subscription_plan.name, "Gold");
    assert_eq!(u.subscription_plan.description, "A basic plan");
    assert_eq!(u.subscription_plan.price_per_period, 900);
    assert_eq!(u.subscription_plan.max_subscribers, Some(5));
    assert!(!u.subscription_plan.is_active);
    assert_eq!(event.updated_at, 77);
    assert_eq!(event.name, "Gold");
    assert_eq!(event.period_duration_seconds, 3_600);
}

#[test]
fn update_plan_refuses_bad_changes() {
    let plan = published(300, 3_600, None);
    let mut u = update_ctx(&plan);
    u.provider = key(90);
    assert_eq!(update_subscription_plan(&mut u, None, None, None, None, Some(false), 1).err(), Some(SubscriptionError::Unauthorized));
    let mut u = update_ctx(&plan);
    assert_eq!(update_subscription_plan(&mut u, None, None, Some(0), None, None, 1).err(), Some(SubscriptionError::InvalidPrice));
    assert_eq!(update_subscription_plan(&mut u, Some("n".repeat(65)), None, None, None, None, 1).err(), Some(SubscriptionError::NameTooLong));
    assert_eq!(update_subscription_plan(&mut u, None, Some("d".repeat(257)), None, None, None, 1).err(), Some(SubscriptionError::DescriptionTooLong));
    u.subscription_plan.current_subscribers = 3;
    assert_eq!(update_subscription_plan(&mut u, None, None, None, Some(Some(2)), None, 1).err(), Some(SubscriptionError::PlanAtCapacity));
    assert_eq!(u.subscription_plan.max_subscribers, None);
    assert_eq!(u.subscription_plan.price_per_period, 300);
}

#[test]
fn deactivated_plan_keeps_collecting_but_takes_no_one_new() {
    let (plan, s) = subscribed(300, 3_600, 0);
    let mut u = update_ctx(&plan);
    update_subscription_plan(&mut u, None, None, None, None, Some(false), 1).unwrap();
    let mut p = payment_ctx(&s, plan.provider_vault, 1_000);
    p.subscription_plan = u.subscription_plan.clone();
    assert!(process_payment(&mut p, 3_600).is_ok());
    let mut late = subscribe_ctx(&plan, key(95));
    late.subscription_plan = u.subscription_plan.clone();
    assert_eq!(subscribe(&mut late, 10).err(), Some(SubscriptionError::PlanInactive));
}

#[test]
fn error_messages_are_distinct() {
    assert_eq!(SubscriptionError::PaymentNotDue.message(), "Payment is not due yet");
    assert_ne!(SubscriptionError::Unauthorized.message(), SubscriptionError::InvalidTokenMint.message());
}

#[test]
fn derivation_matches_the_program_address_scheme() {
    let program_id = Address::new([
        58, 72, 39, 198, 68, 90, 245, 180, 63, 190, 93, 217, 74, 16, 105, 204, 50, 23, 24, 156,
        154, 212, 124, 188, 9, 7, 113, 196, 151, 212, 166, 29,
    ]);
    let (manager, bump) = manager_address(&program_id).unwrap();
    assert_eq!(
        manager,
        Address::new([
            123, 14, 135, 169, 119, 116, 134, 46, 77, 191, 43, 73, 114, 65, 49, 126, 67, 39, 169,
            211, 27, 199, 65, 219, 72, 26, 145, 50, 251, 82, 86, 21,
        ])
    );
    assert_eq!(bump, 255);
    let (plan, bump) = plan_address(&program(), &provider(), "basic").unwrap();
    assert_eq!(
        plan,
        Address::new([
            37, 206, 249, 97, 150, 206, 33, 193, 146, 43, 101, 253, 32, 16, 242, 58, 71, 174, 225,
            91, 129, 224, 44, 115, 187, 238, 140, 233, 230, 92, 242, 28,
        ])
    );
    assert_eq!(bump, 254);
}

#[test]
fn registry_is_created_once() {
    let (manager_key, mut manager) = registry();
    manager.total_providers = 4;
    manager.total_subscriptions = 9;
    let mut ctx = InitializeManager {
        program_id: program(),
        subscription_manager_key: manager_key,
        subscription_manager: manager,
        authority: key(10),
    };
    assert_eq!(initialize_manager(&mut ctx), Err(SubscriptionError::AccountAlreadyInitialized));
    assert_eq!(ctx.subscription_manager.authority, key(9));
    assert_eq!(ctx.subscription_manager.total_providers, 4);
    assert_eq!(ctx.subscription_manager.total_subscriptions, 9);
}

#[test]
fn existing_plan_is_never_overwritten() {
    let mut ctx = published(300, 3_600, None);
    ctx.subscription_plan.total_revenue = 900;
    ctx.provider_vault.amount = 600;
    let providers = ctx.subscription_manager.total_providers;
    assert_eq!(create(&mut ctx, 5, 7_200, None), Err(SubscriptionError::AccountAlreadyInitialized));
    assert_eq!(ctx.subscription_plan.total_revenue, 900);
    assert_eq!(ctx.subscription_plan.price_per_period, 300);
    assert_eq!(ctx.provider_vault.amount, 600);
    assert_eq!(ctx.subscription_manager.total_providers, providers);
    // a custody holding already in place is refused too
    let mut fresh = plan_ctx("basic");
    fresh.provider_vault.owner = fresh.subscription_plan_key;
    assert_eq!(create(&mut fresh, 5, 7_200, None), Err(SubscriptionError::AccountAlreadyInitialized));
    assert!(fresh.subscription_plan.provider.is_zero());
}
