use sora_watermark_remov::billing::{
    can_remove_watermark, consume_credit, grant_one_time_credits, refresh_monthly_quota,
    set_subscription_monthly_quota, QUOTA_PERIOD,
};
use sora_watermark_remov::db::{
    cancel_user_subscription, get_effective_subscription, get_product_by_slug,
    list_active_products, list_user_subscriptions, upsert_subscription_active,
};
use sora_watermark_remov::ledger::{Ledger, StoreError};
use sora_watermark_remov::models::{
    Product, ProductType, Subscription, SubscriptionStatus, TransactionStatus, TransactionType,
    UserAccount,
};

const DAY: i64 = 86_400_000_000;

fn account(id: i32, credits: i32, quota: i32, free_used: bool) -> UserAccount {
    UserAccount {
        id,
        email: format!("user{id}@example.com"),
        credits,
        monthly_quota: quota,
        quota_reset_at: None,
        free_generation_used: free_used,
    }
}

fn plan(id: i32, slug: &str, monthly: Option<i32>, active: bool) -> Product {
    Product {
        id,
        slug: slug.to_string(),
        name: slug.to_string(),
        description: None,
        price: "10".to_string(),
        currency: "RUB".to_string(),
        product_type: ProductType::Subscription,
        credits_granted: None,
        monthly_credits: monthly,
        is_active: active,
        created_at: None,
        lava_offer_id: None,
    }
}

fn sub(id: i32, user_id: i32, product_id: i32, status: SubscriptionStatus, end: Option<i64>, created: Option<i64>) -> Subscription {
    Subscription {
        id,
        user_id,
        product_id,
        provider: "lava".to_string(),
        provider_subscription_id: Some(format!("contract-{id}")),
        status,
        current_period_start: Some(0),
        current_period_end: end,
        created_at: created,
        updated_at: created,
        canceled_at: None,
    }
}

fn ledger_with(users: Vec<UserAccount>) -> Ledger {
    let mut ledger = Ledger::new();
    ledger.users = users;
    ledger
}

#[test]
fn thirty_days_in_microseconds() {
    assert_eq!(QUOTA_PERIOD, 30 * 24 * 60 * 60 * 1_000_000);
    assert_eq!(QUOTA_PERIOD, 30 * DAY);
}

#[test]
fn credit_kind_priority() {
    let mut ledger = ledger_with(vec![
        account(1, 5, 2, false),
        account(2, 5, 0, false),
        account(3, 0, 0, false),
        account(4, 0, 0, true),
    ]);
    assert_eq!(can_remove_watermark(&mut ledger, 1, 0), Ok(Some("monthly".to_string())));
    assert_eq!(can_remove_watermark(&mut ledger, 2, 0), Ok(Some("one_time".to_string())));
    assert_eq!(can_remove_watermark(&mut ledger, 3, 0), Ok(Some("free".to_string())));
    assert_eq!(can_remove_watermark(&mut ledger, 4, 0), Ok(None));
    assert_eq!(can_remove_watermark(&mut ledger, 9, 0), Err(StoreError::RowNotFound));
}

#[test]
fn consume_decrements_the_named_balance() {
    let mut ledger = ledger_with(vec![account(1, 5, 2, false)]);
    consume_credit(&mut ledger, 1, "monthly");
    assert_eq!(ledger.users[0], UserAccount { monthly_quota: 1, ..account(1, 5, 2, false) });
    consume_credit(&mut ledger, 1, "one_time");
    assert_eq!(ledger.users[0].credits, 4);
    consume_credit(&mut ledger, 1, "anything");
    assert_eq!(ledger.users[0].credits, 3);
    consume_credit(&mut ledger, 1, "free");
    assert!(ledger.users[0].free_generation_used);
    assert_eq!(ledger.users[0].credits, 3);
    assert_eq!(ledger.users[0].monthly_quota, 1);
    let before = ledger.clone();
    consume_credit(&mut ledger, 2, "monthly");
    assert_eq!(ledger, before);
}

#[test]
fn consume_at_zero_stays_at_zero() {
    let mut ledger = ledger_with(vec![account(1, 0, 0, false)]);
    consume_credit(&mut ledger, 1, "monthly");
    consume_credit(&mut ledger, 1, "one_time");
    assert_eq!(ledger.users[0].credits, 0);
    assert_eq!(ledger.users[0].monthly_quota, 0);
    let mut ledger = ledger_with(vec![account(1, 1, 1, false)]);
    for _ in 0..3 {
        consume_credit(&mut ledger, 1, "monthly");
        consume_credit(&mut ledger, 1, "one_time");
    }
    assert_eq!(ledger.users[0].credits, 0);
    assert_eq!(ledger.users[0].monthly_quota, 0);
}

#[test]
fn grant_adds_and_refuses_overflow() {
    let mut ledger = ledger_with(vec![account(1, 4, 0, false)]);
    assert_eq!(grant_one_time_credits(&mut ledger, 1, 3), Ok(()));
    assert_eq!(ledger.users[0].credits, 7);
    assert_eq!(grant_one_time_credits(&mut ledger, 1, i32::MAX), Err(StoreError::OutOfRange));
    assert_eq!(ledger.users[0].credits, 7);
    let before = ledger.clone();
    assert_eq!(grant_one_time_credits(&mut ledger, 2, 3), Ok(()));
    assert_eq!(ledger, before);
}

#[test]
fn monthly_quota_is_set_not_added() {
    let mut ledger = ledger_with(vec![account(1, 0, 0, false)]);
    assert_eq!(set_subscription_monthly_quota(&mut ledger, 1, 12, 100), Ok(()));
    assert_eq!(ledger.users[0].monthly_quota, 12);
    assert_eq!(ledger.users[0].quota_reset_at, Some(100 + QUOTA_PERIOD));
    assert_eq!(set_subscription_monthly_quota(&mut ledger, 1, 12, 200), Ok(()));
    assert_eq!(ledger.users[0].monthly_quota, 12);
    assert_eq!(ledger.users[0].quota_reset_at, Some(200 + QUOTA_PERIOD));
    consume_credit(&mut ledger, 1, "monthly");
    assert_eq!(set_subscription_monthly_quota(&mut ledger, 1, 12, 300), Ok(()));
    assert_eq!(ledger.users[0].monthly_quota, 12);
    let before = ledger.clone();
    assert_eq!(
        set_subscription_monthly_quota(&mut ledger, 1, 5, i64::MAX - 1),
        Err(StoreError::OutOfRange)
    );
    assert_eq!(ledger, before);
}

#[test]
fn refresh_resets_only_when_due() {
    let mut ledger = ledger_with(vec![account(1, 0, 3, false)]);
    ledger.products.push(plan(4, "sub", Some(12), true));
    // no subscription: nothing happens
    let before = ledger.clone();
    assert_eq!(refresh_monthly_quota(&mut ledger, 1, 1000), Ok(()));
    assert_eq!(ledger, before);

    ledger.subscriptions.push(sub(1, 1, 4, SubscriptionStatus::Active, Some(5000), Some(1)));
    // never scheduled: due at once
    assert_eq!(refresh_monthly_quota(&mut ledger, 1, 1000), Ok(()));
    assert_eq!(ledger.users[0].monthly_quota, 12);
    assert_eq!(ledger.users[0].quota_reset_at, Some(1000 + QUOTA_PERIOD));

    // not due yet
    consume_credit(&mut ledger, 1, "monthly");
    assert_eq!(refresh_monthly_quota(&mut ledger, 1, 2000), Ok(()));
    assert_eq!(ledger.users[0].monthly_quota, 11);

    // due exactly at the scheduled time
    ledger.subscriptions[0].current_period_end = None;
    let due = 1000 + QUOTA_PERIOD;
    assert_eq!(refresh_monthly_quota(&mut ledger, 1, due), Ok(()));
    assert_eq!(ledger.users[0].monthly_quota, 12);
    assert_eq!(ledger.users[0].quota_reset_at, Some(due + QUOTA_PERIOD));
}

#[test]
fn refresh_errors() {
    let mut ledger = Ledger::new();
    ledger.products.push(plan(4, "sub", Some(12), true));
    ledger.subscriptions.push(sub(1, 1, 4, SubscriptionStatus::Active, None, Some(1)));
    assert_eq!(refresh_monthly_quota(&mut ledger, 1, 0), Err(StoreError::RowNotFound));
    ledger.users.push(account(1, 0, 3, false));
    let before = ledger.clone();
    assert_eq!(refresh_monthly_quota(&mut ledger, 1, i64::MAX), Err(StoreError::OutOfRange));
    assert_eq!(ledger, before);
    // availability is still answered when the refresh fails
    assert_eq!(can_remove_watermark(&mut ledger, 1, i64::MAX), Ok(Some("monthly".to_string())));
}

#[test]
fn availability_check_runs_the_scheduler() {
    let mut ledger = ledger_with(vec![account(1, 0, 0, true)]);
    ledger.products.push(plan(4, "sub", Some(2), true));
    ledger.subscriptions.push(sub(1, 1, 4, SubscriptionStatus::Canceled, Some(5000), Some(1)));
    assert_eq!(can_remove_watermark(&mut ledger, 1, 10), Ok(Some("monthly".to_string())));
    assert_eq!(ledger.users[0].monthly_quota, 2);
    // the period is over: the canceled subscription grants nothing any more
    let mut ledger = ledger_with(vec![account(1, 0, 0, true)]);
    ledger.products.push(plan(4, "sub", Some(2), true));
    ledger.subscriptions.push(sub(1, 1, 4, SubscriptionStatus::Canceled, Some(5000), Some(1)));
    assert_eq!(can_remove_watermark(&mut ledger, 1, 5000), Ok(None));
}

#[test]
fn effective_subscription_selection() {
    let mut ledger = ledger_with(vec![account(1, 0, 0, false)]);
    ledger.products.push(plan(4, "sub", Some(12), true));
    ledger.products.push(plan(5, "big", None, true));
    assert_eq!(get_effective_subscription(&ledger, 1, 100), None);

    ledger.subscriptions.push(sub(1, 1, 4, SubscriptionStatus::Active, Some(1000), Some(10)));
    ledger.subscriptions.push(sub(2, 1, 5, SubscriptionStatus::Canceled, Some(1000), Some(20)));
    ledger.subscriptions.push(sub(3, 1, 4, SubscriptionStatus::Other, Some(1000), Some(30)));
    ledger.subscriptions.push(sub(4, 2, 4, SubscriptionStatus::Active, Some(1000), Some(40)));
    ledger.subscriptions.push(sub(5, 1, 4, SubscriptionStatus::Active, Some(100), Some(50)));
    ledger.subscriptions.push(sub(6, 1, 99, SubscriptionStatus::Active, None, Some(60)));

    // the latest created that is active or canceled, in its period, with a product
    let (found, credits) = get_effective_subscription(&ledger, 1, 100).expect("effective");
    assert_eq!(found.id, 2);
    assert_eq!(credits, 0);
    let (found, credits) = get_effective_subscription(&ledger, 1, 99).expect("effective");
    assert_eq!(found.id, 5);
    assert_eq!(credits, 12);
    assert_eq!(get_effective_subscription(&ledger, 1, 1000), None);
    // a period without an end never runs out
    ledger.subscriptions[0].current_period_end = None;
    let (found, _) = get_effective_subscription(&ledger, 1, i64::MAX).expect("effective");
    assert_eq!(found.id, 1);
    // of two created at the same time the one stored last is taken
    ledger.subscriptions[1].current_period_end = None;
    ledger.subscriptions[1].created_at = Some(10);
    let (found, _) = get_effective_subscription(&ledger, 1, i64::MAX).expect("effective");
    assert_eq!(found.id, 2);
    // a subscription without a creation time counts as the latest
    ledger.subscriptions[0].created_at = None;
    let (found, _) = get_effective_subscription(&ledger, 1, i64::MAX).expect("effective");
    assert_eq!(found.id, 1);
}

#[test]
fn upsert_inserts_then_replaces() {
    let mut ledger = Ledger::new();
    let id = upsert_subscription_active(&mut ledger, 7, 4, "lava", Some("c-1"), 10, 20, 5);
    assert_eq!(id, Ok(1));
    assert_eq!(
        ledger.subscriptions,
        vec![Subscription {
            id: 1,
            user_id: 7,
            product_id: 4,
            provider: "lava".to_string(),
            provider_subscription_id: Some("c-1".to_string()),
            status: SubscriptionStatus::Active,
            current_period_start: Some(10),
            current_period_end: Some(20),
            created_at: Some(5),
            updated_at: Some(5),
            canceled_at: None,
        }]
    );
    assert_eq!(ledger.next_subscription_id, 2);

    cancel_user_subscription(&mut ledger, 7, 1, 15);
    assert_eq!(ledger.subscriptions[0].status, SubscriptionStatus::Canceled);
    assert_eq!(ledger.subscriptions[0].canceled_at, Some(15));
    assert_eq!(ledger.subscriptions[0].current_period_end, Some(20));

    // a renewal replaces product and period, keeps the user and un-cancels
    let id = upsert_subscription_active(&mut ledger, 8, 5, "lava", Some("c-1"), 30, 40, 25);
    assert_eq!(id, Ok(1));
    assert_eq!(ledger.subscriptions.len(), 1);
    let s = &ledger.subscriptions[0];
    assert_eq!((s.user_id, s.product_id), (7, 5));
    assert_eq!(s.status, SubscriptionStatus::Active);
    assert_eq!((s.current_period_start, s.current_period_end), (Some(30), Some(40)));
    assert_eq!(s.canceled_at, None);
    assert_eq!(s.created_at, Some(5));

    // another provider or no contract makes a new row
    assert_eq!(upsert_subscription_active(&mut ledger, 7, 4, "other", Some("c-1"), 1, 2, 3), Ok(2));
    assert_eq!(upsert_subscription_active(&mut ledger, 7, 4, "lava", None, 1, 2, 3), Ok(3));
    assert_eq!(upsert_subscription_active(&mut ledger, 7, 4, "lava", None, 1, 2, 3), Ok(4));
    assert_eq!(ledger.subscriptions.len(), 4);

    ledger.next_subscription_id = i32::MAX;
    let before = ledger.clone();
    assert_eq!(
        upsert_subscription_active(&mut ledger, 7, 4, "lava", Some("new"), 1, 2, 3),
        Err(StoreError::OutOfRange)
    );
    assert_eq!(ledger, before);
    assert_eq!(upsert_subscription_active(&mut ledger, 7, 4, "lava", Some("c-1"), 1, 2, 3), Ok(1));
}

#[test]
fn cancel_needs_the_owner() {
    let mut ledger = Ledger::new();
    ledger.subscriptions.push(sub(1, 7, 4, SubscriptionStatus::Active, Some(100), Some(1)));
    let before = ledger.clone();
    cancel_user_subscription(&mut ledger, 8, 1, 50);
    assert_eq!(ledger, before);
    cancel_user_subscription(&mut ledger, 7, 2, 50);
    assert_eq!(ledger, before);
    cancel_user_subscription(&mut ledger, 7, 1, 50);
    assert_eq!(ledger.subscriptions[0].status, SubscriptionStatus::Canceled);
    assert_eq!(ledger.subscriptions[0].canceled_at, Some(50));
}

#[test]
fn catalog_queries() {
    let mut ledger = Ledger::new();
    ledger.products.push(plan(1, "a", None, true));
    ledger.products.push(plan(2, "b", None, false));
    ledger.products.push(plan(3, "c", None, true));
    let active = list_active_products(&ledger);
    assert_eq!(active.iter().map(|p| p.id).collect::<Vec<_>>(), vec![1, 3]);
    assert_eq!(get_product_by_slug(&ledger, "a").map(|p| p.id), Some(1));
    assert_eq!(get_product_by_slug(&ledger, "b"), None);
    assert_eq!(get_product_by_slug(&ledger, "zzz"), None);
}

#[test]
fn subscriptions_are_listed_most_recent_first() {
    let mut ledger = Ledger::new();
    ledger.subscriptions.push(sub(1, 7, 4, SubscriptionStatus::Active, None, Some(10)));
    ledger.subscriptions.push(sub(2, 7, 4, SubscriptionStatus::Active, None, Some(30)));
    ledger.subscriptions.push(sub(3, 8, 4, SubscriptionStatus::Active, None, Some(40)));
    ledger.subscriptions.push(sub(4, 7, 4, SubscriptionStatus::Other, None, Some(20)));
    ledger.subscriptions.push(sub(5, 7, 4, SubscriptionStatus::Active, None, Some(30)));
    ledger.subscriptions.push(sub(6, 7, 4, SubscriptionStatus::Active, None, None));
    let ids: Vec<i32> = list_user_subscriptions(&ledger, 7).iter().map(|s| s.id).collect();
    assert_eq!(ids, vec![6, 5, 2, 4, 1]);
    assert!(list_user_subscriptions(&ledger, 9).is_empty());
}

#[test]
fn names_of_states() {
    assert_eq!(TransactionStatus::parse("pending"), Some(TransactionStatus::Pending));
    assert_eq!(TransactionStatus::parse("succeeded"), Some(TransactionStatus::Succeeded));
    assert_eq!(TransactionStatus::parse("failed"), Some(TransactionStatus::Failed));
    assert_eq!(TransactionStatus::parse("refunded"), Some(TransactionStatus::Refunded));
    assert_eq!(TransactionStatus::parse("Pending"), None);
    assert_eq!(TransactionStatus::Succeeded.as_str(), "succeeded");
    assert!(TransactionStatus::Succeeded.terminal());
    assert!(TransactionStatus::Failed.terminal());
    assert!(!TransactionStatus::Pending.terminal());
    assert!(!TransactionStatus::Refunded.terminal());
    assert_eq!(ProductType::parse("one_time"), Some(ProductType::OneTime));
    assert_eq!(ProductType::parse("subscription"), Some(ProductType::Subscription));
    assert_eq!(ProductType::parse("gift"), None);
    assert_eq!(ProductType::Subscription.as_str(), "subscription");
    assert_eq!(TransactionType::parse("refund"), Some(TransactionType::Refund));
    assert_eq!(TransactionType::Payment.as_str(), "payment");
    assert_eq!(SubscriptionStatus::parse("active"), SubscriptionStatus::Active);
    assert_eq!(SubscriptionStatus::parse("canceled"), SubscriptionStatus::Canceled);
    assert_eq!(SubscriptionStatus::parse("paused"), SubscriptionStatus::Other);
    assert_eq!(SubscriptionStatus::Canceled.as_str(), Some("canceled"));
    assert_eq!(SubscriptionStatus::Other.as_str(), None);
}
