use sora_watermark_remov::api::webhooks_lava::{lava_webhook, normalize_payload, WebhookResponse};
use sora_watermark_remov::billing::QUOTA_PERIOD;
use sora_watermark_remov::json::Json;
use sora_watermark_remov::ledger::Ledger;
use sora_watermark_remov::models::{
    Product, ProductType, Subscription, SubscriptionStatus, Transaction, TransactionStatus,
    TransactionType, UserAccount,
};
use sora_watermark_remov::reconcile::{reconcile, Outcome};

const NOW: i64 = 1_707_125_907_000_000;

fn text(s: &str) -> Json {
    Json::Text(s.to_string())
}

fn object(members: Vec<(&str, Json)>) -> Json {
    Json::Object(members.into_iter().map(|(k, v)| (k.to_string(), v)).collect())
}

fn user(id: i32, email: &str) -> UserAccount {
    UserAccount {
        id,
        email: email.to_string(),
        credits: 0,
        monthly_quota: 0,
        quota_reset_at: None,
        free_generation_used: false,
    }
}

fn product(id: i32, slug: &str, offer: &str, kind: ProductType, credits: Option<i32>, monthly: Option<i32>) -> Product {
    Product {
        id,
        slug: slug.to_string(),
        name: "Test".to_string(),
        description: Some("Test product".to_string()),
        price: "19".to_string(),
        currency: "RUB".to_string(),
        product_type: kind,
        credits_granted: credits,
        monthly_credits: monthly,
        is_active: true,
        created_at: Some(0),
        lava_offer_id: Some(offer.to_string()),
    }
}

fn settled_parent(id: i32, user_id: i32, product_id: i32, order: &str) -> Transaction {
    Transaction {
        id,
        user_id,
        product_id: Some(product_id),
        subscription_id: None,
        provider: "lava".to_string(),
        provider_order_id: order.to_string(),
        provider_parent_order_id: Some(order.to_string()),
        amount: "19".to_string(),
        currency: "RUB".to_string(),
        status: TransactionStatus::Succeeded,
        tx_type: TransactionType::Payment,
        payload: vec![],
        paid_at: Some(1),
        created_at: Some(0),
    }
}

fn payment_body(event_type: &str, offer: &str, email: &str, contract: &str, parent: Option<&str>) -> Vec<u8> {
    let parent = match parent {
        Some(p) => format!(r#""parentContractId":"{p}","#),
        None => String::new(),
    };
    format!(
        r#"{{"eventType":"{event_type}","product":{{"id":"{offer}","title":"Test"}},"buyer":{{"email":"{email}"}},"contractId":"{contract}",{parent}"amount":19,"currency":"RUB","timestamp":"2024-02-05T09:38:27.33277Z","status":"completed","errorMessage":""}}"#
    )
    .into_bytes()
}

fn one_time_ledger() -> Ledger {
    let mut ledger = Ledger::new();
    ledger.users.push(user(7, "webhook_test@lava.top"));
    ledger.products.push(product(3, "test_pack", "offer-1", ProductType::OneTime, Some(3), None));
    ledger
}

fn subscription_ledger() -> Ledger {
    let mut ledger = Ledger::new();
    ledger.users.push(user(7, "webhook_sub@lava.top"));
    ledger.products.push(product(4, "test_sub", "offer-2", ProductType::Subscription, None, Some(12)));
    ledger.transactions.push(settled_parent(1, 7, 4, "parent-1"));
    ledger.next_transaction_id = 2;
    ledger
}

#[test]
fn webhook_one_time_payment_success_creates_tx_and_grants_credits() {
    let mut ledger = one_time_ledger();
    let body = payment_body("payment.success", "offer-1", "webhook_test@lava.top", "contract-1", None);

    let resp = lava_webhook(&mut ledger, "test-key", &body, Some("test-key"), "", NOW);
    assert_eq!(resp.status_code(), 200);
    assert_eq!(resp, WebhookResponse::Acknowledged(Outcome::Succeeded));

    assert_eq!(ledger.users[0].credits, 3);

    assert_eq!(ledger.transactions.len(), 1);
    let tx = &ledger.transactions[0];
    assert_eq!(tx.status, TransactionStatus::Succeeded);
    assert_eq!(tx.provider, "lava");
    assert_eq!(tx.provider_order_id, "contract-1");
    assert_eq!(tx.provider_parent_order_id, None);
    assert_eq!(tx.user_id, 7);
    assert_eq!(tx.product_id, Some(3));
    assert_eq!(tx.amount, "19");
    assert_eq!(tx.currency, "RUB");
    assert_eq!(tx.paid_at, Some(NOW));
    assert_eq!(tx.payload.len(), 1);
    assert_eq!(tx.id, 1);
    assert_eq!(ledger.next_transaction_id, 2);
    assert!(ledger.subscriptions.is_empty());
}

#[test]
fn webhook_recurring_payment_success_creates_tx_and_updates_subscription() {
    let mut ledger = subscription_ledger();
    let body = payment_body(
        "subscription.recurring.payment.success",
        "offer-2",
        "webhook_sub@lava.top",
        "child-1",
        Some("parent-1"),
    );

    let resp = lava_webhook(&mut ledger, "test-key", &body, Some("test-key"), "", NOW);
    assert_eq!(resp.status_code(), 200);

    assert_eq!(ledger.transactions.len(), 2);
    assert_eq!(ledger.transactions[0], settled_parent(1, 7, 4, "parent-1"));
    let child = &ledger.transactions[1];
    assert_eq!(child.provider_order_id, "child-1");
    assert_eq!(child.provider_parent_order_id.as_deref(), Some("parent-1"));
    assert_eq!(child.status, TransactionStatus::Succeeded);
    assert_eq!(child.subscription_id, Some(1));

    assert_eq!(ledger.subscriptions.len(), 1);
    let sub = &ledger.subscriptions[0];
    assert_eq!(sub.provider, "lava");
    assert_eq!(sub.provider_subscription_id.as_deref(), Some("parent-1"));
    assert_eq!(sub.status, SubscriptionStatus::Active);
    assert_eq!(sub.current_period_start, Some(NOW));
    assert_eq!(sub.current_period_end, Some(NOW + QUOTA_PERIOD));
    assert_eq!(sub.canceled_at, None);

    assert_eq!(ledger.users[0].monthly_quota, 12);
    assert_eq!(ledger.users[0].quota_reset_at, Some(NOW + QUOTA_PERIOD));
}

#[test]
fn redelivered_renewal_grants_nothing_more() {
    let mut ledger = subscription_ledger();
    let body = payment_body(
        "subscription.recurring.payment.success",
        "offer-2",
        "webhook_sub@lava.top",
        "child-1",
        Some("parent-1"),
    );
    let first = lava_webhook(&mut ledger, "k", &body, Some("k"), "", NOW);
    assert_eq!(first, WebhookResponse::Acknowledged(Outcome::Succeeded));
    let after_first = ledger.clone();

    for later in 1..4 {
        let again = lava_webhook(&mut ledger, "k", &body, Some("k"), "", NOW + later);
        assert_eq!(again, WebhookResponse::Acknowledged(Outcome::Idempotent));
        assert_eq!(again.status_code(), 200);
        assert_eq!(ledger, after_first);
    }
    assert_eq!(ledger.users[0].monthly_quota, 12);
    assert_eq!(ledger.transactions.len(), 2);
}

#[test]
fn cancellation_keeps_the_period() {
    let mut ledger = subscription_ledger();
    let body = payment_body(
        "subscription.recurring.payment.success",
        "offer-2",
        "webhook_sub@lava.top",
        "child-1",
        Some("parent-1"),
    );
    lava_webhook(&mut ledger, "k", &body, Some("k"), "", NOW);

    let cancel = br#"{"eventType":"subscription.cancelled","contractId":"parent-1"}"#;
    let resp = lava_webhook(&mut ledger, "k", cancel, Some("k"), "", NOW + 5);
    assert_eq!(resp, WebhookResponse::Acknowledged(Outcome::Canceled));
    let sub = &ledger.subscriptions[0];
    assert_eq!(sub.status, SubscriptionStatus::Canceled);
    assert_eq!(sub.canceled_at, Some(NOW + 5));
    assert_eq!(sub.current_period_start, Some(NOW));
    assert_eq!(sub.current_period_end, Some(NOW + QUOTA_PERIOD));

    // a cancellation for a contract that is not known is acknowledged too
    let unknown = br#"{"eventType":"subscription.cancelled","parentContractId":"nobody"}"#;
    let before = ledger.clone();
    let resp = lava_webhook(&mut ledger, "k", unknown, Some("k"), "", NOW + 6);
    assert_eq!(resp, WebhookResponse::Acknowledged(Outcome::Canceled));
    assert_eq!(ledger, before);
}

#[test]
fn unresolvable_event_is_ignored() {
    let mut ledger = one_time_ledger();
    let before = ledger.clone();
    let body = br#"{"contractId":"stranger-1","status":"paid"}"#;
    let resp = lava_webhook(&mut ledger, "k", body, Some("k"), "", NOW);
    assert_eq!(resp, WebhookResponse::Acknowledged(Outcome::Ignored));
    assert_eq!(resp.status_code(), 200);
    assert_eq!(
        resp.body(),
        Some(object(vec![("ok", Json::Bool(true)), ("ignored", Json::Bool(true))]))
    );
    assert_eq!(ledger, before);
    assert!(ledger.transactions.is_empty());
}

#[test]
fn wrong_key_is_unauthorized_and_touches_nothing() {
    let mut ledger = one_time_ledger();
    let before = ledger.clone();
    let body = payment_body("payment.success", "offer-1", "webhook_test@lava.top", "contract-1", None);
    let resp = lava_webhook(&mut ledger, "test-key", &body, Some("other"), "", NOW);
    assert_eq!(resp, WebhookResponse::Unauthorized);
    assert_eq!(resp.status_code(), 401);
    assert_eq!(resp.body(), None);
    let resp = lava_webhook(&mut ledger, "test-key", &body, None, "", NOW);
    assert_eq!(resp, WebhookResponse::Unauthorized);
    assert_eq!(ledger, before);
    let resp = lava_webhook(&mut ledger, "test-key", &body, None, "api_key=test-key", NOW);
    assert_eq!(resp, WebhookResponse::Acknowledged(Outcome::Succeeded));
}

#[test]
fn unreadable_body_is_a_bad_request() {
    let mut ledger = one_time_ledger();
    let resp = lava_webhook(&mut ledger, "k", b"", Some("k"), "", NOW);
    assert_eq!(resp, WebhookResponse::BadRequest);
    assert_eq!(resp.status_code(), 400);
}

#[test]
fn failure_settles_without_effects_and_stays() {
    let mut ledger = one_time_ledger();
    let mut pending = settled_parent(1, 7, 3, "contract-9");
    pending.status = TransactionStatus::Pending;
    pending.provider_parent_order_id = None;
    pending.paid_at = None;
    ledger.transactions.push(pending);
    ledger.next_transaction_id = 2;

    let failed = normalize_payload(object(vec![
        ("type", text("payment.failed")),
        ("orderId", text("contract-9")),
        ("status", text("declined")),
    ]));
    assert_eq!(reconcile(&mut ledger, &failed, NOW), Outcome::Failed);
    assert_eq!(ledger.transactions[0].status, TransactionStatus::Failed);
    assert_eq!(ledger.transactions[0].paid_at, None);
    assert_eq!(ledger.users[0].credits, 0);

    // a later success for the same order changes nothing
    let paid = normalize_payload(object(vec![
        ("type", text("payment.success")),
        ("orderId", text("contract-9")),
    ]));
    assert_eq!(reconcile(&mut ledger, &paid, NOW + 1), Outcome::Idempotent);
    assert_eq!(ledger.transactions[0].status, TransactionStatus::Failed);
    assert_eq!(ledger.users[0].credits, 0);
}

#[test]
fn recurring_event_for_one_time_product_is_ignored() {
    let mut ledger = one_time_ledger();
    let before = ledger.clone();
    let body = payment_body(
        "subscription.recurring.payment.success",
        "offer-1",
        "webhook_test@lava.top",
        "contract-1",
        None,
    );
    let resp = lava_webhook(&mut ledger, "k", &body, Some("k"), "", NOW);
    assert_eq!(resp, WebhookResponse::Acknowledged(Outcome::Ignored));
    assert_eq!(ledger, before);
}

#[test]
fn overflowing_grant_is_a_storage_error_and_changes_nothing() {
    let mut ledger = one_time_ledger();
    ledger.users[0].credits = i32::MAX - 2;
    let before = ledger.clone();
    let body = payment_body("payment.success", "offer-1", "webhook_test@lava.top", "contract-1", None);
    let resp = lava_webhook(&mut ledger, "k", &body, Some("k"), "", NOW);
    assert_eq!(resp, WebhookResponse::InternalError);
    assert_eq!(resp.status_code(), 500);
    assert_eq!(ledger, before);
}

#[test]
fn user_and_product_from_custom_fields() {
    let mut ledger = one_time_ledger();
    let event = normalize_payload(object(vec![
        ("orderId", text("o-5")),
        ("paid", Json::Bool(true)),
        ("customFields", text(r#"{"user_id":"7","product_slug":"test_pack"}"#)),
    ]));
    assert_eq!(reconcile(&mut ledger, &event, NOW), Outcome::Succeeded);
    assert_eq!(ledger.users[0].credits, 3);
    assert_eq!(ledger.transactions[0].amount, "19");

    let stranger = normalize_payload(object(vec![
        ("orderId", text("o-6")),
        ("paid", Json::Bool(true)),
        ("customFields", text(r#"{"user_id":"8","product_slug":"test_pack"}"#)),
    ]));
    assert_eq!(reconcile(&mut ledger, &stranger, NOW), Outcome::Ignored);
    assert_eq!(ledger.transactions.len(), 1);
}

#[test]
fn missing_product_settles_without_grant() {
    let mut ledger = one_time_ledger();
    let mut pending = settled_parent(1, 7, 99, "contract-9");
    pending.status = TransactionStatus::Pending;
    ledger.transactions.push(pending);
    ledger.next_transaction_id = 2;
    let paid = normalize_payload(object(vec![("orderId", text("contract-9")), ("status", text("paid"))]));
    assert_eq!(reconcile(&mut ledger, &paid, NOW), Outcome::MissingProduct);
    assert_eq!(ledger.transactions[0].status, TransactionStatus::Succeeded);
    assert_eq!(ledger.users[0].credits, 0);
    let resp = WebhookResponse::Acknowledged(Outcome::MissingProduct);
    assert_eq!(
        resp.body(),
        Some(object(vec![("ok", Json::Bool(true)), ("missing_product", Json::Bool(true))]))
    );
    assert_eq!(
        WebhookResponse::Acknowledged(Outcome::Succeeded).body(),
        Some(object(vec![("ok", Json::Bool(true))]))
    );
}

#[test]
fn renewal_reactivates_a_canceled_subscription() {
    let mut ledger = subscription_ledger();
    ledger.subscriptions.push(Subscription {
        id: 5,
        user_id: 7,
        product_id: 4,
        provider: "lava".to_string(),
        provider_subscription_id: Some("parent-1".to_string()),
        status: SubscriptionStatus::Canceled,
        current_period_start: Some(1),
        current_period_end: Some(2),
        created_at: Some(1),
        updated_at: Some(1),
        canceled_at: Some(2),
    });
    ledger.next_subscription_id = 6;
    let body = payment_body(
        "subscription.recurring.payment.success",
        "offer-2",
        "webhook_sub@lava.top",
        "child-2",
        Some("parent-1"),
    );
    let resp = lava_webhook(&mut ledger, "k", &body, Some("k"), "", NOW);
    assert_eq!(resp, WebhookResponse::Acknowledged(Outcome::Succeeded));
    assert_eq!(ledger.subscriptions.len(), 1);
    let sub = &ledger.subscriptions[0];
    assert_eq!(sub.id, 5);
    assert_eq!(sub.status, SubscriptionStatus::Active);
    assert_eq!(sub.canceled_at, None);
    assert_eq!(sub.current_period_end, Some(NOW + QUOTA_PERIOD));
    assert_eq!(ledger.transactions[1].subscription_id, Some(5));
}

#[test]
fn padded_embedded_key_is_not_the_secret() {
    let mut ledger = one_time_ledger();
    let before = ledger.clone();
    let body = br#"{"apiKey":" test-key ","eventType":"payment.success","product":{"id":"offer-1"},"buyer":{"email":"webhook_test@lava.top"},"contractId":"contract-1","status":"completed"}"#;

    let resp = lava_webhook(&mut ledger, "test-key", body, None, "", NOW);
    assert_eq!(resp, WebhookResponse::Unauthorized);
    assert_eq!(resp.status_code(), 401);
    assert_eq!(ledger, before);

    // a blank key before the right one is the key that was presented
    let blank = br#"{"apiKey":"   ","key":"test-key","contractId":"contract-1","status":"completed"}"#;
    let resp = lava_webhook(&mut ledger, "test-key", blank, None, "", NOW);
    assert_eq!(resp, WebhookResponse::Unauthorized);
    assert_eq!(ledger, before);

    // the same text, padding and all, is the secret where that is configured
    let resp = lava_webhook(&mut ledger, " test-key ", body, None, "", NOW);
    assert_eq!(resp, WebhookResponse::Acknowledged(Outcome::Succeeded));
    assert_eq!(ledger.users[0].credits, 3);
}

#[test]
fn embedded_key_without_padding_is_accepted() {
    let mut ledger = one_time_ledger();
    let body = br#"{"data":{"api_key":"test-key"},"eventType":"payment.success","product":{"id":"offer-1"},"buyer":{"email":"webhook_test@lava.top"},"contractId":"contract-1","status":"completed"}"#;
    let resp = lava_webhook(&mut ledger, "test-key", body, None, "x=1", NOW);
    assert_eq!(resp, WebhookResponse::Acknowledged(Outcome::Succeeded));
    // a header that differs is not made good by the field
    let mut other = one_time_ledger();
    let resp = lava_webhook(&mut other, "test-key", body, Some("wrong"), "", NOW);
    assert_eq!(resp, WebhookResponse::Unauthorized);
}
