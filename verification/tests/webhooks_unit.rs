use sora_watermark_remov::api::webhooks_lava::{
    classify_kind, classify_outcome, extract_api_key, extract_bool, extract_custom_fields,
    extract_plain_string, extract_string, get_nested, get_nested_path, is_event_cancelled, is_event_failed,
    is_event_payment, is_event_recurring, is_event_success, is_failed, is_succeeded,
    kind_matches_product, normalize_payload, parse_webhook_body, value_to_string, EventOutcome,
    PaymentKind,
};
use sora_watermark_remov::json::Json;
use sora_watermark_remov::models::ProductType;

fn text(s: &str) -> Json {
    Json::Text(s.to_string())
}

fn object(members: Vec<(&str, Json)>) -> Json {
    Json::Object(members.into_iter().map(|(k, v)| (k.to_string(), v)).collect())
}

#[test]
fn normalize_payment_success_example() {
    let raw = object(vec![
        ("eventType", text("payment.success")),
        (
            "product",
            object(vec![
                ("id", text("d31384b8-e412-4be5-a2ec-297ae6666c8f")),
                ("title", text("Тестовый продукт")),
            ]),
        ),
        ("buyer", object(vec![("email", text("test@lava.top"))])),
        ("contractId", text("7ea82675-4ded-4133-95a7-a6efbaf165cc")),
        ("amount", Json::Number("40254.19".to_string())),
        ("currency", text("RUB")),
        ("timestamp", text("2024-02-05T09:38:27.33277Z")),
        ("status", text("completed")),
        ("errorMessage", text("")),
    ]);

    let normalized = normalize_payload(raw);
    assert_eq!(normalized.event_type.as_deref(), Some("payment.success"));
    assert_eq!(
        normalized.order_id.as_deref(),
        Some("7ea82675-4ded-4133-95a7-a6efbaf165cc")
    );
    assert_eq!(
        normalized.product_offer_id.as_deref(),
        Some("d31384b8-e412-4be5-a2ec-297ae6666c8f")
    );
    assert_eq!(normalized.buyer_email.as_deref(), Some("test@lava.top"));
    assert_eq!(normalized.status.as_deref(), Some("completed"));
    assert_eq!(normalized.currency.as_deref(), Some("RUB"));
    assert_eq!(normalized.amount.as_deref(), Some("40254.19"));
}

#[test]
fn parse_form_payload() {
    let body = b"contractId=abc&status=completed&eventType=payment.success";
    let raw = parse_webhook_body(body).expect("parse form");
    let normalized = normalize_payload(raw);

    assert_eq!(normalized.order_id.as_deref(), Some("abc"));
    assert_eq!(normalized.status.as_deref(), Some("completed"));
    assert_eq!(normalized.event_type.as_deref(), Some("payment.success"));
}

#[test]
fn extract_api_key_from_header() {
    let payload = object(vec![]);
    let key = extract_api_key(Some("secret"), "", &payload);
    assert_eq!(key.as_deref(), Some("secret"));
}

#[test]
fn extract_api_key_from_query_and_payload() {
    let payload = object(vec![("key", text("in-body"))]);
    assert_eq!(
        extract_api_key(None, "a=1&api_key=first&api_key=last", &payload).as_deref(),
        Some("last")
    );
    assert_eq!(extract_api_key(None, "apiKey=camel", &payload).as_deref(), Some("camel"));
    assert_eq!(extract_api_key(None, "other=1", &payload).as_deref(), Some("in-body"));
    assert_eq!(extract_api_key(None, "", &object(vec![])), None);
    assert_eq!(
        extract_api_key(Some("header"), "api_key=query", &payload).as_deref(),
        Some("header")
    );
}

#[test]
fn parse_json_body_renders_numbers() {
    let body = br#"{"eventType":"Payment.Success","amount":40254.19,"sum":7,"paid":true,"data":{"orderId":" o-1 "}}"#;
    let raw = parse_webhook_body(body).expect("json");
    assert_eq!(raw.get("amount"), Some(&Json::Number("40254.19".to_string())));
    assert_eq!(raw.get("sum"), Some(&Json::Number("7".to_string())));
    let event = normalize_payload(raw);
    assert_eq!(event.event_type.as_deref(), Some("payment.success"));
    assert_eq!(event.amount.as_deref(), Some("40254.19"));
    assert_eq!(event.order_id.as_deref(), Some("o-1"));
    assert_eq!(event.paid, Some(true));
}

#[test]
fn parse_rejects_empty_body() {
    assert_eq!(parse_webhook_body(b""), Err("empty body".to_string()));
}

#[test]
fn parse_form_last_pair_wins() {
    let raw = parse_webhook_body(b"status=failed&status=paid&x=%D1%82").expect("form");
    assert_eq!(raw.get("status"), Some(&text("paid")));
    assert_eq!(raw.get("x"), Some(&text("т")));
    assert_eq!(raw.get("missing"), None);
}

#[test]
fn nested_lookup_order() {
    let raw = object(vec![
        ("data", object(vec![("a", text("in-data")), ("b", text("b-data"))])),
        ("payload", object(vec![("b", text("b-payload")), ("c", text("in-payload"))])),
        ("a", text("top")),
    ]);
    assert_eq!(get_nested(&raw, "a"), Some(&text("top")));
    assert_eq!(get_nested(&raw, "b"), Some(&text("b-data")));
    assert_eq!(get_nested(&raw, "c"), Some(&text("in-payload")));
    assert_eq!(get_nested(&raw, "d"), None);
    assert_eq!(get_nested_path(&raw, &["data", "a"]), Some(&text("in-data")));
    assert_eq!(get_nested_path(&raw, &["data", "zz"]), None);
    assert_eq!(get_nested_path(&raw, &[]), Some(&raw));
}

#[test]
fn scalar_texts() {
    assert_eq!(value_to_string(&text("x")), Some("x".to_string()));
    assert_eq!(value_to_string(&Json::Number("12".to_string())), Some("12".to_string()));
    assert_eq!(value_to_string(&Json::Bool(true)), Some("true".to_string()));
    assert_eq!(value_to_string(&Json::Bool(false)), Some("false".to_string()));
    assert_eq!(value_to_string(&Json::Null), None);
    assert_eq!(value_to_string(&Json::Array(vec![])), None);
}

#[test]
fn extract_string_skips_empty_and_trims() {
    let raw = object(vec![
        ("orderId", text("   ")),
        ("order_id", Json::Null),
        ("contractId", text("  c-9\n")),
    ]);
    assert_eq!(
        extract_string(&raw, &["orderId", "order_id", "contractId"]),
        Some("c-9".to_string())
    );
    assert_eq!(extract_string(&raw, &["orderId"]), None);
}

#[test]
fn extract_bool_reads_words() {
    let raw = object(vec![
        ("paid", text("maybe")),
        ("isPaid", text("YES")),
        ("no", text("0")),
        ("flag", Json::Bool(false)),
    ]);
    assert_eq!(extract_bool(&raw, &["paid", "isPaid"]), Some(true));
    assert_eq!(extract_bool(&raw, &["no"]), Some(false));
    assert_eq!(extract_bool(&raw, &["flag"]), Some(false));
    assert_eq!(extract_bool(&raw, &["paid"]), None);
}

#[test]
fn custom_fields_are_decoded_when_structured() {
    let raw = object(vec![("customFields", text("  {\"user_id\": 5}"))]);
    assert_eq!(
        extract_custom_fields(&raw),
        Some(object(vec![("user_id", Json::Number("5".to_string()))]))
    );
    let raw = object(vec![("custom_fields", text("{broken"))]);
    assert_eq!(extract_custom_fields(&raw), Some(text("{broken")));
    let raw = object(vec![("custom_fields", text("plain"))]);
    assert_eq!(extract_custom_fields(&raw), Some(text("plain")));
    let raw = object(vec![("customFields", object(vec![("product_slug", text("p"))]))]);
    assert_eq!(extract_custom_fields(&raw), Some(object(vec![("product_slug", text("p"))])));
    assert_eq!(extract_custom_fields(&object(vec![])), None);
}

#[test]
fn currency_is_uppercased_and_status_kept() {
    let raw = object(vec![("currency", text("rub")), ("status", text(" Paid "))]);
    let event = normalize_payload(raw);
    assert_eq!(event.currency.as_deref(), Some("RUB"));
    assert_eq!(event.status.as_deref(), Some("Paid"));
    assert!(is_succeeded(&event));
    assert!(!is_failed(&event));
}

#[test]
fn event_type_vocabulary() {
    assert!(is_event_success(Some("payment.success")));
    assert!(is_event_success(Some("subscription.recurring.payment.success")));
    assert!(!is_event_success(Some("payment.failed")));
    assert!(!is_event_success(None));
    assert!(is_event_failed(Some("payment.failed")));
    assert!(is_event_failed(Some("subscription.recurring.payment.failed")));
    assert!(is_event_cancelled(Some("subscription.cancelled")));
    assert!(!is_event_cancelled(Some("subscription.canceled")));
    assert!(is_event_payment(Some("payment.failed")));
    assert!(!is_event_payment(Some("subscription.recurring.payment.failed")));
    assert!(is_event_recurring(Some("subscription.recurring.payment.success")));
    assert!(!is_event_recurring(Some("payment.success")));
    assert_eq!(classify_kind(Some("payment.success")), PaymentKind::FirstPayment);
    assert_eq!(
        classify_kind(Some("subscription.recurring.payment.failed")),
        PaymentKind::RecurringPayment
    );
    assert_eq!(classify_kind(Some("other")), PaymentKind::Unclassified);
    assert_eq!(classify_kind(None), PaymentKind::Unclassified);
    assert!(!kind_matches_product(PaymentKind::RecurringPayment, ProductType::OneTime));
    assert!(kind_matches_product(PaymentKind::RecurringPayment, ProductType::Subscription));
    assert!(kind_matches_product(PaymentKind::FirstPayment, ProductType::Subscription));
    assert!(kind_matches_product(PaymentKind::FirstPayment, ProductType::OneTime));
    assert!(kind_matches_product(PaymentKind::Unclassified, ProductType::OneTime));
}

fn event_with(members: Vec<(&str, Json)>) -> EventOutcome {
    classify_outcome(&normalize_payload(object(members)))
}

#[test]
fn outcome_classification() {
    for status in ["succeeded", "success", "paid", "completed", "done", "DONE"] {
        assert_eq!(event_with(vec![("status", text(status))]), EventOutcome::Success);
    }
    for status in ["failed", "fail", "canceled", "cancelled", "error", "expired", "declined"] {
        assert_eq!(event_with(vec![("status", text(status))]), EventOutcome::Failure);
    }
    assert_eq!(event_with(vec![("status", text("processing"))]), EventOutcome::Indeterminate);
    assert_eq!(event_with(vec![]), EventOutcome::Indeterminate);
    assert_eq!(event_with(vec![("paid", Json::Bool(false))]), EventOutcome::Indeterminate);
    // the boolean wins for success
    assert_eq!(
        event_with(vec![("paid", Json::Bool(true)), ("status", text("failed"))]),
        EventOutcome::Success
    );
    assert_eq!(
        event_with(vec![("type", text("subscription.cancelled")), ("paid", Json::Bool(true))]),
        EventOutcome::Cancellation
    );
    assert_eq!(event_with(vec![("type", text("payment.failed"))]), EventOutcome::Failure);
    assert_eq!(event_with(vec![("type", text("payment.success"))]), EventOutcome::Success);
    assert_eq!(
        event_with(vec![("type", text("payment.success")), ("status", text("declined"))]),
        EventOutcome::Failure
    );
}

#[test]
fn embedded_api_key_is_taken_as_it_stands() {
    let padded = object(vec![("apiKey", text(" K "))]);
    assert_eq!(extract_api_key(None, "", &padded), Some(" K ".to_string()));
    assert_eq!(extract_api_key(None, "other=1", &padded), Some(" K ".to_string()));

    // a blank text is a key like any other: it is not passed over
    let blank = object(vec![("apiKey", text("   ")), ("key", text("K"))]);
    assert_eq!(extract_api_key(None, "", &blank), Some("   ".to_string()));

    // only an empty text is passed over
    let empty = object(vec![("apiKey", text("")), ("api_key", Json::Null), ("key", text("K"))]);
    assert_eq!(extract_api_key(None, "", &empty), Some("K".to_string()));

    let nested = object(vec![("payload", object(vec![("api_key", text("\tK"))]))]);
    assert_eq!(extract_api_key(None, "", &nested), Some("\tK".to_string()));
    let number = object(vec![("key", Json::Number("5".to_string()))]);
    assert_eq!(extract_api_key(None, "", &number), Some("5".to_string()));
    assert_eq!(extract_api_key(None, "", &object(vec![("key", Json::Array(vec![]))])), None);

    // header and query are taken as they stand too, and come first
    assert_eq!(extract_api_key(Some(" h "), "api_key=q", &padded), Some(" h ".to_string()));
    assert_eq!(extract_api_key(None, "api_key=+q+", &padded), Some(" q ".to_string()));
}

#[test]
fn plain_and_clean_texts_differ_in_trimming_only() {
    let raw = object(vec![("a", text("")), ("b", text("  ")), ("c", text(" x "))]);
    assert_eq!(extract_plain_string(&raw, &["a", "b", "c"]), Some("  ".to_string()));
    assert_eq!(extract_string(&raw, &["a", "b", "c"]), Some("x".to_string()));
    assert_eq!(extract_plain_string(&raw, &["a"]), None);
    assert_eq!(extract_plain_string(&raw, &["c", "b"]), Some(" x ".to_string()));
    assert_eq!(extract_plain_string(&raw, &[]), None);
}
