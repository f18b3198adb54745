use sora_watermark_remov::api::handlers::{
    clamp_limit, clamp_offset, read_task_id, upload_gate, InsufficientCredits, TaskStartError,
};
use sora_watermark_remov::api::webhooks_lava::normalize_payload;
use sora_watermark_remov::api::webhooks_lava::{
    flag_word, is_failure_word, is_success_word, text_starts_structured,
};
use sora_watermark_remov::json::Json;
use sora_watermark_remov::ledger::Ledger;
use sora_watermark_remov::models::UserAccount;
use sora_watermark_remov::queue::read_result_url;
use sora_watermark_remov::reconcile::{embedded_product_slug, embedded_user, find_user_for};

#[test]
fn words_for_yes_and_no() {
    for word in ["true", "1", "yes"] {
        assert_eq!(flag_word(word), Some(true));
    }
    for word in ["false", "0", "no"] {
        assert_eq!(flag_word(word), Some(false));
    }
    for word in ["", "TRUE", "y", "2", "nope"] {
        assert_eq!(flag_word(word), None);
    }
}

#[test]
fn words_for_success_and_failure() {
    for word in ["succeeded", "success", "paid", "completed", "done"] {
        assert!(is_success_word(word));
        assert!(!is_failure_word(word));
    }
    for word in ["failed", "fail", "canceled", "cancelled", "error", "expired", "declined"] {
        assert!(is_failure_word(word));
        assert!(!is_success_word(word));
    }
    for word in ["", "Paid", "pending", "refunded", "ok"] {
        assert!(!is_success_word(word));
        assert!(!is_failure_word(word));
    }
}

#[test]
fn structured_texts() {
    assert!(text_starts_structured("{}"));
    assert!(text_starts_structured("[1]"));
    assert!(!text_starts_structured(" {}"));
    assert!(!text_starts_structured(""));
    assert!(!text_starts_structured("x{"));
}

#[test]
fn page_bounds() {
    assert_eq!(clamp_limit(None), 100);
    assert_eq!(clamp_limit(Some(i64::MIN)), 1);
    assert_eq!(clamp_limit(Some(1)), 1);
    assert_eq!(clamp_limit(Some(500)), 500);
    assert_eq!(clamp_limit(Some(1000)), 1000);
    assert_eq!(clamp_limit(Some(i64::MAX)), 1000);
    assert_eq!(clamp_offset(None), 0);
    assert_eq!(clamp_offset(Some(-1)), 0);
    assert_eq!(clamp_offset(Some(i64::MAX)), i64::MAX);
}

fn object(members: Vec<(&str, Json)>) -> Json {
    Json::Object(members.into_iter().map(|(k, v)| (k.to_string(), v)).collect())
}

#[test]
fn values_of_the_job_service() {
    let text = |s: &str| Json::Text(s.to_string());
    let named = object(vec![("data", object(vec![("taskId", text("t-1"))]))]);
    assert_eq!(read_task_id(&named), Ok("t-1".to_string()));
    assert_eq!(read_task_id(&object(vec![])), Err(TaskStartError::NoTaskId));
    assert_eq!(read_task_id(&Json::Null), Err(TaskStartError::NoTaskId));
    let number = object(vec![("data", object(vec![("taskId", Json::Number("5".to_string()))]))]);
    assert_eq!(read_task_id(&number), Err(TaskStartError::NoTaskId));

    let urls = object(vec![("resultUrls", Json::Array(vec![text("a"), text("b")]))]);
    assert_eq!(read_result_url(&urls), Some("a".to_string()));
    assert_eq!(read_result_url(&object(vec![("resultUrls", Json::Array(vec![]))])), None);
    assert_eq!(read_result_url(&object(vec![("resultUrls", Json::Array(vec![Json::Null]))])), None);
    assert_eq!(read_result_url(&object(vec![("resultUrls", text("a"))])), None);
    assert_eq!(read_result_url(&Json::Array(vec![text("a")])), None);
}

#[test]
fn users_by_identifier_or_email() {
    let mut ledger = Ledger::new();
    for (id, email) in [(3, "c@x.y"), (4, "d@x.y")] {
        ledger.users.push(UserAccount {
            id,
            email: email.to_string(),
            credits: 0,
            monthly_quota: 0,
            quota_reset_at: None,
            free_generation_used: false,
        });
    }
    assert_eq!(find_user_for(&ledger, Some(4), Some("c@x.y")), Some(4));
    assert_eq!(find_user_for(&ledger, Some(9), Some("c@x.y")), None);
    assert_eq!(find_user_for(&ledger, None, Some("c@x.y")), Some(3));
    assert_eq!(find_user_for(&ledger, None, Some("z@x.y")), None);
    assert_eq!(find_user_for(&ledger, None, None), None);
}

#[test]
fn uploads_need_a_balance() {
    assert_eq!(upload_gate(Some("monthly".to_string())), Ok("monthly".to_string()));
    assert_eq!(upload_gate(Some("free".to_string())), Ok("free".to_string()));
    assert_eq!(upload_gate(Some(String::new())), Ok(String::new()));
    assert_eq!(upload_gate(None), Err(InsufficientCredits));
}

#[test]
fn identifiers_in_custom_fields() {
    let text = |s: &str| Json::Text(s.to_string());
    let event = normalize_payload(object(vec![(
        "customFields",
        object(vec![("user_id", Json::Number("42".to_string())), ("product_slug", text("pack"))]),
    )]));
    assert_eq!(embedded_user(&event), Some(42));
    assert_eq!(embedded_product_slug(&event), Some("pack".to_string()));

    let event = normalize_payload(object(vec![(
        "customFields",
        text(r#"{"user_id":"-7","product_slug":5}"#),
    )]));
    assert_eq!(embedded_user(&event), Some(-7));
    assert_eq!(embedded_product_slug(&event), Some("5".to_string()));

    let event = normalize_payload(object(vec![(
        "customFields",
        object(vec![("user_id", text("seven")), ("product_slug", Json::Null)]),
    )]));
    assert_eq!(embedded_user(&event), None);
    assert_eq!(embedded_product_slug(&event), None);

    let event = normalize_payload(object(vec![("customFields", text("plain"))]));
    assert_eq!(embedded_user(&event), None);
    assert_eq!(embedded_user(&normalize_payload(object(vec![]))), None);
}
