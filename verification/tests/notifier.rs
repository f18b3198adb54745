use sora_watermark_remov::text::{from_chars, str_contains, str_eq, str_replace, to_chars, trim};
use sora_watermark_remov::ws::{notify_upload_by_task, uploads_ws, UploadEventData, WsHub};

#[test]
fn hub_keeps_sessions_per_user() {
    let mut hub = WsHub::new();
    assert!(hub.sessions_of(1).is_empty());
    hub.connect(1, 10);
    hub.connect(1, 11);
    hub.connect(2, 12);
    hub.connect(1, 10);
    let mut mine = hub.sessions_of(1);
    mine.sort();
    assert_eq!(mine, vec![10, 11]);
    assert_eq!(hub.sessions_of(2), vec![12]);
    hub.disconnect(1, 10);
    assert_eq!(hub.sessions_of(1), vec![11]);
    hub.disconnect(1, 10);
    hub.disconnect(3, 11);
    assert_eq!(hub.sessions_of(1), vec![11]);
    hub.disconnect(1, 11);
    assert!(hub.sessions_of(1).is_empty());
    assert_eq!(hub.sessions_of(2), vec![12]);
    hub.disconnect(2, 12);
    assert_eq!(hub, WsHub::new());
}

#[test]
fn upload_messages() {
    let data = UploadEventData {
        id: 4,
        task_id: Some("t".to_string()),
        status: "ready".to_string(),
        cleaned_url: None,
        original_filename: "v.mp4".to_string(),
        created_at: Some(9),
    };
    let message = notify_upload_by_task(7, data.clone());
    assert_eq!(message.user_id, 7);
    assert_eq!(message.event.event, "upload.updated");
    assert_eq!(message.event.data, data);
}

#[test]
fn session_tokens() {
    assert_eq!(uploads_ws(Some("jwt".to_string())), Some("jwt".to_string()));
    assert_eq!(uploads_ws(Some(String::new())), None);
    assert_eq!(uploads_ws(None), None);
}

#[test]
fn search_and_replace() {
    assert!(str_contains("abcabc", "cab"));
    assert!(str_contains("abc", ""));
    assert!(str_contains("", ""));
    assert!(!str_contains("", "a"));
    assert!(!str_contains("ab", "abc"));
    assert!(str_contains("ab", "ab"));
    assert!(!str_contains("aab", "aba"));
    assert!(str_contains("привет мир", "т м"));

    assert_eq!(str_replace("aaaa", "aa", "b"), "bb");
    assert_eq!(str_replace("aaa", "aa", "b"), "ba");
    assert_eq!(str_replace("abc", "x", "y"), "abc");
    assert_eq!(str_replace("abc", "", "y"), "abc");
    assert_eq!(str_replace("", "a", "y"), "");
    assert_eq!(str_replace("{k}{k}", "{k}", "{k}{k}"), "{k}{k}{k}{k}");
    assert_eq!(str_replace("xay", "a", ""), "xy");
    assert_eq!(str_replace("abab", "ab", "ab"), "abab");
    assert_eq!(str_replace("мир миру", "мир", "peace"), "peace peaceу");
}

#[test]
fn texts_and_characters() {
    assert!(str_eq("", ""));
    assert!(str_eq("мир", "мир"));
    assert!(!str_eq("a", "b"));
    assert!(!str_eq("a", "ab"));
    assert!(!str_eq("é", "e\u{301}"));
    assert_eq!(to_chars("aé"), vec!['a', 'é']);
    assert_eq!(from_chars(&vec!['a', 'é']), "aé");
    assert_eq!(from_chars(&to_chars("привет")), "привет");
    assert_eq!(trim(" \t a b \n"), "a b");
    assert_eq!(trim("\u{a0}x\u{2003}"), "x");
}
