use ews_skill::cache::{
    account_scope_action, build_search_query, email_id_candidates, ids_not_in, is_storable_id,
    list_emails_sql, preserve_existing_body, ScopeAction, SqlParam,
};
use ews_skill::models::CachedEmail;
use ews_skill::time::Timestamp;

#[test]
fn email_id_candidates_include_trimmed_and_unwrapped() {
    let ids = email_id_candidates("  \"AAMkABC==\"  ");
    assert!(ids.iter().any(|v| v == "\"AAMkABC==\""));
    assert!(ids.iter().any(|v| v == "AAMkABC=="));
}

#[test]
fn email_id_candidates_handle_plus_as_space() {
    let ids = email_id_candidates("AAMkA C+DE=");
    assert!(ids.iter().any(|v| v == "AAMkA+C+DE="));
}

#[test]
fn email_id_candidates_are_distinct_and_start_with_request() {
    let ids = email_id_candidates("abc");
    assert_eq!(ids, vec!["abc".to_string()]);
    let ids = email_id_candidates(" <x y> ");
    assert_eq!(ids[0], " <x y> ");
    for (i, a) in ids.iter().enumerate() {
        assert!(!a.is_empty());
        for b in ids.iter().skip(i + 1) {
            assert_ne!(a, b);
        }
    }
    assert!(email_id_candidates("").is_empty());
}

fn email(id: &str, text: &str, html: Option<&str>) -> CachedEmail {
    CachedEmail {
        id: id.to_string(),
        change_key: None,
        folder_id: "inbox".to_string(),
        subject: "s".to_string(),
        sender_name: String::new(),
        sender_email: String::new(),
        to_recipients: Vec::new(),
        cc_recipients: Vec::new(),
        body_text: text.to_string(),
        body_html: html.map(|h| h.to_string()),
        has_attachments: false,
        is_read: false,
        importance: "Normal".to_string(),
        datetime_received: None,
        datetime_sent: None,
        cached_at: Timestamp { secs: 0, nanos: 0 },
    }
}

#[test]
fn saving_a_bodiless_email_keeps_the_cached_body() {
    let kept = preserve_existing_body(email("1", " ", None), Some(email("1", "old", Some("<p>old</p>"))));
    assert_eq!(kept.body_text, "old");
    assert_eq!(kept.body_html.as_deref(), Some("<p>old</p>"));
    let replaced = preserve_existing_body(email("1", "new", None), Some(email("1", "old", None)));
    assert_eq!(replaced.body_text, "new");
    let nothing = preserve_existing_body(email("1", "", None), None);
    assert_eq!(nothing.body_text, "");
}

#[test]
fn account_change_clears_the_cache() {
    assert!(matches!(account_scope_action("  ", Some("a@x".to_string())), ScopeAction::Skip));
    assert!(matches!(account_scope_action("a@x", None), ScopeAction::Record));
    assert!(matches!(account_scope_action("a@x", Some("a@x".to_string())), ScopeAction::Record));
    assert!(matches!(
        account_scope_action("b@x", Some("a@x".to_string())),
        ScopeAction::ClearThenRecord
    ));
}

#[test]
fn search_query_binds_filters_in_order() {
    let (sql, params) = build_search_query(
        Some("qbr"),
        Some("  "),
        Some("alice"),
        None,
        Some("2026-03-06T00:00:00Z"),
        Some("inbox-id"),
        0,
        false,
    );
    assert!(sql.contains(" AND folder_id = ?"));
    assert!(!sql.contains(" AND LOWER(subject)"));
    assert!(sql.ends_with(" ORDER BY datetime_received DESC LIMIT ?"));
    let texts: Vec<String> = params
        .iter()
        .filter_map(|p| match p {
            SqlParam::Text(t) => Some(t.clone()),
            _ => None,
        })
        .collect();
    assert_eq!(
        texts,
        vec![
            "inbox-id".to_string(),
            "%alice%".to_string(),
            "%alice%".to_string(),
            "%qbr%".to_string(),
            "%qbr%".to_string(),
            "%qbr%".to_string(),
            "2026-03-06T00:00:00Z".to_string(),
        ]
    );
    assert!(matches!(params.last(), Some(SqlParam::Int(1))));
}

#[test]
fn listing_sql_filters_unread_only_when_asked() {
    assert!(list_emails_sql(true).contains("AND is_read = 0"));
    assert!(!list_emails_sql(false).contains("is_read = 0"));
}

#[test]
fn reconciliation_drops_only_unlisted_rows() {
    let existing = vec!["a".to_string(), "b".to_string(), "c".to_string()];
    let keep = vec!["b".to_string()];
    assert_eq!(ids_not_in(&existing, &keep), vec!["a".to_string(), "c".to_string()]);
    assert!(is_storable_id("x"));
    assert!(!is_storable_id("   "));
}
