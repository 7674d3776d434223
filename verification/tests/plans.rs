use ews_skill::backend::{
    graph_folder_synced, graph_read_step, plan_graph_sync, select_enrolled, GraphReadStep,
};
use ews_skill::cache::save_plan;
use ews_skill::config::{Config, ConfigError};
use ews_skill::graph::{delete_plan, folder_resource_url, graph_account_scope, GraphDelete};
use ews_skill::html::normalize_whitespace;
use ews_skill::models::{CachedEmail, CachedFolder};
use ews_skill::sync::{mark_read_plan, move_plan};
use ews_skill::time::Timestamp;

fn folder(id: &str, name: &str) -> CachedFolder {
    CachedFolder {
        id: id.to_string(),
        change_key: None,
        parent_id: None,
        display_name: name.to_string(),
        unread_count: 0,
        total_count: 0,
        synced_at: Timestamp { secs: 0, nanos: 0 },
    }
}

fn email(id: &str, text: &str) -> CachedEmail {
    CachedEmail {
        id: id.to_string(),
        change_key: Some("ck".to_string()),
        folder_id: "inbox".to_string(),
        subject: "subject".to_string(),
        sender_name: "Ann".to_string(),
        sender_email: "ann@x".to_string(),
        to_recipients: vec!["bob@x".to_string()],
        cc_recipients: Vec::new(),
        body_text: text.to_string(),
        body_html: None,
        has_attachments: true,
        is_read: false,
        importance: "High".to_string(),
        datetime_received: Some(Timestamp { secs: 10, nanos: 0 }),
        datetime_sent: None,
        cached_at: Timestamp { secs: 20, nanos: 0 },
    }
}

#[test]
fn enrolled_folders_are_selected_in_order_with_their_first_name() {
    let r = select_enrolled(vec![folder("B", "Sent"), folder("A", "Inbox"), folder("B", "Again")]);
    let picked: Vec<(&str, &str)> =
        r.selected.iter().map(|f| (f.spec.as_str(), f.folder_id.as_str())).collect();
    assert_eq!(picked, vec![("Sent", "B"), ("Inbox", "A")]);
}

#[test]
fn sync_runs_cover_configured_and_enrolled_folders() {
    let resolved = vec![
        ("inbox".to_string(), Ok("I".to_string())),
        ("missing".to_string(), Err("not found".to_string())),
        ("Inbox".to_string(), Ok("I".to_string())),
        ("missing".to_string(), Err("again".to_string())),
    ];
    let r = plan_graph_sync(&resolved, &vec![folder("A", "archive"), folder("I", "Inbox cached")]);
    let picked: Vec<(&str, &str)> =
        r.selected.iter().map(|f| (f.spec.as_str(), f.folder_id.as_str())).collect();
    assert_eq!(picked, vec![("inbox", "I"), ("archive", "A")]);
    assert_eq!(r.errors, vec!["missing: not found".to_string(), "missing: again".to_string()]);
    assert_eq!(r.failed_specs, vec!["missing".to_string()]);
    assert_eq!(r.message(), "Sync completed with errors");
    let only_cached = plan_graph_sync(&Vec::new(), &vec![folder("A", "archive")]);
    assert_eq!(only_cached.selected.len(), 1);
    assert_eq!(only_cached.message(), "Sync completed");
    let state = graph_folder_synced("A".to_string(), Timestamp { secs: 5, nanos: 1 });
    assert_eq!(state.sync_state, "graph_latest");
    assert_eq!(state.folder_id, "A");
    assert_eq!(state.last_sync_at, Timestamp { secs: 5, nanos: 1 });
}

#[test]
fn graph_reads_go_to_the_cache_first() {
    assert_eq!(graph_read_step(Some(3)), GraphReadStep::FromCache);
    assert_eq!(graph_read_step(Some(0)), GraphReadStep::FromServer);
    assert_eq!(graph_read_step(None), GraphReadStep::FromServer);
}

#[test]
fn graph_deletes_move_to_trash_unless_skipped() {
    match delete_plan("m1", false) {
        GraphDelete::MoveTo(f) => assert_eq!(f, "deleteditems"),
        other => panic!("unexpected {:?}", other),
    }
    match delete_plan("m1", true) {
        GraphDelete::Remove(u) => assert_eq!(u, "https://graph.microsoft.com/v1.0/me/messages/m1"),
        other => panic!("unexpected {:?}", other),
    }
    assert_eq!(folder_resource_url("F"), "https://graph.microsoft.com/v1.0/me/mailFolders/F");
    assert_eq!(graph_account_scope("t", "c"), "graph:t:c");
}

#[test]
fn cache_changes_are_undone_on_refusal() {
    let m = mark_read_plan(true);
    assert!(m.apply && !m.undo);
    let ok = move_plan("e1", "Archive", Some("ARCH".to_string()), Some("INBOX".to_string())).unwrap();
    assert_eq!((ok.apply.as_str(), ok.undo.as_str()), ("ARCH", "INBOX"));
    assert_eq!(
        move_plan("e1", "Archive", None, Some("INBOX".to_string())).unwrap_err(),
        "Folder not found: Archive"
    );
    assert_eq!(
        move_plan("e1", "Archive", Some("ARCH".to_string()), None).unwrap_err(),
        "Email not found: e1"
    );
}

#[test]
fn saving_keeps_fields_and_a_cached_body() {
    assert!(save_plan(email("  ", "x"), None).is_none());
    let fresh = save_plan(email("1", "new"), Some(email("1", "old"))).unwrap();
    assert_eq!(format!("{:?}", fresh), format!("{:?}", email("1", "new")));
    let kept = save_plan(email("1", " "), Some(email("1", "old"))).unwrap();
    assert_eq!(kept.body_text, "old");
    assert_eq!(kept.subject, "subject");
    assert_eq!(kept.to_recipients, vec!["bob@x".to_string()]);
    assert_eq!(kept.cached_at, Timestamp { secs: 20, nanos: 0 });
}

#[test]
fn squeezed_whitespace_is_canonical_and_stable() {
    let r = normalize_whitespace("  a \t b\n\n  c \u{a0}\n d  ");
    assert_eq!(r, "a b\nc \nd");
    assert_eq!(r, r.trim());
    assert!(!r.contains("  ") && !r.contains("\n\n") && !r.contains("\n "));
    assert_eq!(normalize_whitespace(&r), r);
    let strip = |s: &str| s.chars().filter(|c| !c.is_whitespace()).collect::<String>();
    assert_eq!(strip(&r), strip("  a \t b\n\n  c \u{a0}\n d  "));
}

#[test]
fn ews_configuration_names_the_missing_field() {
    let mut c = Config::default_with_cache_path("/tmp/c.db".to_string());
    match c.checked() {
        Err(ConfigError::MissingField(f)) => assert_eq!(f, "username or email"),
        other => panic!("unexpected {:?}", other.is_ok()),
    }
    c = Config::default_with_cache_path("/tmp/c.db".to_string());
    c.exchange.email = "u@x".to_string();
    match c.checked() {
        Err(ConfigError::MissingField(f)) => assert_eq!(f, "password"),
        other => panic!("unexpected {:?}", other.is_ok()),
    }
}
