use ews_skill::backend::{
    cache_folder_match, cache_folder_spec, effective_search_limit, graph_auth_ready,
    graph_health_summary, graph_poll_interval_seconds, graph_search_options,
    graph_sync_max_per_folder, listing_request, select_enrolled, GraphSyncReport,
};
use ews_skill::models::CachedFolder;
use ews_skill::time::Timestamp;

fn folder(id: &str, name: &str) -> CachedFolder {
    CachedFolder {
        id: id.to_string(),
        change_key: None,
        parent_id: None,
        display_name: name.to_string(),
        unread_count: 0,
        total_count: 0,
        synced_at: Timestamp { secs: 0, nanos: 0 },
    }
}

#[test]
fn graph_polling_is_off_at_zero_interval() {
    assert_eq!(graph_poll_interval_seconds(true, 0), None);
    assert_eq!(graph_poll_interval_seconds(true, 30), Some(30));
    assert_eq!(graph_poll_interval_seconds(false, 30), None);
    assert!(graph_auth_ready(true, Some((true, None))));
    assert!(!graph_auth_ready(true, Some((false, Some("x".to_string())))));
    assert!(!graph_auth_ready(false, Some((true, None))));
    assert!(!graph_auth_ready(true, None));
}

#[test]
fn per_folder_cap_defaults_to_two_hundred() {
    assert_eq!(graph_sync_max_per_folder(None), 200);
    assert_eq!(graph_sync_max_per_folder(Some("50".to_string())), 50);
    assert_eq!(graph_sync_max_per_folder(Some("500".to_string())), 200);
    assert_eq!(graph_sync_max_per_folder(Some("0".to_string())), 1);
    assert_eq!(graph_sync_max_per_folder(Some("-7".to_string())), 1);
    assert_eq!(graph_sync_max_per_folder(Some("abc".to_string())), 200);
    assert_eq!(graph_sync_max_per_folder(Some(" 50".to_string())), 200);
}

#[test]
fn listing_defaults() {
    assert_eq!(listing_request(None, None, None, 50), ("inbox".to_string(), 50, false));
    assert_eq!(listing_request(Some("x".to_string()), Some(3), Some(true), 20), ("x".to_string(), 3, true));
    assert_eq!(effective_search_limit(None), 50);
    assert_eq!(effective_search_limit(Some(999)), 200);
    assert_eq!(effective_search_limit(Some(-1)), 1);
}

#[test]
fn cached_folders_match_by_id_or_name() {
    assert_eq!(cache_folder_spec("  "), None);
    assert_eq!(cache_folder_spec(" Inbox "), Some("Inbox".to_string()));
    let folders = vec![folder("AAA", "Inbox"), folder("BBB", "Projects")];
    assert_eq!(cache_folder_match(&folders, "projects"), Some("BBB".to_string()));
    assert_eq!(cache_folder_match(&folders, "aaa"), Some("AAA".to_string()));
    assert_eq!(cache_folder_match(&folders, "nothing"), None);
}

#[test]
fn graph_searches_need_a_filter_and_valid_dates() {
    let none = graph_search_options(None, None, None, None, None, None, None, None);
    assert_eq!(
        none.unwrap_err(),
        "at least one search filter is required (query, subject, sender, date_from, date_to, folder_name)"
    );
    let blank = graph_search_options(Some(" ".to_string()), None, None, None, None, None, None, None);
    assert!(blank.is_err());
    let bad = graph_search_options(None, None, None, Some("yesterday".to_string()), None, None, None, None);
    assert!(bad.unwrap_err().starts_with("invalid date_from: "));
    let ok = graph_search_options(
        Some("q".to_string()),
        None,
        None,
        Some("2026-03-05T00:00:00Z".to_string()),
        None,
        None,
        Some(500),
        None,
    )
    .unwrap();
    assert_eq!(ok.limit, 200);
    assert!(ok.include_body);
    assert_eq!(ok.date_from.unwrap().secs, 1772668800);
}

#[test]
fn sync_reports_count_folders_and_failures() {
    let mut r = GraphSyncReport::new();
    assert!(r.select("inbox".to_string(), "F1".to_string()));
    assert!(!r.select("Inbox".to_string(), "F1".to_string()));
    r.fail("Archive", "not found");
    r.fail("Archive", "again");
    assert_eq!(r.errors, vec!["Archive: not found".to_string(), "Archive: again".to_string()]);
    assert_eq!(r.failed_specs, vec!["Archive".to_string()]);
    r.synced(3);
    assert_eq!((r.folders_synced, r.emails_synced), (1, 3));
    assert_eq!(r.message(), "Sync completed with errors");
    assert_eq!(GraphSyncReport::new().message(), "Sync completed");
    let e = select_enrolled(vec![folder("A", "Inbox"), folder("B", "Sent"), folder("A", "Dup")]);
    let specs: Vec<&str> = e.selected.iter().map(|f| f.spec.as_str()).collect();
    assert_eq!(specs, vec!["Inbox", "Sent"]);
}

#[test]
fn graph_health_shows_progress() {
    assert_eq!(graph_health_summary(true, 1, 3), ("ready".to_string(), "1/3 folders".to_string()));
    assert_eq!(graph_health_summary(false, 0, 0), ("auth_required".to_string(), "0/0 folders".to_string()));
}
