use ews_skill::config::{parse_folder_list, parse_truthy, Config, EnvValues, ExchangeConfig};
use ews_skill::service::{health_status, listing_plan, search_plan, EmailListOptions, EmailSearchOptions, FolderChoice};
use ews_skill::soap::{
    autodiscover_request_body, delete_item_request, find_item_request, get_folder_request,
    mark_read_request, sync_folder_items_request,
};

#[test]
fn listing_and_search_plans() {
    let (choice, limit, unread) = listing_plan(EmailListOptions {
        folder_id: Some("id".to_string()),
        folder_name: Some("Inbox".to_string()),
        limit: None,
        unread_only: None,
    });
    assert!(matches!(choice, FolderChoice::ByName(n) if n == "Inbox"));
    assert_eq!((limit, unread), (50, false));
    let (choice, _, _) = listing_plan(EmailListOptions { folder_id: None, folder_name: None, limit: Some(1), unread_only: Some(true) });
    assert!(matches!(choice, FolderChoice::Nothing));
    let opts = EmailSearchOptions {
        query: None, subject: None, sender: None, date_from: None, date_to: None, folder_name: None,
        limit: Some(0), include_body: None,
    };
    assert_eq!(search_plan(&opts), (1, true));
}

#[test]
fn health_reports_status_and_progress() {
    let h = health_status("u".to_string(), true, true, 3, 10, 2, 3, true, None);
    assert_eq!(h.status, "syncing");
    assert_eq!(h.progress, "2/3 folders");
    assert_eq!(health_status("u".to_string(), false, false, 0, 0, 0, 0, false, None).status, "auth_required");
    assert_eq!(health_status("u".to_string(), true, false, 0, 0, 0, 0, false, None).status, "ready");
}

#[test]
fn folder_lists_and_truthy_values() {
    assert_eq!(parse_folder_list(" inbox, ,sentitems ,"), vec!["inbox".to_string(), "sentitems".to_string()]);
    assert!(parse_truthy("true"));
    assert!(parse_truthy("1"));
    assert!(!parse_truthy("no"));
}

#[test]
fn exchange_config_validation() {
    let mut c = ExchangeConfig::default_values();
    assert!(c.validate().is_err());
    c.username = "u".to_string();
    c.password = "p".to_string();
    c.email = "u@x".to_string();
    assert!(c.validate().is_ok());
}

#[test]
fn config_from_environment() {
    let env = EnvValues {
        ews_username: Some("u".to_string()),
        ews_password: Some("p".to_string()),
        ews_email: Some("u@x".to_string()),
        ews_url: None,
        ews_autodiscover: None,
        ews_auth_mode: None,
        ews_retry_max_attempts: Some("3".to_string()),
        ews_retry_base_ms: None,
        ews_retry_max_backoff_ms: None,
        ews_sync_folders: Some("inbox,archive".to_string()),
        ews_sync_interval_seconds: None,
        ews_sync_lookback_days: None,
        mail_protocol: None,
        graph_tenant_id: None,
        graph_client_id: None,
    };
    let c: Config = Config::from_env_values(&env, "/tmp/c.db".to_string()).unwrap();
    assert_eq!(c.exchange.retry_max_attempts, 3);
    assert_eq!(c.sync.folders, vec!["inbox".to_string(), "archive".to_string()]);
    assert_eq!(c.cache.path, "/tmp/c.db");
}

#[test]
fn soap_requests_carry_escaped_values() {
    let g = get_folder_request("a&b");
    assert!(g.contains("<t:FolderId Id=\"a&amp;b\"/>"));
    assert!(g.starts_with("<?xml version=\"1.0\" encoding=\"utf-8\"?>"));
    assert!(g.ends_with("</soap:Envelope>"));
    let f = find_item_request("inbox", "", 10);
    assert!(!f.contains("QueryString"));
    assert!(f.contains("<MaxItemsReturned>10</MaxItemsReturned>"));
    let q = find_item_request("inbox", "a<b", -1);
    assert!(q.contains("<t:QueryString>a&lt;b</t:QueryString>"));
    assert!(q.contains("<MaxItemsReturned>-1</MaxItemsReturned>"));
    assert!(mark_read_request("i", true).contains("<t:IsRead>true</t:IsRead>"));
    assert!(delete_item_request("i", true).contains("DeleteType=\"SoftDelete\""));
    assert!(delete_item_request("i", false).contains("DeleteType=\"MoveToDeletedItems\""));
    let s = sync_folder_items_request("f", &Some("st".to_string()), 512);
    assert!(s.contains("<t:SyncState>st</t:SyncState>"));
    assert!(s.contains("<MaxChangesReturned>512</MaxChangesReturned>"));
    assert!(!sync_folder_items_request("f", &None, 512).contains("SyncState"));
    assert!(autodiscover_request_body("a@x").contains("<EMailAddress>a@x</EMailAddress>"));
}
