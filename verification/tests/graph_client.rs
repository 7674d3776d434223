use ews_skill::graph::{
    admin_consent_hint, auth_required_error, cached_token_step, contains_ci, device_code_expired,
    device_code_prompt, device_code_url, device_deadline, device_poll_step, is_well_known_folder_name,
    list_emails_url, list_folders_url, matches_filter, message_resource_url, message_to_cached_email,
    move_email_url, poll_interval, read_email_url, recipients_to_vec, refreshed_cache,
    requested_scopes, resolve_folder_among, resolve_folder_name, search_cache_folder,
    search_needs_eventual, search_url, send_mail_url, token_state, token_url, GraphAddress,
    GraphAuthConfig, GraphFolder, GraphItemBody, GraphMessage, GraphRecipient, GraphSearchOptions,
    LoginStep, SearchCollector, TokenCache, TokenResponse, TokenStep,
};
use ews_skill::models::CachedEmail;
use ews_skill::time::Timestamp;

fn ts(secs: i64) -> Timestamp {
    Timestamp { secs, nanos: 0 }
}

fn recipient(addr: Option<&str>) -> GraphRecipient {
    GraphRecipient {
        email_address: Some(GraphAddress { address: addr.map(|a| a.to_string()), name: Some("N".to_string()) }),
    }
}

fn message(content_type: Option<&str>, content: Option<&str>) -> GraphMessage {
    GraphMessage {
        id: "m1".to_string(),
        subject: Some("Quarterly".to_string()),
        is_read: Some(true),
        has_attachments: None,
        importance: None,
        received_date_time: Some("2024-01-02T03:04:05Z".to_string()),
        sent_date_time: Some("garbage".to_string()),
        body_preview: Some("preview".to_string()),
        body: Some(GraphItemBody {
            content_type: content_type.map(|c| c.to_string()),
            content: content.map(|c| c.to_string()),
        }),
        from: Some(recipient(Some("alice@x.com"))),
        to_recipients: Some(vec![recipient(Some("b@x.com")), GraphRecipient { email_address: None }, recipient(None)]),
        cc_recipients: None,
    }
}

fn options() -> GraphSearchOptions {
    GraphSearchOptions {
        query: None,
        subject: None,
        sender: None,
        date_from: None,
        date_to: None,
        folder_name: None,
        limit: 50,
        include_body: true,
    }
}

fn cached(subject: &str, sender: &str, received: Option<i64>) -> CachedEmail {
    CachedEmail {
        id: "1".to_string(),
        change_key: None,
        folder_id: "inbox".to_string(),
        subject: subject.to_string(),
        sender_name: "Alice".to_string(),
        sender_email: sender.to_string(),
        to_recipients: Vec::new(),
        cc_recipients: Vec::new(),
        body_text: String::new(),
        body_html: None,
        has_attachments: false,
        is_read: false,
        importance: "normal".to_string(),
        datetime_received: received.map(ts),
        datetime_sent: None,
        cached_at: ts(0),
    }
}

#[test]
fn token_state_reports_the_reason() {
    assert_eq!(token_state(Ok("t".to_string())), (true, None));
    assert_eq!(token_state(Err("expired".to_string())), (false, Some("expired".to_string())));
}

#[test]
fn scopes_default_when_blank() {
    let d = "offline_access User.Read Mail.Read Mail.ReadWrite Mail.Send";
    assert_eq!(requested_scopes(None), d);
    assert_eq!(requested_scopes(Some("   ".to_string())), d);
    assert_eq!(requested_scopes(Some(" Mail.Read ".to_string())), "Mail.Read");
}

#[test]
fn well_known_names_and_case_insensitive_contains() {
    assert!(is_well_known_folder_name("inbox"));
    assert!(is_well_known_folder_name("recoverableitemsdeletions"));
    assert!(!is_well_known_folder_name("Inbox"));
    assert!(contains_ci("Hello WORLD", "world"));
    assert!(contains_ci("ÄBC", "äb"));
    assert!(!contains_ci("abc", "abd"));
}

#[test]
fn recipients_keep_only_addresses() {
    assert_eq!(
        recipients_to_vec(Some(vec![recipient(Some("a@x")), GraphRecipient { email_address: None }, recipient(Some("b@x"))])),
        vec!["a@x".to_string(), "b@x".to_string()]
    );
    assert!(recipients_to_vec(None).is_empty());
}

#[test]
fn graph_urls_are_built() {
    assert_eq!(list_folders_url(), "https://graph.microsoft.com/v1.0/me/mailFolders?$top=100");
    assert_eq!(
        list_emails_url("inbox", 500, true),
        "https://graph.microsoft.com/v1.0/me/mailFolders/inbox/messages?$top=200&$orderby=receivedDateTime%20desc&$filter=isRead%20eq%20false"
    );
    assert_eq!(
        list_emails_url("f", 0, false),
        "https://graph.microsoft.com/v1.0/me/mailFolders/f/messages?$top=1&$orderby=receivedDateTime%20desc"
    );
    assert!(read_email_url("id1").starts_with("https://graph.microsoft.com/v1.0/me/messages/id1?$select=id,subject,"));
    assert_eq!(message_resource_url("id1"), "https://graph.microsoft.com/v1.0/me/messages/id1");
    assert_eq!(move_email_url("id1"), "https://graph.microsoft.com/v1.0/me/messages/id1/move");
    assert_eq!(send_mail_url(), "https://graph.microsoft.com/v1.0/me/sendMail");
    assert_eq!(auth_required_error("no token"), "graph auth required: no token. run `ews_skillctl login`");
    assert_eq!(device_code_url("t"), "https://login.microsoftonline.com/t/oauth2/v2.0/devicecode");
    assert_eq!(token_url("t"), "https://login.microsoftonline.com/t/oauth2/v2.0/token");
    assert_eq!(
        admin_consent_hint("t", "c"),
        "If admin consent is required, ask an admin to grant access here: https://login.microsoftonline.com/t/adminconsent?client_id=c"
    );
}

#[test]
fn search_urls_drop_quotes_from_queries() {
    assert_eq!(
        search_url(&None, &Some("say \"hi\"".to_string())),
        "https://graph.microsoft.com/v1.0/me/messages?$top=200&$search=\"say hi\""
    );
    assert_eq!(
        search_url(&Some("f1".to_string()), &Some("  ".to_string())),
        "https://graph.microsoft.com/v1.0/me/mailFolders/f1/messages?$top=200&$orderby=receivedDateTime%20desc"
    );
    assert!(search_needs_eventual(&Some("q".to_string())));
    assert!(!search_needs_eventual(&Some(" ".to_string())));
    assert_eq!(search_cache_folder(&None), "inbox");
}

#[test]
fn search_filters_apply_locally() {
    let mut o = options();
    o.subject = Some("REPORT".to_string());
    assert!(matches_filter(&cached("Weekly report", "a@x", Some(5)), &o));
    assert!(!matches_filter(&cached("Weekly notes", "a@x", Some(5)), &o));
    let mut o = options();
    o.sender = Some("alice".to_string());
    assert!(matches_filter(&cached("s", "zz@x", Some(5)), &o));
    let mut o = options();
    o.query = Some("budget".to_string());
    o.include_body = false;
    assert!(!matches_filter(&cached("s", "a@x", Some(5)), &o));
    o.include_body = true;
    assert!(matches_filter(&cached("s", "a@x", Some(5)), &o));
    let mut o = options();
    o.date_from = Some(ts(10));
    o.date_to = Some(ts(20));
    assert!(matches_filter(&cached("s", "a", Some(10)), &o));
    assert!(matches_filter(&cached("s", "a", Some(20)), &o));
    assert!(!matches_filter(&cached("s", "a", Some(9)), &o));
    assert!(!matches_filter(&cached("s", "a", Some(21)), &o));
    assert!(!matches_filter(&cached("s", "a", None), &o));
}

#[test]
fn search_collector_stops_at_its_limit() {
    let mut c = SearchCollector::new(2);
    let o = options();
    assert!(!c.offer(cached("a", "x", None), &o));
    assert!(c.offer(cached("b", "x", None), &o));
    assert_eq!(c.found.len(), 2);
    assert_eq!(SearchCollector::new(0).limit, 1);
    assert_eq!(SearchCollector::new(1000).limit, 200);
    let mut f = SearchCollector::new(5);
    let mut strict = options();
    strict.subject = Some("zzz".to_string());
    assert!(!f.offer(cached("a", "x", None), &strict));
    assert!(f.found.is_empty());
}

#[test]
fn folder_names_resolve() {
    assert_eq!(resolve_folder_name("  Inbox ").unwrap(), Some("inbox".to_string()));
    assert_eq!(resolve_folder_name("  ").unwrap_err(), "folder name cannot be empty");
    assert_eq!(resolve_folder_name("Projects").unwrap(), None);
    let folders = vec![
        GraphFolder { id: "ID1".to_string(), display_name: "Projects".to_string(), unread_count: 0, total_count: 0 },
        GraphFolder { id: "ID2".to_string(), display_name: "Other".to_string(), unread_count: 0, total_count: 0 },
    ];
    assert_eq!(resolve_folder_among(&folders, "projects"), "ID1");
    assert_eq!(resolve_folder_among(&folders, "id2"), "ID2");
    assert_eq!(resolve_folder_among(&folders, "Unknown"), "Unknown");
}

#[test]
fn graph_messages_become_cached_emails() {
    let e = message_to_cached_email(message(Some("HTML"), Some("<p>x</p>")), "inbox", ts(7));
    assert_eq!(e.id, "m1");
    assert_eq!(e.subject, "Quarterly");
    assert_eq!(e.sender_email, "alice@x.com");
    assert_eq!(e.sender_name, "N");
    assert_eq!(e.to_recipients, vec!["b@x.com".to_string()]);
    assert!(e.cc_recipients.is_empty());
    assert_eq!(e.body_text, "preview");
    assert_eq!(e.body_html.as_deref(), Some("<p>x</p>"));
    assert_eq!(e.importance, "normal");
    assert!(e.is_read && !e.has_attachments);
    assert_eq!(e.datetime_received.unwrap().secs, 1704164645);
    assert!(e.datetime_sent.is_none());
    assert_eq!(e.cached_at.secs, 7);
    let t = message_to_cached_email(message(Some("text"), Some("plain")), "f", ts(0));
    assert_eq!(t.body_text, "plain");
    assert!(t.body_html.is_none());
    let n = message_to_cached_email(message(None, None), "f", ts(0));
    assert_eq!(n.body_text, "preview");
}

#[test]
fn cached_tokens_are_used_refreshed_or_refused() {
    let cache = |exp: i64, refresh: &str| TokenCache {
        access_token: "acc".to_string(),
        refresh_token: refresh.to_string(),
        expires_at: ts(exp),
    };
    assert!(matches!(cached_token_step(&None, ts(0)), TokenStep::Fail(m) if m == "graph delegated token not found"));
    assert!(matches!(cached_token_step(&Some(cache(1000, "r")), ts(100)), TokenStep::Use(t) if t == "acc"));
    assert!(matches!(cached_token_step(&Some(cache(190, "r")), ts(100)), TokenStep::Refresh(t) if t == "r"));
    assert!(matches!(
        cached_token_step(&Some(cache(100, " ")), ts(100)),
        TokenStep::Fail(m) if m == "graph delegated token expired and no refresh token available"
    ));
    let ok = refreshed_cache(
        cache(0, "old"),
        TokenResponse { access_token: Some("new".to_string()), refresh_token: None, expires_in: Some(10), error: None, error_description: None },
        ts(1000),
    )
    .unwrap();
    assert_eq!(ok.access_token, "new");
    assert_eq!(ok.refresh_token, "old");
    assert_eq!(ok.expires_at.secs, 1060);
    let err = refreshed_cache(
        cache(0, "old"),
        TokenResponse { access_token: None, refresh_token: None, expires_in: None, error: None, error_description: None },
        ts(0),
    );
    assert_eq!(err.unwrap_err(), "graph token refresh failed: unknown_error ()");
}

#[test]
fn device_login_polls_until_an_answer() {
    let cfg = GraphAuthConfig { tenant_id: "t".to_string(), client_id: "c".to_string() };
    let resp = |err: Option<&str>, desc: Option<&str>| TokenResponse {
        access_token: None,
        refresh_token: None,
        expires_in: None,
        error: err.map(|e| e.to_string()),
        error_description: desc.map(|d| d.to_string()),
    };
    assert!(matches!(device_poll_step(&cfg, resp(Some("authorization_pending"), None), 5, ts(0)), LoginStep::Wait(5)));
    assert!(matches!(device_poll_step(&cfg, resp(Some("slow_down"), None), 5, ts(0)), LoginStep::Wait(8)));
    match device_poll_step(&cfg, resp(Some("invalid_grant"), Some("Need ADMIN approval")), 5, ts(0)) {
        LoginStep::Fail(m) => assert_eq!(
            m,
            "admin consent required: Need ADMIN approval. Admin grant URL: https://login.microsoftonline.com/t/adminconsent?client_id=c"
        ),
        other => panic!("unexpected {:?}", other),
    }
    match device_poll_step(&cfg, resp(Some("expired_token"), None), 5, ts(0)) {
        LoginStep::Fail(m) => assert_eq!(m, "device login failed: expired_token ()"),
        other => panic!("unexpected {:?}", other),
    }
    assert!(matches!(
        device_poll_step(&cfg, resp(None, None), 5, ts(0)),
        LoginStep::Fail(m) if m == "device login failed: unknown token response"
    ));
    let done = TokenResponse {
        access_token: Some("a".to_string()),
        refresh_token: None,
        expires_in: Some(3600),
        error: None,
        error_description: None,
    };
    match device_poll_step(&cfg, done, 5, ts(100)) {
        LoginStep::Done(c) => {
            assert_eq!(c.access_token, "a");
            assert_eq!(c.refresh_token, "");
            assert_eq!(c.expires_at.secs, 3700);
        }
        other => panic!("unexpected {:?}", other),
    }
    assert_eq!(poll_interval(None), 5);
    assert_eq!(poll_interval(Some(1)), 2);
    assert_eq!(device_deadline(ts(100), 10).secs, 160);
    assert!(device_code_expired(ts(160), ts(160)));
    assert!(!device_code_expired(ts(159), ts(160)));
    assert_eq!(device_code_prompt(&None, "https://aka.ms/devicelogin", "ABC"), "Open https://aka.ms/devicelogin and enter code ABC");
    assert_eq!(device_code_prompt(&Some("msg".to_string()), "u", "c"), "msg");
}
