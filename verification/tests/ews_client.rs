use ews_skill::ews::{
    authorization_header, autodiscover_candidates, autodiscover_domain, autodiscover_failure,
    autodiscover_outcome, backoff_delay, basic_token, check_soap_response, created_item_id,
    debug_response_excerpt, distinguished_folder_id_from_spec, escape_xml,
    extract_ews_url_from_autodiscover, extract_fault_string, extract_redirect_url_from_autodiscover,
    first_item, is_retryable_error, is_retryable_http_status, moved_item_id, normalize_ews_url,
    normalized_auth_mode, request_auth_header, retry_attempts, retry_delay, starting_ews_url,
    www_authenticate_value, xml_indicates_success, EwsClientOptions, EwsCredentials, EwsError,
};
use ews_skill::ews_types::{
    Email, GetItemResponse, GetItemResponseMessage, GetItemResponseMessages, ItemId,
    ItemsResponse, MoveItemResponse, MoveItemResponseMessage, MoveItemResponseMessages, MovedItems,
};
use ews_skill::xml::find_folder_in_xml;

fn creds(mode: &str) -> EwsCredentials {
    EwsCredentials {
        username: "user".to_string(),
        password: "pass".to_string(),
        email: "user@example.com".to_string(),
        auth_mode: mode.to_string(),
    }
}

#[test]
fn escape_xml_escapes_markup_characters() {
    assert_eq!(escape_xml("a<b & 'c'\">"), "a&lt;b &amp; &apos;c&apos;&quot;&gt;");
    let e = escape_xml("<tag attr=\"x\">'</tag>");
    assert!(!e.contains('<') && !e.contains('>') && !e.contains('"') && !e.contains('\''));
}

#[test]
fn fault_string_is_read_or_defaulted() {
    assert_eq!(
        extract_fault_string("<soap:Fault><faultcode>x</faultcode><faultstring>Bad id</faultstring></soap:Fault>"),
        "Bad id"
    );
    assert_eq!(extract_fault_string("<soap:Fault></soap:Fault>"), "Unknown fault");
    assert_eq!(extract_fault_string("<faultstring>open"), "Unknown fault");
}

#[test]
fn retryable_statuses_and_errors() {
    for s in [408u16, 429, 500, 502, 503, 504] {
        assert!(is_retryable_http_status(s));
    }
    assert!(!is_retryable_http_status(404));
    assert!(is_retryable_error(&EwsError::HttpError("Connection TIMED OUT".to_string())));
    assert!(is_retryable_error(&EwsError::HttpError("dns error".to_string())));
    assert!(!is_retryable_error(&EwsError::HttpError("bad request".to_string())));
    assert!(!is_retryable_error(&EwsError::SoapError("timeout".to_string())));
}

#[test]
fn backoff_doubles_caps_and_adds_jitter() {
    assert_eq!(backoff_delay(1, 500, 10_000), 637);
    assert_eq!(backoff_delay(3, 500, 10_000), 2160);
    assert_eq!(backoff_delay(20, 500, 10_000), 10_230);
    assert_eq!(backoff_delay(0, 500, 10_000), 500);
    assert_eq!(backoff_delay(2, u64::MAX, u64::MAX), u64::MAX);
    for a in 0..40u32 {
        assert!(backoff_delay(a, 700, 3_000) <= 3_250);
    }
}

#[test]
fn retry_gives_up_on_last_attempt() {
    let options = EwsClientOptions::default();
    assert_eq!(retry_attempts(&options), 5);
    assert_eq!(retry_attempts(&EwsClientOptions { retry_max_attempts: 0, ..options }), 1);
    assert_eq!(retry_delay(1, 3, &Ok(503), &options), Some(637));
    assert_eq!(retry_delay(3, 3, &Ok(503), &options), None);
    assert_eq!(retry_delay(1, 3, &Ok(404), &options), None);
    assert_eq!(
        retry_delay(2, 3, &Err(EwsError::HttpError("connection reset".to_string())), &options),
        Some(1023)
    );
}

#[test]
fn success_is_recognized_in_both_quote_styles() {
    assert!(xml_indicates_success("<m ResponseClass=\"Success\"><ResponseCode>NoError</ResponseCode>"));
    assert!(xml_indicates_success("<m ResponseClass='Success'>NoError"));
    assert!(!xml_indicates_success("<m ResponseClass=\"Error\">NoError"));
    assert!(!xml_indicates_success("<m ResponseClass=\"Success\">"));
}

#[test]
fn excerpt_starts_at_response_messages() {
    assert_eq!(
        debug_response_excerpt("CreateItem", "xx<ResponseMessages>yy"),
        "CreateItem response excerpt: ResponseMessages>yy"
    );
    assert_eq!(debug_response_excerpt("Op", "abc"), "Op response excerpt: abc");
    assert_eq!(
        debug_response_excerpt("Op", "\u{e9}\u{e9}xResponseMessages!"),
        "Op response excerpt: sponseMessages!"
    );
    let long = "z".repeat(2000);
    assert_eq!(debug_response_excerpt("Op", &long).len(), "Op response excerpt: ".len() + 1400);
}

#[test]
fn distinguished_folder_names_resolve_and_are_stable() {
    assert_eq!(distinguished_folder_id_from_spec(" Sent Items "), Some("sentitems"));
    assert_eq!(distinguished_folder_id_from_spec("TRASH"), Some("deleteditems"));
    assert_eq!(distinguished_folder_id_from_spec("spam"), Some("junkemail"));
    assert_eq!(distinguished_folder_id_from_spec("Projects"), None);
    for name in ["inbox", "sent", "drafts", "trash", "junk email", "archive", "outbox", "calendar", "contacts", "tasks"] {
        let id = distinguished_folder_id_from_spec(name).unwrap();
        assert_eq!(distinguished_folder_id_from_spec(id), Some(id));
    }
}

#[test]
fn auth_mode_defaults_to_basic() {
    assert_eq!(normalized_auth_mode("  "), "basic");
    assert_eq!(normalized_auth_mode(" NTLM "), "NTLM");
}

#[test]
fn authorization_header_only_for_basic() {
    assert_eq!(authorization_header(&creds("Basic"), "tok").unwrap(), "Basic tok");
    match authorization_header(&creds("ntlm"), "tok") {
        Err(EwsError::AuthError(m)) => {
            assert_eq!(m, "NTLM authentication is configured but not implemented in this client")
        }
        other => panic!("unexpected {:?}", other),
    }
    match authorization_header(&creds("OAuth"), "tok") {
        Err(EwsError::AuthError(m)) => assert!(m.starts_with("OAuth authentication")),
        other => panic!("unexpected {:?}", other),
    }
    match authorization_header(&creds("Kerberos"), "tok") {
        Err(EwsError::AuthError(m)) => assert_eq!(m, "unsupported auth mode: kerberos"),
        other => panic!("unexpected {:?}", other),
    }
}

#[test]
fn basic_token_is_base64_of_user_and_password() {
    assert_eq!(basic_token("user", "pass"), "dXNlcjpwYXNz");
    assert_eq!(request_auth_header(&creds("")).unwrap(), Some("Basic dXNlcjpwYXNz".to_string()));
    assert_eq!(request_auth_header(&creds("ntlm")).unwrap(), None);
}

#[test]
fn ews_urls_are_normalized_idempotently() {
    let cases = [
        ("https://mail.x.com/EWS/Exchange.asmx", "https://mail.x.com/EWS/Exchange.asmx"),
        ("https://x.com/Autodiscover/Autodiscover.xml", "https://x.com/EWS/Exchange.asmx"),
        ("https://x.com/", "https://x.com/EWS/Exchange.asmx"),
        ("https://x.com/EWS/other", "https://x.com/EWS/other"),
        ("https://x.com", "https://x.com/EWS/Exchange.asmx"),
    ];
    for (input, expected) in cases {
        let once = normalize_ews_url(input);
        assert_eq!(once, expected);
        assert_eq!(normalize_ews_url(&once), once);
    }
    assert_eq!(starting_ews_url(None), "https://autodiscover.outlook.com/EWS/Exchange.asmx");
    assert_eq!(starting_ews_url(Some("u".to_string())), "u");
}

#[test]
fn autodiscover_answers_are_read() {
    let xml = "<Autodiscover><Response><Account><Protocol><Type>EXCH</Type><EwsUrl>https://mail.x.com/ews/</EwsUrl></Protocol></Account></Response></Autodiscover>";
    assert_eq!(
        extract_ews_url_from_autodiscover(xml),
        Some("https://mail.x.com/ews/EWS/Exchange.asmx".to_string())
    );
    let redirect = "<a:Autodiscover><a:RedirectUrl>https://r.x.com/</a:RedirectUrl></a:Autodiscover>";
    assert_eq!(extract_redirect_url_from_autodiscover(redirect), Some("https://r.x.com/".to_string()));
    assert_eq!(extract_ews_url_from_autodiscover(redirect), None);
    assert_eq!(autodiscover_outcome(404, "").unwrap_err(), "HTTP 404");
    assert_eq!(autodiscover_outcome(200, xml).unwrap(), "https://mail.x.com/ews/EWS/Exchange.asmx");
    assert_eq!(autodiscover_outcome(200, redirect).unwrap(), "https://r.x.com/EWS/Exchange.asmx");
    assert_eq!(
        autodiscover_outcome(200, "<x/>").unwrap_err(),
        "autodiscover response did not contain EwsUrl"
    );
}

#[test]
fn autodiscover_domain_and_candidates() {
    assert!(matches!(autodiscover_domain(""), Err(EwsError::AuthError(m)) if m == "Email required for autodiscover"));
    assert!(matches!(autodiscover_domain("user"), Err(EwsError::AuthError(m)) if m == "invalid email address"));
    assert_eq!(autodiscover_domain("a@b.com").unwrap(), "b.com");
    assert_eq!(autodiscover_domain("a@b@c").unwrap(), "b");
    assert_eq!(
        autodiscover_candidates("x.com"),
        vec![
            "https://autodiscover.x.com/Autodiscover/Autodiscover.xml".to_string(),
            "https://x.com/Autodiscover/Autodiscover.xml".to_string()
        ]
    );
    assert_eq!(
        autodiscover_failure("x.com", None).message(),
        "Not found: autodiscover failed for domain x.com: unknown error"
    );
    assert_eq!(
        autodiscover_failure("x.com", Some("HTTP 500".to_string())).message(),
        "Not found: autodiscover failed for domain x.com: HTTP 500"
    );
}

#[test]
fn soap_answers_are_checked() {
    match check_soap_response(500, &Some("NTLM".to_string()), "oops".to_string()) {
        Err(EwsError::SoapError(m)) => assert_eq!(m, "HTTP 500 auth=Some(\"NTLM\"): oops"),
        other => panic!("unexpected {:?}", other),
    }
    match check_soap_response(401, &None, "".to_string()) {
        Err(EwsError::SoapError(m)) => assert_eq!(m, "HTTP 401 auth=None: "),
        other => panic!("unexpected {:?}", other),
    }
    match check_soap_response(200, &None, "<soap:Fault><faultstring>Denied</faultstring>".to_string()) {
        Err(EwsError::SoapError(m)) => assert_eq!(m, "Denied"),
        other => panic!("unexpected {:?}", other),
    }
    assert_eq!(check_soap_response(200, &None, "<ok/>".to_string()).unwrap(), "<ok/>");
}

#[test]
fn www_authenticate_header_is_read() {
    assert_eq!(www_authenticate_value("WWW-Authenticate: NTLM abc\r\n"), Some("NTLM abc".to_string()));
    assert_eq!(www_authenticate_value("www-authenticate:Negotiate"), Some("Negotiate".to_string()));
    assert_eq!(www_authenticate_value("Content-Type: text/xml"), None);
    assert_eq!(www_authenticate_value("no colon"), None);
}

fn email_with_id(id: &str) -> Email {
    Email { item_id: ItemId { id: id.to_string(), change_key: String::new() }, ..Default::default() }
}

#[test]
fn created_item_id_falls_back_in_order() {
    assert_eq!(created_item_id(None, "<t:ItemId Id=\"abc\" ChangeKey=\"k\"/>").unwrap(), "abc");
    assert_eq!(
        created_item_id(None, "<m ResponseClass=\"Success\"><ResponseCode>NoError</ResponseCode></m>").unwrap(),
        "sent-no-itemid"
    );
    match created_item_id(None, "<m/>") {
        Err(EwsError::NotFound(m)) => assert_eq!(m, "item id not found in CreateItem response"),
        other => panic!("unexpected {:?}", other),
    }
}

#[test]
fn moved_item_id_prefers_the_answer() {
    let parsed = MoveItemResponse {
        response_messages: MoveItemResponseMessages {
            move_item: MoveItemResponseMessage {
                items: MovedItems {
                    messages: vec![email_with_id("from-message")],
                    items: Vec::new(),
                    item_id: Some(ItemId { id: " ".to_string(), change_key: String::new() }),
                },
            },
        },
    };
    assert_eq!(moved_item_id(Some(parsed), "<x/>", "orig").unwrap(), "from-message");
    assert_eq!(moved_item_id(None, "<m ResponseClass='Success'>NoError</m>", "orig").unwrap(), "orig");
    assert!(matches!(moved_item_id(None, "<m/>", "orig"), Err(EwsError::NotFound(_))));
}

#[test]
fn get_item_answer_yields_its_first_message() {
    let response = |messages: Vec<Email>| GetItemResponse {
        response_messages: GetItemResponseMessages {
            get_item: GetItemResponseMessage { items: ItemsResponse { messages, items: Vec::new() } },
        },
    };
    assert_eq!(first_item(response(vec![email_with_id("a"), email_with_id("b")])).unwrap().item_id.id, "a");
    match first_item(response(Vec::new())) {
        Err(e) => assert_eq!(e.message(), "Not found: item not found in GetItem response"),
        Ok(_) => panic!("expected an error"),
    }
}

#[test]
fn folders_are_found_in_find_folder_answers() {
    let xml = "<m:FindFolderResponse><t:Folders>\
        <t:Folder><t:FolderId Id=\"f1\" ChangeKey=\"c1\"/><t:DisplayName>Projects</t:DisplayName><t:TotalCount>7</t:TotalCount><t:UnreadCount>2</t:UnreadCount></t:Folder>\
        <t:Folder><t:FolderId Id=\"f2\"/><t:DisplayName>Other</t:DisplayName></t:Folder>\
        </t:Folders></m:FindFolderResponse>";
    let f = find_folder_in_xml(xml, "projects").unwrap();
    assert_eq!(f.folder_id.id, "f1");
    assert_eq!(f.folder_id.change_key, "c1");
    assert_eq!(f.total_count, 7);
    assert_eq!(f.unread_count, 2);
    assert!(find_folder_in_xml(xml, "missing").is_none());
}
