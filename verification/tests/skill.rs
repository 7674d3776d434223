use ews_skill::skill::{
    classify_tool_error, normalize_error_message, normalize_tool_result, parse_tool_call,
    plan_tool_call, tool_definitions, tool_result_code, ArgValue, ToolArgs, ToolCall, ToolPlan,
    ToolResult,
};

fn args(entries: Vec<(&str, ArgValue)>) -> ToolArgs {
    ToolArgs { entries: entries.into_iter().map(|(k, v)| (k.to_string(), v)).collect() }
}

#[test]
fn error_messages_get_a_code_once() {
    assert_eq!(normalize_error_message("Email not found"), "[E_NOT_FOUND] Email not found");
    assert_eq!(normalize_error_message("Token expired"), "[E_AUTH] Token expired");
    assert_eq!(normalize_error_message("sync failed"), "[E_SYNC] sync failed");
    assert_eq!(normalize_error_message("server busy"), "[E_BUSY] server busy");
    assert_eq!(normalize_error_message("boom"), "[E_INTERNAL] boom");
    assert_eq!(normalize_error_message("[E_X] kept"), "[E_X] kept");
    for m in ["Email not found", "boom", "graph sync already in progress"] {
        let once = normalize_error_message(m);
        assert_eq!(normalize_error_message(&once), once);
        assert!(once.starts_with("[E_"));
    }
}

#[test]
fn tool_results_are_normalized_only_on_failure() {
    let r = normalize_tool_result(ToolResult::err("Folder not found: x".to_string()));
    assert!(!r.success);
    assert_eq!(r.error.as_deref(), Some("[E_NOT_FOUND] Folder not found: x"));
    let ok = normalize_tool_result(ToolResult::ok(serde_json::Value::Null));
    assert!(ok.success && ok.error.is_none() && ok.data.is_some());
}

#[test]
fn error_classes_follow_the_documented_codes() {
    assert_eq!(classify_tool_error("[E_NOT_FOUND] Email not found"), "E_NOT_FOUND");
    assert_eq!(classify_tool_error("missing required argument: email_id"), "E_BAD_ARGS");
    assert_eq!(classify_tool_error("invalid params: x"), "E_BAD_ARGS");
    assert_eq!(classify_tool_error("[E_INTERNAL] unknown tool: foo"), "E_UNKNOWN_TOOL");
    assert_eq!(classify_tool_error("403 Forbidden"), "E_AUTH");
    assert_eq!(classify_tool_error("[E_SYNC] sync failed"), "E_SYNC");
    assert_eq!(
        classify_tool_error("[E_BUSY] resource temporarily unavailable"),
        "E_BUSY"
    );
    assert_eq!(classify_tool_error("server busy"), "E_BUSY");
    assert_eq!(classify_tool_error("oops"), "E_INTERNAL");
    assert_eq!(tool_result_code(&ToolResult::ok(serde_json::Value::Null)), "OK");
    assert_eq!(
        tool_result_code(&ToolResult { success: false, data: None, error: None }),
        "E_INTERNAL"
    );
}

#[test]
fn tool_catalogue_lists_the_documented_tools() {
    let defs = tool_definitions();
    let names: Vec<&str> = defs.iter().map(|d| d.name.as_str()).collect();
    assert_eq!(
        names,
        vec![
            "email_list_server_folders", "email_list_synced_folders", "email_list", "email_read",
            "email_search", "email_get_unread",
            "email_mark_read", "email_send", "email_move", "email_delete", "email_sync_now",
            "email_add_folder", "email_health",
        ]
    );
    let read = &defs[3];
    assert_eq!(read.description, "Get full email content by ID");
    assert_eq!(read.required, vec!["email_id".to_string()]);
    assert_eq!(read.params[0].kind, "string");
    for d in &defs {
        for r in &d.required {
            assert!(d.params.iter().any(|p| &p.name == r));
        }
    }
    let search = &defs[4];
    assert_eq!(search.params.len(), 8);
    assert_eq!(search.params[7].name, "include_body");
    assert_eq!(search.params[7].kind, "boolean");
}

#[test]
fn every_advertised_tool_is_served() {
    for d in tool_definitions() {
        match parse_tool_call(&d.name, &args(vec![])) {
            Ok(ToolCall::Unknown { name }) => panic!("advertised tool {} is unknown", name),
            _ => {}
        }
    }
}

#[test]
fn tool_calls_are_read_from_arguments() {
    match parse_tool_call("email_read", &args(vec![])) {
        Err(m) => assert_eq!(m, "missing required argument: email_id"),
        Ok(c) => panic!("unexpected {:?}", c),
    }
    match parse_tool_call("email_read", &args(vec![("email_id", ArgValue::Int(3))])) {
        Err(m) => assert_eq!(m, "missing required argument: email_id"),
        Ok(c) => panic!("unexpected {:?}", c),
    }
    match parse_tool_call(
        "email_list",
        &args(vec![
            ("limit", ArgValue::Int(5)),
            ("folder_name", ArgValue::Text("inbox".to_string())),
            ("limit", ArgValue::Int(9)),
        ]),
    ) {
        Ok(ToolCall::List { folder_name, limit, unread_only }) => {
            assert_eq!(folder_name.as_deref(), Some("inbox"));
            assert_eq!(limit, Some(5));
            assert_eq!(unread_only, None);
        }
        other => panic!("unexpected {:?}", other),
    }
    match parse_tool_call("email_get_unread", &args(vec![("limit", ArgValue::Int(i64::MAX))])) {
        Ok(ToolCall::GetUnread { limit, .. }) => assert_eq!(limit, None),
        other => panic!("unexpected {:?}", other),
    }
    match parse_tool_call("email_delete", &args(vec![("email_id", ArgValue::Text("x".to_string()))])) {
        Ok(ToolCall::Delete { email_id, skip_trash }) => {
            assert_eq!(email_id, "x");
            assert!(!skip_trash);
        }
        other => panic!("unexpected {:?}", other),
    }
    match parse_tool_call(
        "email_send",
        &args(vec![("to", ArgValue::Text("a@x".to_string())), ("subject", ArgValue::Text("s".to_string()))]),
    ) {
        Err(m) => assert_eq!(m, "missing required argument: body"),
        Ok(c) => panic!("unexpected {:?}", c),
    }
    match parse_tool_call("email_mark_read", &args(vec![("email_id", ArgValue::Text("x".to_string()))])) {
        Err(m) => assert_eq!(m, "missing required argument: is_read"),
        Ok(c) => panic!("unexpected {:?}", c),
    }
    assert!(matches!(parse_tool_call("email_health", &args(vec![])), Ok(ToolCall::Health)));
    assert!(matches!(parse_tool_call("email_sync_now", &args(vec![])), Ok(ToolCall::SyncNow)));
    assert!(matches!(parse_tool_call("nope", &args(vec![])), Ok(ToolCall::Unknown { .. })));
}

#[test]
fn planned_calls_reply_to_bad_requests() {
    match plan_tool_call("nope", &args(vec![])) {
        ToolPlan::Reply(r) => {
            assert!(!r.success);
            let e = r.error.unwrap();
            assert_eq!(e, "[E_INTERNAL] unknown tool: nope");
            assert_eq!(classify_tool_error(&e), "E_UNKNOWN_TOOL");
        }
        other => panic!("unexpected {:?}", other),
    }
    match plan_tool_call("email_move", &args(vec![("email_id", ArgValue::Text("x".to_string()))])) {
        ToolPlan::Reply(r) => {
            let e = r.error.unwrap();
            assert_eq!(e, "missing required argument: destination_folder");
            assert_eq!(classify_tool_error(&e), "E_BAD_ARGS");
        }
        other => panic!("unexpected {:?}", other),
    }
    assert!(matches!(
        plan_tool_call("email_add_folder", &args(vec![("folder_name", ArgValue::Text("P".to_string()))])),
        ToolPlan::Run(ToolCall::AddFolder { .. })
    ));
}
