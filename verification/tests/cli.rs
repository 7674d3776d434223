use ews_skill::cli::{
    default_search_start, doctor_failure_message, graph_auth_from_env, is_retryable_socket_error,
    output_json, parse_cli_args, parse_cli_options, parse_scalar_arg, queue_capacity,
    read_tool_reply, route_request, socket_retry_step, split_cli_arg, tool_args_check,
    wants_ntlm_check, worker_count, ArgsShape, Client, RpcRoute, ScalarArg,
};
use ews_skill::graph::GraphAuthConfig;
use ews_skill::time::Timestamp;

fn strings(v: &[&str]) -> Vec<String> {
    v.iter().map(|s| s.to_string()).collect()
}

#[test]
fn client_timeout_is_at_least_one_millisecond() {
    assert_eq!(Client::new("/s".to_string(), 0).timeout_ms, 1);
    assert_eq!(Client::new("/s".to_string(), 250).timeout_ms, 250);
}

#[test]
fn socket_retries_back_off_up_to_four_times() {
    assert!(is_retryable_socket_error("Resource temporarily unavailable (os error 11)"));
    assert!(is_retryable_socket_error("WouldBlock"));
    assert!(!is_retryable_socket_error("No such file or directory (os error 2)"));
    let busy = "Resource temporarily unavailable";
    assert_eq!(socket_retry_step(0, 50, busy), Some((50, 100)));
    assert_eq!(socket_retry_step(3, 400, busy), Some((400, 600)));
    assert_eq!(socket_retry_step(4, 600, busy), None);
    assert_eq!(socket_retry_step(0, 50, "refused"), None);
    let mut backoff = 50u64;
    let mut attempts = 0u8;
    while let Some((_, next)) = socket_retry_step(attempts, backoff, busy) {
        backoff = next;
        attempts += 1;
    }
    assert_eq!(attempts, 4);
}

#[test]
fn output_is_json_unless_human() {
    assert!(output_json(false, false));
    assert!(!output_json(false, true));
    assert!(output_json(true, true));
}

#[test]
fn tool_replies_are_read() {
    assert_eq!(read_tool_reply(false, None, None), Err("missing result in response".to_string()));
    assert_eq!(read_tool_reply(true, None, None), Err("missing success flag in tool response".to_string()));
    assert_eq!(read_tool_reply(true, Some(true), None), Ok(()));
    assert_eq!(read_tool_reply(true, Some(false), None), Err("tool call failed".to_string()));
    assert_eq!(read_tool_reply(true, Some(false), Some("x".to_string())), Err("x".to_string()));
}

#[test]
fn scalar_args_are_typed() {
    assert!(matches!(parse_scalar_arg("TRUE"), ScalarArg::Bool(true)));
    assert!(matches!(parse_scalar_arg("false"), ScalarArg::Bool(false)));
    assert!(matches!(parse_scalar_arg("Null"), ScalarArg::Null));
    assert!(matches!(parse_scalar_arg("42"), ScalarArg::Int(42)));
    assert!(matches!(parse_scalar_arg("-9223372036854775808"), ScalarArg::Int(i64::MIN)));
    assert!(matches!(parse_scalar_arg("+7"), ScalarArg::Int(7)));
    assert!(matches!(parse_scalar_arg("1.5"), ScalarArg::Unparsed(s) if s == "1.5"));
    assert!(matches!(parse_scalar_arg("9223372036854775808"), ScalarArg::Unparsed(_)));
}

#[test]
fn cli_args_split_at_the_first_equals() {
    assert_eq!(split_cli_arg("k=v=w"), Ok(("k".to_string(), "v=w".to_string())));
    assert_eq!(split_cli_arg("novalue"), Err("invalid --arg 'novalue', expected key=value".to_string()));
    assert_eq!(split_cli_arg(" =v"), Err("invalid --arg ' =v', key is empty".to_string()));
    let parsed = parse_cli_args(&strings(&["limit=5", "folder_name=inbox"])).unwrap();
    assert_eq!(parsed[0].0, "limit");
    assert!(matches!(parsed[0].1, ScalarArg::Int(5)));
    assert!(matches!(&parsed[1].1, ScalarArg::Unparsed(s) if s == "inbox"));
    assert!(parse_cli_args(&strings(&["a=1", "bad"])).is_err());
}

#[test]
fn search_window_defaults_to_recent_days() {
    let now = Timestamp { secs: 1_000_000, nanos: 5 };
    assert_eq!(default_search_start(false, &None, &None, 30, now), Some(Timestamp { secs: 1_000_000 - 30 * 86_400, nanos: 5 }));
    assert_eq!(default_search_start(true, &None, &None, 30, now), None);
    assert_eq!(default_search_start(false, &Some("x".to_string()), &None, 30, now), None);
    assert_eq!(default_search_start(false, &None, &None, 0, now), None);
}

#[test]
fn graph_auth_needs_both_ids() {
    let a = graph_auth_from_env(Some("t".to_string()), Some("c".to_string()), None).unwrap();
    assert_eq!((a.tenant_id.as_str(), a.client_id.as_str()), ("t", "c"));
    assert_eq!(graph_auth_from_env(None, Some("c".to_string()), None).unwrap_err(), "missing GRAPH_TENANT_ID in environment");
    assert_eq!(graph_auth_from_env(Some("t".to_string()), None, None).unwrap_err(), "missing GRAPH_CLIENT_ID in environment");
    assert_eq!(
        doctor_failure_message(&Some("down".to_string()), &None),
        "doctor failed: tools_error=Some(\"down\"), health_error=None"
    );
}

#[test]
fn daemon_options_are_read() {
    let o = parse_cli_options(&strings(&[])).unwrap();
    assert_eq!(o.socket_path, "/run/ews-skill/daemon.sock");
    assert!(o.config_path.is_none());
    let o = parse_cli_options(&strings(&["--check-ntlm", "--config", "/c.toml", "--transport", "unix", "--socket", "/s"])).unwrap();
    assert_eq!(o.config_path.as_deref(), Some("/c.toml"));
    assert_eq!(o.socket_path, "/s");
    assert_eq!(parse_cli_options(&strings(&["--config"])).unwrap_err(), "--config requires a path value");
    assert_eq!(parse_cli_options(&strings(&["--transport"])).unwrap_err(), "--transport requires a value (unix)");
    assert_eq!(parse_cli_options(&strings(&["--transport", "tcp"])).unwrap_err(), "unsupported transport: tcp");
    assert_eq!(parse_cli_options(&strings(&["--socket"])).unwrap_err(), "--socket requires a path value");
    assert_eq!(parse_cli_options(&strings(&["-x"])).unwrap_err(), "unknown argument: -x");
    assert!(wants_ntlm_check(&strings(&["--socket", "/s", "--check-ntlm"])));
    assert!(!wants_ntlm_check(&strings(&["--socket", "/s"])));
}

#[test]
fn worker_and_queue_counts() {
    assert_eq!(worker_count(&None), 8);
    assert_eq!(worker_count(&Some("0".to_string())), 1);
    assert_eq!(worker_count(&Some("x".to_string())), 8);
    assert_eq!(worker_count(&Some("3".to_string())), 3);
    assert_eq!(queue_capacity(&None), 128);
}

#[test]
fn login_falls_back_to_the_daemon_settings() {
    let daemon = || Some(GraphAuthConfig { tenant_id: "dt".to_string(), client_id: "dc".to_string() });
    let a = graph_auth_from_env(None, None, daemon()).unwrap();
    assert_eq!((a.tenant_id.as_str(), a.client_id.as_str()), ("dt", "dc"));
    let b = graph_auth_from_env(Some("t".to_string()), None, daemon()).unwrap();
    assert_eq!((b.tenant_id.as_str(), b.client_id.as_str()), ("dt", "dc"));
    let c = graph_auth_from_env(Some("t".to_string()), Some("c".to_string()), daemon()).unwrap();
    assert_eq!((c.tenant_id.as_str(), c.client_id.as_str()), ("t", "c"));
}

#[test]
fn rpc_requests_are_routed() {
    assert!(matches!(route_request(&None, "tools.list"), RpcRoute::InvalidVersion));
    assert!(matches!(route_request(&Some("1.0".to_string()), "tools.list"), RpcRoute::InvalidVersion));
    assert!(matches!(route_request(&Some("2.0".to_string()), "tools.list"), RpcRoute::ToolsList));
    assert!(matches!(route_request(&Some("2.0".to_string()), "tools.call"), RpcRoute::ToolsCall));
    assert!(matches!(
        route_request(&Some("2.0".to_string()), "graph.auth_config"),
        RpcRoute::GraphAuthConfig
    ));
    assert!(matches!(route_request(&Some("2.0".to_string()), "x"), RpcRoute::MethodNotFound(m) if m == "method not found: x"));
    assert_eq!(tool_args_check(ArgsShape::Object), Ok(true));
    assert_eq!(tool_args_check(ArgsShape::Null), Ok(false));
    assert_eq!(tool_args_check(ArgsShape::Other), Err("invalid params: args must be a JSON object".to_string()));
}
