//! The tool surface of the skill: the results tools give, the tools the
//! daemon advertises, how a tool call is read from its arguments, and how
//! errors are given codes.
use vstd::prelude::*;
use crate::text::{
    ascii_lower_seq, chars_eq_str, chars_of, contains, has_prefix, opt_string_view, str_contains,
    str_starts_with, str_to_ascii_lowercase,
};

verus! {

/// A JSON value of `serde_json`, carried through opaquely.
#[verifier::external_type_specification]
#[verifier::external_body]
pub struct ExJsonValue(serde_json::Value);

/// What a tool gives back: success with data, or failure with an error
/// message.
#[derive(Debug)]
pub struct ToolResult {
    pub success: bool,
    pub data: Option<serde_json::Value>,
    pub error: Option<String>,
}

impl ToolResult {
    /// A success carrying `data`.
    pub fn ok(data: serde_json::Value) -> (r: Self)
        ensures
            r.success,
            r.data == Some(data),
            r.error is None,
    {
        ToolResult { success: true, data: Some(data), error: None }
    }

    /// A failure with message `error`.
    pub fn err(error: String) -> (r: Self)
        ensures
            !r.success,
            r.data is None,
            r.error == Some(error),
    {
        ToolResult { success: false, data: None, error: Some(error) }
    }
}

/// The code an error message is given, by what its ASCII-lower-cased text
/// mentions: authentication, a missing thing, sync, or contention.
pub open spec fn error_code_for(lower: Seq<char>) -> Seq<char> {
    if contains(lower, "auth"@) || contains(lower, "login"@) || contains(lower, "token"@) {
        "E_AUTH"@
    } else if contains(lower, "not found"@) || contains(lower, "missing"@) {
        "E_NOT_FOUND"@
    } else if contains(lower, "sync"@) {
        "E_SYNC"@
    } else if contains(lower, "busy"@) || contains(lower, "temporarily unavailable"@) {
        "E_BUSY"@
    } else {
        "E_INTERNAL"@
    }
}

/// An error message with its `[E_*]` prefix: kept as it is when it already
/// has one.
pub open spec fn normalized_error(e: Seq<char>) -> Seq<char> {
    if has_prefix(e, "[E_"@) {
        e
    } else {
        "["@ + error_code_for(ascii_lower_seq(e)) + "] "@ + e
    }
}

/// Gives an error message its `[E_*]` prefix.
pub fn normalize_error_message(error: &str) -> (r: String)
    ensures
        r@ == normalized_error(error@),
{
    if str_starts_with(error, "[E_") {
        return String::from_str(error);
    }
    let lower = str_to_ascii_lowercase(error);
    let l = lower.as_str();
    let code = if str_contains(l, "auth") || str_contains(l, "login") || str_contains(l, "token") {
        "E_AUTH"
    } else if str_contains(l, "not found") || str_contains(l, "missing") {
        "E_NOT_FOUND"
    } else if str_contains(l, "sync") {
        "E_SYNC"
    } else if str_contains(l, "busy") || str_contains(l, "temporarily unavailable") {
        "E_BUSY"
    } else {
        "E_INTERNAL"
    };
    let mut m = String::from_str("[");
    m.append(code);
    m.append("] ");
    m.append(error);
    m
}

/// Every normalized message carries an `[E_` prefix.
pub proof fn normalized_error_has_code(e: Seq<char>)
    ensures
        has_prefix(normalized_error(e), "[E_"@),
{
    reveal_strlit("[E_");
    reveal_strlit("[");
    reveal_strlit("E_AUTH");
    reveal_strlit("E_NOT_FOUND");
    reveal_strlit("E_SYNC");
    reveal_strlit("E_BUSY");
    reveal_strlit("E_INTERNAL");
    let n = normalized_error(e);
    if !has_prefix(e, "[E_"@) {
        let c = error_code_for(ascii_lower_seq(e));
        assert(n == "["@ + c + "] "@ + e);
        assert(n.subrange(0, 3) =~= "[E_"@);
    }
}

/// Normalizing an error message twice gives what normalizing it once gives.
pub proof fn normalize_error_is_idempotent(e: Seq<char>)
    ensures
        normalized_error(normalized_error(e)) == normalized_error(e),
{
    normalized_error_has_code(e);
}

/// A failed result with its error normalized; a success, or a failure
/// without a message, is left as it is.
pub fn normalize_tool_result(result: ToolResult) -> (r: ToolResult)
    ensures
        r.success == result.success,
        r.data == result.data,
        !result.success && result.error is Some ==> opt_string_view(r.error) == Some(
            normalized_error(result.error->0@),
        ),
        result.success || result.error is None ==> r.error == result.error,
{
    let mut result = result;
    if !result.success {
        match &result.error {
            Some(e) => {
                let n = normalize_error_message(e.as_str());
                result.error = Some(n);
            },
            None => {},
        }
    }
    result
}

/// The code the daemon reports for a failed tool's message.
pub open spec fn error_class(error: Seq<char>) -> Seq<char> {
    let lower = ascii_lower_seq(error);
    if contains(lower, "missing required argument"@) || contains(lower, "invalid params"@) {
        "E_BAD_ARGS"@
    } else if contains(lower, "unknown tool"@) {
        "E_UNKNOWN_TOOL"@
    } else if contains(lower, "auth"@) || contains(lower, "unauthorized"@) || contains(
        lower,
        "forbidden"@,
    ) {
        "E_AUTH"@
    } else if contains(lower, "not found"@) {
        "E_NOT_FOUND"@
    } else if contains(lower, "sync"@) {
        "E_SYNC"@
    } else if contains(lower, "busy"@) || contains(lower, "temporarily unavailable"@) {
        "E_BUSY"@
    } else {
        "E_INTERNAL"@
    }
}

/// The code of a failed tool's message.
pub fn classify_tool_error(error: &str) -> (r: String)
    ensures
        r@ == error_class(error@),
{
    let lower = str_to_ascii_lowercase(error);
    let l = lower.as_str();
    if str_contains(l, "missing required argument") || str_contains(l, "invalid params") {
        return String::from_str("E_BAD_ARGS");
    }
    if str_contains(l, "unknown tool") {
        return String::from_str("E_UNKNOWN_TOOL");
    }
    if str_contains(l, "auth") || str_contains(l, "unauthorized") || str_contains(l, "forbidden") {
        return String::from_str("E_AUTH");
    }
    if str_contains(l, "not found") {
        return String::from_str("E_NOT_FOUND");
    }
    if str_contains(l, "sync") {
        return String::from_str("E_SYNC");
    }
    if str_contains(l, "busy") || str_contains(l, "temporarily unavailable") {
        return String::from_str("E_BUSY");
    }
    String::from_str("E_INTERNAL")
}

/// The code a tool result is reported with: `OK` for a success, else the
/// class of its message (of the empty message when there is none).
pub open spec fn result_code(success: bool, error: Option<Seq<char>>) -> Seq<char> {
    if success {
        "OK"@
    } else {
        error_class(
            match error {
                Some(e) => e,
                None => seq![],
            },
        )
    }
}

/// The code of a tool result.
pub fn tool_result_code(result: &ToolResult) -> (r: String)
    ensures
        r@ == result_code(result.success, opt_string_view(result.error)),
{
    if result.success {
        String::from_str("OK")
    } else {
        match &result.error {
            Some(e) => classify_tool_error(e.as_str()),
            None => {
                proof {
                    reveal_strlit("");
                    assert(""@ =~= Seq::<char>::empty());
                }
                classify_tool_error("")
            },
        }
    }
}

/// The codes a tool result can carry, as the daemon documents them.
pub open spec fn documented_code(c: Seq<char>) -> bool {
    ||| c == "OK"@
    ||| c == "E_BAD_ARGS"@
    ||| c == "E_AUTH"@
    ||| c == "E_NOT_FOUND"@
    ||| c == "E_SYNC"@
    ||| c == "E_BUSY"@
    ||| c == "E_UNKNOWN_TOOL"@
    ||| c == "E_INTERNAL"@
}

/// Every reported code is one of the documented ones.
pub proof fn result_code_is_documented(success: bool, error: Option<Seq<char>>)
    ensures
        documented_code(result_code(success, error)),
{
}

/// One parameter of a tool: its name, JSON type and description.
#[derive(Debug)]
pub struct ToolParam {
    pub name: String,
    pub kind: String,
    pub description: String,
}

/// A tool as the daemon advertises it: its name, description, parameters
/// (in this order) and the names of the required ones.
#[derive(Debug)]
pub struct ToolDefinition {
    pub name: String,
    pub description: String,
    pub params: Vec<ToolParam>,
    pub required: Vec<String>,
}

/// Name, type and description of a parameter.
pub type ParamView = (Seq<char>, Seq<char>, Seq<char>);

/// Name, description, parameters and required names of a tool.
pub type ToolView = (Seq<char>, Seq<char>, Seq<ParamView>, Seq<Seq<char>>);

pub open spec fn param_view(p: ToolParam) -> ParamView {
    (p.name@, p.kind@, p.description@)
}

pub open spec fn params_view(ps: Seq<ToolParam>) -> Seq<ParamView> {
    ps.map_values(|p: ToolParam| param_view(p))
}

pub open spec fn strings_view(v: Seq<String>) -> Seq<Seq<char>> {
    v.map_values(|s: String| s@)
}

pub open spec fn tool_view(t: ToolDefinition) -> ToolView {
    (t.name@, t.description@, params_view(t.params@), strings_view(t.required@))
}

/// The definition of `email_list_server_folders`.
pub open spec fn list_server_folders_tool() -> ToolView {
    ("email_list_server_folders"@, "List the folders available on the mail server"@, seq![], seq![])
}

/// The definition of `email_list_synced_folders`.
pub open spec fn list_synced_folders_tool() -> ToolView {
    ("email_list_synced_folders"@, "List the synced folders with counts from the local cache"@, seq![], seq![])
}

/// The definition of `email_list`.
pub open spec fn list_tool() -> ToolView {
    ("email_list"@, "List emails from a folder"@, seq![("folder_name"@, "string"@, "Folder name or distinguished id (default: inbox)"@), ("limit"@, "number"@, "Maximum number of emails to return (default: 50)"@), ("unread_only"@, "boolean"@, "Only return unread emails"@)], seq![])
}

/// The definition of `email_read`.
pub open spec fn read_tool() -> ToolView {
    ("email_read"@, "Get full email content by ID"@, seq![("email_id"@, "string"@, "The email ID"@)], seq!["email_id"@])
}

/// The definition of `email_search`.
pub open spec fn search_tool() -> ToolView {
    ("email_search"@, "Search emails by combined filters (query, subject, sender, time range, folder)"@, seq![("query"@, "string"@, "Free-text query over subject/sender/body_text"@), ("subject"@, "string"@, "Match subject text"@), ("sender"@, "string"@, "Match sender email or name"@), ("date_from"@, "string"@, "UTC lower bound (RFC3339), e.g. 2026-03-05T00:00:00Z"@), ("date_to"@, "string"@, "UTC upper bound (RFC3339), e.g. 2026-03-06T00:00:00Z"@), ("folder_name"@, "string"@, "Restrict search to folder display name"@), ("limit"@, "number"@, "Maximum results (default: 50)"@), ("include_body"@, "boolean"@, "Include body_text in query matching (default: true)"@)], seq![])
}

/// The definition of `email_get_unread`.
pub open spec fn get_unread_tool() -> ToolView {
    ("email_get_unread"@, "Get unread emails from inbox"@, seq![("folder_name"@, "string"@, "Folder name or distinguished id (default: inbox)"@), ("limit"@, "number"@, "Maximum results (default: 20)"@)], seq![])
}

/// The definition of `email_mark_read`.
pub open spec fn mark_read_tool() -> ToolView {
    ("email_mark_read"@, "Mark email as read or unread"@, seq![("email_id"@, "string"@, "The email ID"@), ("is_read"@, "boolean"@, "Mark as read (true) or unread (false)"@)], seq!["email_id"@, "is_read"@])
}

/// The definition of `email_send`.
pub open spec fn send_tool() -> ToolView {
    ("email_send"@, "Send a new email"@, seq![("to"@, "string"@, "Recipient email address"@), ("subject"@, "string"@, "Email subject"@), ("body"@, "string"@, "Email body"@)], seq!["to"@, "subject"@, "body"@])
}

/// The definition of `email_move`.
pub open spec fn move_tool() -> ToolView {
    ("email_move"@, "Move email to another folder"@, seq![("email_id"@, "string"@, "The email ID"@), ("destination_folder"@, "string"@, "Destination folder name"@)], seq!["email_id"@, "destination_folder"@])
}

/// The definition of `email_delete`.
pub open spec fn delete_tool() -> ToolView {
    ("email_delete"@, "Delete an email"@, seq![("email_id"@, "string"@, "The email ID"@), ("skip_trash"@, "boolean"@, "If true, skip Deleted Items and perform soft delete (default: false)"@)], seq!["email_id"@])
}

/// The definition of `email_sync_now`.
pub open spec fn sync_now_tool() -> ToolView {
    ("email_sync_now"@, "Force sync all folders now"@, seq![], seq![])
}

/// The definition of `email_add_folder`.
pub open spec fn add_folder_tool() -> ToolView {
    ("email_add_folder"@, "Add a folder to sync list"@, seq![("folder_name"@, "string"@, "Folder name to add"@)], seq!["folder_name"@])
}

/// The definition of `email_health`.
pub open spec fn health_tool() -> ToolView {
    ("email_health"@, "Check EWS connectivity and cache health"@, seq![], seq![])
}

/// The tools the daemon advertises, in this order.
pub open spec fn tool_catalogue() -> Seq<ToolView> {
    seq![list_server_folders_tool(), list_synced_folders_tool(), list_tool(), read_tool(), search_tool(), get_unread_tool(), mark_read_tool(), send_tool(), move_tool(), delete_tool(), sync_now_tool(), add_folder_tool(), health_tool()]
}

fn param(name: &str, kind: &str, description: &str) -> (r: ToolParam)
    ensures
        param_view(r) == (name@, kind@, description@),
{
    ToolParam {
        name: String::from_str(name),
        kind: String::from_str(kind),
        description: String::from_str(description),
    }
}

fn list_server_folders_definition() -> (r: ToolDefinition)
    ensures
        tool_view(r) == list_server_folders_tool(),
{
    let params: Vec<ToolParam> = Vec::new();
    let required: Vec<String> = Vec::new();
    let r = ToolDefinition { name: String::from_str("email_list_server_folders"), description: String::from_str("List the folders available on the mail server"), params, required };
    assert(params_view(r.params@) =~= list_server_folders_tool().2);
    assert(strings_view(r.required@) =~= list_server_folders_tool().3);
    r
}

fn list_synced_folders_definition() -> (r: ToolDefinition)
    ensures
        tool_view(r) == list_synced_folders_tool(),
{
    let params: Vec<ToolParam> = Vec::new();
    let required: Vec<String> = Vec::new();
    let r = ToolDefinition { name: String::from_str("email_list_synced_folders"), description: String::from_str("List the synced folders with counts from the local cache"), params, required };
    assert(params_view(r.params@) =~= list_synced_folders_tool().2);
    assert(strings_view(r.required@) =~= list_synced_folders_tool().3);
    r
}

fn list_definition() -> (r: ToolDefinition)
    ensures
        tool_view(r) == list_tool(),
{
    let params: Vec<ToolParam> = vec![param("folder_name", "string", "Folder name or distinguished id (default: inbox)"), param("limit", "number", "Maximum number of emails to return (default: 50)"), param("unread_only", "boolean", "Only return unread emails")];
    let required: Vec<String> = Vec::new();
    let r = ToolDefinition { name: String::from_str("email_list"), description: String::from_str("List emails from a folder"), params, required };
    assert(params_view(r.params@) =~= list_tool().2);
    assert(strings_view(r.required@) =~= list_tool().3);
    r
}

fn read_definition() -> (r: ToolDefinition)
    ensures
        tool_view(r) == read_tool(),
{
    let params: Vec<ToolParam> = vec![param("email_id", "string", "The email ID")];
    let required: Vec<String> = vec![String::from_str("email_id")];
    let r = ToolDefinition { name: String::from_str("email_read"), description: String::from_str("Get full email content by ID"), params, required };
    assert(params_view(r.params@) =~= read_tool().2);
    assert(strings_view(r.required@) =~= read_tool().3);
    r
}

fn search_definition() -> (r: ToolDefinition)
    ensures
        tool_view(r) == search_tool(),
{
    let params: Vec<ToolParam> = vec![param("query", "string", "Free-text query over subject/sender/body_text"), param("subject", "string", "Match subject text"), param("sender", "string", "Match sender email or name"), param("date_from", "string", "UTC lower bound (RFC3339), e.g. 2026-03-05T00:00:00Z"), param("date_to", "string", "UTC upper bound (RFC3339), e.g. 2026-03-06T00:00:00Z"), param("folder_name", "string", "Restrict search to folder display name"), param("limit", "number", "Maximum results (default: 50)"), param("include_body", "boolean", "Include body_text in query matching (default: true)")];
    let required: Vec<String> = Vec::new();
    let r = ToolDefinition { name: String::from_str("email_search"), description: String::from_str("Search emails by combined filters (query, subject, sender, time range, folder)"), params, required };
    assert(params_view(r.params@) =~= search_tool().2);
    assert(strings_view(r.required@) =~= search_tool().3);
    r
}

fn get_unread_definition() -> (r: ToolDefinition)
    ensures
        tool_view(r) == get_unread_tool(),
{
    let params: Vec<ToolParam> = vec![param("folder_name", "string", "Folder name or distinguished id (default: inbox)"), param("limit", "number", "Maximum results (default: 20)")];
    let required: Vec<String> = Vec::new();
    let r = ToolDefinition { name: String::from_str("email_get_unread"), description: String::from_str("Get unread emails from inbox"), params, required };
    assert(params_view(r.params@) =~= get_unread_tool().2);
    assert(strings_view(r.required@) =~= get_unread_tool().3);
    r
}

fn mark_read_definition() -> (r: ToolDefinition)
    ensures
        tool_view(r) == mark_read_tool(),
{
    let params: Vec<ToolParam> = vec![param("email_id", "string", "The email ID"), param("is_read", "boolean", "Mark as read (true) or unread (false)")];
    let required: Vec<String> = vec![String::from_str("email_id"), String::from_str("is_read")];
    let r = ToolDefinition { name: String::from_str("email_mark_read"), description: String::from_str("Mark email as read or unread"), params, required };
    assert(params_view(r.params@) =~= mark_read_tool().2);
    assert(strings_view(r.required@) =~= mark_read_tool().3);
    r
}

fn send_definition() -> (r: ToolDefinition)
    ensures
        tool_view(r) == send_tool(),
{
    let params: Vec<ToolParam> = vec![param("to", "string", "Recipient email address"), param("subject", "string", "Email subject"), param("body", "string", "Email body")];
    let required: Vec<String> = vec![String::from_str("to"), String::from_str("subject"), String::from_str("body")];
    let r = ToolDefinition { name: String::from_str("email_send"), description: String::from_str("Send a new email"), params, required };
    assert(params_view(r.params@) =~= send_tool().2);
    assert(strings_view(r.required@) =~= send_tool().3);
    r
}

fn move_definition() -> (r: ToolDefinition)
    ensures
        tool_view(r) == move_tool(),
{
    let params: Vec<ToolParam> = vec![param("email_id", "string", "The email ID"), param("destination_folder", "string", "Destination folder name")];
    let required: Vec<String> = vec![String::from_str("email_id"), String::from_str("destination_folder")];
    let r = ToolDefinition { name: String::from_str("email_move"), description: String::from_str("Move email to another folder"), params, required };
    assert(params_view(r.params@) =~= move_tool().2);
    assert(strings_view(r.required@) =~= move_tool().3);
    r
}

fn delete_definition() -> (r: ToolDefinition)
    ensures
        tool_view(r) == delete_tool(),
{
    let params: Vec<ToolParam> = vec![param("email_id", "string", "The email ID"), param("skip_trash", "boolean", "If true, skip Deleted Items and perform soft delete (default: false)")];
    let required: Vec<String> = vec![String::from_str("email_id")];
    let r = ToolDefinition { name: String::from_str("email_delete"), description: String::from_str("Delete an email"), params, required };
    assert(params_view(r.params@) =~= delete_tool().2);
    assert(strings_view(r.required@) =~= delete_tool().3);
    r
}

fn sync_now_definition() -> (r: ToolDefinition)
    ensures
        tool_view(r) == sync_now_tool(),
{
    let params: Vec<ToolParam> = Vec::new();
    let required: Vec<String> = Vec::new();
    let r = ToolDefinition { name: String::from_str("email_sync_now"), description: String::from_str("Force sync all folders now"), params, required };
    assert(params_view(r.params@) =~= sync_now_tool().2);
    assert(strings_view(r.required@) =~= sync_now_tool().3);
    r
}

fn add_folder_definition() -> (r: ToolDefinition)
    ensures
        tool_view(r) == add_folder_tool(),
{
    let params: Vec<ToolParam> = vec![param("folder_name", "string", "Folder name to add")];
    let required: Vec<String> = vec![String::from_str("folder_name")];
    let r = ToolDefinition { name: String::from_str("email_add_folder"), description: String::from_str("Add a folder to sync list"), params, required };
    assert(params_view(r.params@) =~= add_folder_tool().2);
    assert(strings_view(r.required@) =~= add_folder_tool().3);
    r
}

fn health_definition() -> (r: ToolDefinition)
    ensures
        tool_view(r) == health_tool(),
{
    let params: Vec<ToolParam> = Vec::new();
    let required: Vec<String> = Vec::new();
    let r = ToolDefinition { name: String::from_str("email_health"), description: String::from_str("Check EWS connectivity and cache health"), params, required };
    assert(params_view(r.params@) =~= health_tool().2);
    assert(strings_view(r.required@) =~= health_tool().3);
    r
}

/// The definitions of the advertised tools.
pub fn tool_definitions() -> (r: Vec<ToolDefinition>)
    ensures
        r@.map_values(|t: ToolDefinition| tool_view(t)) == tool_catalogue(),
{
    let r = vec![list_server_folders_definition(), list_synced_folders_definition(), list_definition(), read_definition(), search_definition(), get_unread_definition(), mark_read_definition(), send_definition(), move_definition(), delete_definition(), sync_now_definition(), add_folder_definition(), health_definition()];
    assert(r@.map_values(|t: ToolDefinition| tool_view(t)) =~= tool_catalogue());
    r
}

/// A tool argument, as far as tools read it: text, an integer that fits
/// `i64`, a boolean, or anything else.
#[derive(Debug)]
pub enum ArgValue {
    Text(String),
    Int(i64),
    Bool(bool),
    Other,
}

/// The arguments of a tool call: named values, the first of a name
/// counting.
#[derive(Debug)]
pub struct ToolArgs {
    pub entries: Vec<(String, ArgValue)>,
}

/// The value an argument name has: that of its first entry.
pub open spec fn arg_of(entries: Seq<(String, ArgValue)>, key: Seq<char>) -> Option<ArgValue>
    decreases entries.len(),
{
    if entries.len() == 0 {
        None
    } else if entries[0].0@ == key {
        Some(entries[0].1)
    } else {
        arg_of(entries.drop_first(), key)
    }
}

/// A text argument.
pub open spec fn text_arg(args: ToolArgs, key: Seq<char>) -> Option<Seq<char>> {
    match arg_of(args.entries@, key) {
        Some(ArgValue::Text(s)) => Some(s@),
        _ => None,
    }
}

/// An integer argument that fits `i32`.
pub open spec fn int_arg(args: ToolArgs, key: Seq<char>) -> Option<i32> {
    match arg_of(args.entries@, key) {
        Some(ArgValue::Int(v)) => if i32::MIN <= v <= i32::MAX {
            Some(v as i32)
        } else {
            None
        },
        _ => None,
    }
}

/// A boolean argument.
pub open spec fn bool_arg(args: ToolArgs, key: Seq<char>) -> Option<bool> {
    match arg_of(args.entries@, key) {
        Some(ArgValue::Bool(b)) => Some(b),
        _ => None,
    }
}

fn find_arg<'a>(args: &'a ToolArgs, key: &str) -> (r: Option<&'a ArgValue>)
    ensures
        match r {
            Some(v) => arg_of(args.entries@, key@) == Some(*v),
            None => arg_of(args.entries@, key@) is None,
        },
{
    let k = chars_of(key);
    let mut i: usize = 0;
    assert(args.entries@.subrange(0, args.entries@.len() as int) =~= args.entries@);
    while i < args.entries.len()
        invariant
            i <= args.entries@.len(),
            k@ == key@,
            arg_of(args.entries@, key@) == arg_of(args.entries@.subrange(i as int, args.entries@.len() as int), key@),
        decreases args.entries@.len() - i,
    {
        let ghost rest = args.entries@.subrange(i as int, args.entries@.len() as int);
        assert(rest.drop_first() =~= args.entries@.subrange(i + 1, args.entries@.len() as int));
        let name = chars_of(args.entries[i].0.as_str());
        if crate::text::chars_eq(name.as_slice(), k.as_slice()) {
            return Some(&args.entries[i].1);
        }
        i += 1;
    }
    None
}

/// The text argument `key`, if given as text.
pub fn arg_text(args: &ToolArgs, key: &str) -> (r: Option<String>)
    ensures
        opt_string_view(r) == text_arg(*args, key@),
{
    match find_arg(args, key) {
        Some(ArgValue::Text(s)) => Some(s.clone()),
        _ => None,
    }
}

/// The integer argument `key`, if given as an integer that fits `i32`.
pub fn arg_int(args: &ToolArgs, key: &str) -> (r: Option<i32>)
    ensures
        r == int_arg(*args, key@),
{
    match find_arg(args, key) {
        Some(ArgValue::Int(v)) => {
            if i32::MIN as i64 <= *v && *v <= i32::MAX as i64 {
                Some(*v as i32)
            } else {
                None
            }
        },
        _ => None,
    }
}

/// The boolean argument `key`, if given as a boolean.
pub fn arg_bool(args: &ToolArgs, key: &str) -> (r: Option<bool>)
    ensures
        r == bool_arg(*args, key@),
{
    match find_arg(args, key) {
        Some(ArgValue::Bool(b)) => Some(*b),
        _ => None,
    }
}

/// A tool call, read from the tool's name and arguments.
#[derive(Debug)]
#[allow(inconsistent_fields)]
pub enum ToolCall {
    Health,
    ListServerFolders,
    ListSyncedFolders,
    List { folder_name: Option<String>, limit: Option<i32>, unread_only: Option<bool> },
    Read { email_id: String },
    Search {
        query: Option<String>,
        subject: Option<String>,
        sender: Option<String>,
        date_from: Option<String>,
        date_to: Option<String>,
        folder_name: Option<String>,
        limit: Option<i32>,
        include_body: Option<bool>,
    },
    GetUnread { folder_name: Option<String>, limit: Option<i32> },
    MarkRead { email_id: String, is_read: bool },
    Send { to: String, subject: String, body: String },
    Move { email_id: String, destination_folder: String },
    Delete { email_id: String, skip_trash: bool },
    SyncNow,
    AddFolder { folder_name: String },
    Unknown { name: String },
}

/// The view of a tool call.
#[allow(inconsistent_fields)]
pub enum CallView {
    Health,
    ListServerFolders,
    ListSyncedFolders,
    List { folder_name: Option<Seq<char>>, limit: Option<i32>, unread_only: Option<bool> },
    Read { email_id: Seq<char> },
    Search {
        query: Option<Seq<char>>,
        subject: Option<Seq<char>>,
        sender: Option<Seq<char>>,
        date_from: Option<Seq<char>>,
        date_to: Option<Seq<char>>,
        folder_name: Option<Seq<char>>,
        limit: Option<i32>,
        include_body: Option<bool>,
    },
    GetUnread { folder_name: Option<Seq<char>>, limit: Option<i32> },
    MarkRead { email_id: Seq<char>, is_read: bool },
    Send { to: Seq<char>, subject: Seq<char>, body: Seq<char> },
    Move { email_id: Seq<char>, destination_folder: Seq<char> },
    Delete { email_id: Seq<char>, skip_trash: bool },
    SyncNow,
    AddFolder { folder_name: Seq<char> },
    Unknown { name: Seq<char> },
}

pub open spec fn call_view(c: ToolCall) -> CallView {
    match c {
        ToolCall::Health => CallView::Health,
        ToolCall::ListServerFolders => CallView::ListServerFolders,
        ToolCall::ListSyncedFolders => CallView::ListSyncedFolders,
        ToolCall::List { folder_name, limit, unread_only } => CallView::List {
            folder_name: opt_string_view(folder_name),
            limit,
            unread_only,
        },
        ToolCall::Read { email_id } => CallView::Read { email_id: email_id@ },
        ToolCall::Search {
            query,
            subject,
            sender,
            date_from,
            date_to,
            folder_name,
            limit,
            include_body,
        } => CallView::Search {
            query: opt_string_view(query),
            subject: opt_string_view(subject),
            sender: opt_string_view(sender),
            date_from: opt_string_view(date_from),
            date_to: opt_string_view(date_to),
            folder_name: opt_string_view(folder_name),
            limit,
            include_body,
        },
        ToolCall::GetUnread { folder_name, limit } => CallView::GetUnread {
            folder_name: opt_string_view(folder_name),
            limit,
        },
        ToolCall::MarkRead { email_id, is_read } => CallView::MarkRead { email_id: email_id@, is_read },
        ToolCall::Send { to, subject, body } => CallView::Send {
            to: to@,
            subject: subject@,
            body: body@,
        },
        ToolCall::Move { email_id, destination_folder } => CallView::Move {
            email_id: email_id@,
            destination_folder: destination_folder@,
        },
        ToolCall::Delete { email_id, skip_trash } => CallView::Delete {
            email_id: email_id@,
            skip_trash,
        },
        ToolCall::SyncNow => CallView::SyncNow,
        ToolCall::AddFolder { folder_name } => CallView::AddFolder { folder_name: folder_name@ },
        ToolCall::Unknown { name } => CallView::Unknown { name: name@ },
    }
}

/// The message of a missing required argument.
pub open spec fn missing_argument(key: Seq<char>) -> Seq<char> {
    "missing required argument: "@ + key
}

/// The call a tool name and its arguments stand for, or the message of the
/// first required argument that is missing (or not of its type).
pub open spec fn planned_call(name: Seq<char>, args: ToolArgs) -> Result<CallView, Seq<char>> {
    if name == "email_health"@ {
        Ok(CallView::Health)
    } else if name == "email_list_server_folders"@ {
        Ok(CallView::ListServerFolders)
    } else if name == "email_list_synced_folders"@ {
        Ok(CallView::ListSyncedFolders)
    } else if name == "email_list"@ {
        Ok(
            CallView::List {
                folder_name: text_arg(args, "folder_name"@),
                limit: int_arg(args, "limit"@),
                unread_only: bool_arg(args, "unread_only"@),
            },
        )
    } else if name == "email_read"@ {
        match text_arg(args, "email_id"@) {
            Some(id) => Ok(CallView::Read { email_id: id }),
            None => Err(missing_argument("email_id"@)),
        }
    } else if name == "email_search"@ {
        Ok(
            CallView::Search {
                query: text_arg(args, "query"@),
                subject: text_arg(args, "subject"@),
                sender: text_arg(args, "sender"@),
                date_from: text_arg(args, "date_from"@),
                date_to: text_arg(args, "date_to"@),
                folder_name: text_arg(args, "folder_name"@),
                limit: int_arg(args, "limit"@),
                include_body: bool_arg(args, "include_body"@),
            },
        )
    } else if name == "email_get_unread"@ {
        Ok(
            CallView::GetUnread {
                folder_name: text_arg(args, "folder_name"@),
                limit: int_arg(args, "limit"@),
            },
        )
    } else if name == "email_mark_read"@ {
        match text_arg(args, "email_id"@) {
            Some(id) => match bool_arg(args, "is_read"@) {
                Some(b) => Ok(CallView::MarkRead { email_id: id, is_read: b }),
                None => Err(missing_argument("is_read"@)),
            },
            None => Err(missing_argument("email_id"@)),
        }
    } else if name == "email_send"@ {
        match text_arg(args, "to"@) {
            Some(to) => match text_arg(args, "subject"@) {
                Some(subject) => match text_arg(args, "body"@) {
                    Some(body) => Ok(CallView::Send { to, subject, body }),
                    None => Err(missing_argument("body"@)),
                },
                None => Err(missing_argument("subject"@)),
            },
            None => Err(missing_argument("to"@)),
        }
    } else if name == "email_move"@ {
        match text_arg(args, "email_id"@) {
            Some(id) => match text_arg(args, "destination_folder"@) {
                Some(d) => Ok(CallView::Move { email_id: id, destination_folder: d }),
                None => Err(missing_argument("destination_folder"@)),
            },
            None => Err(missing_argument("email_id"@)),
        }
    } else if name == "email_delete"@ {
        match text_arg(args, "email_id"@) {
            Some(id) => Ok(
                CallView::Delete {
                    email_id: id,
                    skip_trash: match bool_arg(args, "skip_trash"@) {
                        Some(b) => b,
                        None => false,
                    },
                },
            ),
            None => Err(missing_argument("email_id"@)),
        }
    } else if name == "email_sync_now"@ {
        Ok(CallView::SyncNow)
    } else if name == "email_add_folder"@ {
        match text_arg(args, "folder_name"@) {
            Some(f) => Ok(CallView::AddFolder { folder_name: f }),
            None => Err(missing_argument("folder_name"@)),
        }
    } else {
        Ok(CallView::Unknown { name })
    }
}

pub open spec fn call_result_view(r: Result<ToolCall, String>) -> Result<CallView, Seq<char>> {
    match r {
        Ok(c) => Ok(call_view(c)),
        Err(m) => Err(m@),
    }
}

fn missing(key: &str) -> (r: String)
    ensures
        r@ == missing_argument(key@),
{
    let mut m = String::from_str("missing required argument: ");
    m.append(key);
    m
}

/// Reads a tool call from the tool's name and arguments.
pub fn parse_tool_call(tool_name: &str, args: &ToolArgs) -> (r: Result<ToolCall, String>)
    ensures
        call_result_view(r) == planned_call(tool_name@, *args),
{
    let n = chars_of(tool_name);
    let n = n.as_slice();
    if chars_eq_str(n, "email_health") {
        Ok(ToolCall::Health)
    } else if chars_eq_str(n, "email_list_server_folders") {
        Ok(ToolCall::ListServerFolders)
    } else if chars_eq_str(n, "email_list_synced_folders") {
        Ok(ToolCall::ListSyncedFolders)
    } else if chars_eq_str(n, "email_list") {
        Ok(
            ToolCall::List {
                folder_name: arg_text(args, "folder_name"),
                limit: arg_int(args, "limit"),
                unread_only: arg_bool(args, "unread_only"),
            },
        )
    } else if chars_eq_str(n, "email_read") {
        match arg_text(args, "email_id") {
            Some(id) => Ok(ToolCall::Read { email_id: id }),
            None => Err(missing("email_id")),
        }
    } else if chars_eq_str(n, "email_search") {
        Ok(
            ToolCall::Search {
                query: arg_text(args, "query"),
                subject: arg_text(args, "subject"),
                sender: arg_text(args, "sender"),
                date_from: arg_text(args, "date_from"),
                date_to: arg_text(args, "date_to"),
                folder_name: arg_text(args, "folder_name"),
                limit: arg_int(args, "limit"),
                include_body: arg_bool(args, "include_body"),
            },
        )
    } else if chars_eq_str(n, "email_get_unread") {
        Ok(
            ToolCall::GetUnread {
                folder_name: arg_text(args, "folder_name"),
                limit: arg_int(args, "limit"),
            },
        )
    } else if chars_eq_str(n, "email_mark_read") {
        match arg_text(args, "email_id") {
            Some(id) => match arg_bool(args, "is_read") {
                Some(b) => Ok(ToolCall::MarkRead { email_id: id, is_read: b }),
                None => Err(missing("is_read")),
            },
            None => Err(missing("email_id")),
        }
    } else if chars_eq_str(n, "email_send") {
        match arg_text(args, "to") {
            Some(to) => match arg_text(args, "subject") {
                Some(subject) => match arg_text(args, "body") {
                    Some(body) => Ok(ToolCall::Send { to, subject, body }),
                    None => Err(missing("body")),
                },
                None => Err(missing("subject")),
            },
            None => Err(missing("to")),
        }
    } else if chars_eq_str(n, "email_move") {
        match arg_text(args, "email_id") {
            Some(id) => match arg_text(args, "destination_folder") {
                Some(d) => Ok(ToolCall::Move { email_id: id, destination_folder: d }),
                None => Err(missing("destination_folder")),
            },
            None => Err(missing("email_id")),
        }
    } else if chars_eq_str(n, "email_delete") {
        match arg_text(args, "email_id") {
            Some(id) => {
                let skip_trash = match arg_bool(args, "skip_trash") {
                    Some(b) => b,
                    None => false,
                };
                Ok(ToolCall::Delete { email_id: id, skip_trash })
            },
            None => Err(missing("email_id")),
        }
    } else if chars_eq_str(n, "email_sync_now") {
        Ok(ToolCall::SyncNow)
    } else if chars_eq_str(n, "email_add_folder") {
        match arg_text(args, "folder_name") {
            Some(f) => Ok(ToolCall::AddFolder { folder_name: f }),
            None => Err(missing("folder_name")),
        }
    } else {
        Ok(ToolCall::Unknown { name: String::from_str(tool_name) })
    }
}

/// What to do with a tool call: run it, or answer at once (a missing
/// argument, unnormalized; an unknown tool, normalized).
#[derive(Debug)]
pub enum ToolPlan {
    Run(ToolCall),
    Reply(ToolResult),
}

/// The message of an unknown tool.
pub open spec fn unknown_tool_message(name: Seq<char>) -> Seq<char> {
    "unknown tool: "@ + name
}

/// Plans a tool call: the call to run, or the failure to answer with.
pub fn plan_tool_call(tool_name: &str, args: &ToolArgs) -> (r: ToolPlan)
    ensures
        match planned_call(tool_name@, *args) {
            Ok(CallView::Unknown { name }) => r matches ToolPlan::Reply(res) && !res.success
                && res.data is None && opt_string_view(res.error) == Some(
                normalized_error(unknown_tool_message(name)),
            ),
            Ok(c) => r matches ToolPlan::Run(call) && call_view(call) == c,
            Err(m) => r matches ToolPlan::Reply(res) && !res.success && res.data is None
                && opt_string_view(res.error) == Some(m),
        },
{
    match parse_tool_call(tool_name, args) {
        Ok(ToolCall::Unknown { name }) => {
            let mut m = String::from_str("unknown tool: ");
            m.append(name.as_str());
            ToolPlan::Reply(normalize_tool_result(ToolResult::err(m)))
        },
        Ok(call) => ToolPlan::Run(call),
        Err(m) => ToolPlan::Reply(ToolResult::err(m)),
    }
}

/// A missing required argument is always reported with the code
/// `E_BAD_ARGS`.
pub proof fn missing_argument_is_bad_args(key: Seq<char>)
    ensures
        error_class(missing_argument(key)) == "E_BAD_ARGS"@,
{
    let p = "missing required argument"@;
    let m = missing_argument(key);
    reveal_strlit("missing required argument");
    reveal_strlit("missing required argument: ");
    let l = ascii_lower_seq(m);
    assert(l.subrange(0, 25) =~= p);
    assert(crate::text::occurs_at(l, p, 0));
}


/// Every required parameter of an advertised tool is one of its parameters.
pub open spec fn required_are_params(t: ToolView) -> bool {
    forall|r: int|
        0 <= r < t.3.len() ==> exists|p: int| 0 <= p < t.2.len() && (#[trigger] t.2[p]).0 == #[trigger] t.3[r]
}

/// Each advertised tool names as required only parameters it declares.
pub proof fn catalogue_requires_declared_params()
    ensures
        forall|i: int| 0 <= i < tool_catalogue().len() ==> required_are_params(#[trigger] tool_catalogue()[i]),
{
    assert(read_tool().2[0].0 == read_tool().3[0]);
    assert(mark_read_tool().2[0].0 == mark_read_tool().3[0]);
    assert(mark_read_tool().2[1].0 == mark_read_tool().3[1]);
    assert(send_tool().2[0].0 == send_tool().3[0]);
    assert(send_tool().2[1].0 == send_tool().3[1]);
    assert(send_tool().2[2].0 == send_tool().3[2]);
    assert(move_tool().2[0].0 == move_tool().3[0]);
    assert(move_tool().2[1].0 == move_tool().3[1]);
    assert(delete_tool().2[0].0 == delete_tool().3[0]);
    assert(add_folder_tool().2[0].0 == add_folder_tool().3[0]);
    assert forall|i: int| 0 <= i < tool_catalogue().len() implies required_are_params(
        #[trigger] tool_catalogue()[i],
    ) by {
        let t = tool_catalogue()[i];
        assert forall|r: int| 0 <= r < t.3.len() implies exists|p: int|
            0 <= p < t.2.len() && (#[trigger] t.2[p]).0 == #[trigger] t.3[r] by {
            if i == 3 {
                assert(t.2[0].0 == t.3[r]);
            } else if i == 6 {
                assert(t.2[r].0 == t.3[r]);
            } else if i == 7 {
                assert(t.2[r].0 == t.3[r]);
            } else if i == 8 {
                assert(t.2[r].0 == t.3[r]);
            } else if i == 9 {
                assert(t.2[0].0 == t.3[r]);
            } else if i == 11 {
                assert(t.2[0].0 == t.3[r]);
            }
        }
    }
}

/// Every advertised tool is one the dispatcher serves: for any arguments,
/// its name never reads as an unknown tool.
pub proof fn catalogue_tools_are_served(args: ToolArgs)
    ensures
        forall|i: int|
            0 <= i < tool_catalogue().len() ==> !(planned_call(#[trigger] tool_catalogue()[i].0, args) matches Ok(
                CallView::Unknown { .. },
            )),
{
    assert forall|i: int| 0 <= i < tool_catalogue().len() implies !(planned_call(
        #[trigger] tool_catalogue()[i].0,
        args,
    ) matches Ok(CallView::Unknown { .. })) by {
        let n = tool_catalogue()[i].0;
        assert(n == "email_list_server_folders"@ || n == "email_list_synced_folders"@ || n
            == "email_list"@ || n == "email_read"@ || n == "email_search"@ || n
            == "email_get_unread"@ || n == "email_mark_read"@ || n == "email_send"@ || n
            == "email_move"@ || n == "email_delete"@ || n == "email_sync_now"@ || n
            == "email_add_folder"@ || n == "email_health"@);
    }
}

/// No two advertised tools share a name.
pub proof fn catalogue_names_are_distinct()
    ensures
        forall|i: int, j: int|
            0 <= i < j < tool_catalogue().len() ==> #[trigger] tool_catalogue()[i].0
                != #[trigger] tool_catalogue()[j].0,
{
    reveal_strlit("email_list_server_folders");
    reveal_strlit("email_list_synced_folders");
    reveal_strlit("email_list");
    reveal_strlit("email_read");
    reveal_strlit("email_search");
    reveal_strlit("email_get_unread");
    reveal_strlit("email_mark_read");
    reveal_strlit("email_send");
    reveal_strlit("email_move");
    reveal_strlit("email_delete");
    reveal_strlit("email_sync_now");
    reveal_strlit("email_add_folder");
    reveal_strlit("email_health");
    let c = tool_catalogue();
    assert forall|i: int, j: int| 0 <= i < j < c.len() implies #[trigger] c[i].0 != #[trigger] c[j].0 by {
        let a = c[i].0;
        let b = c[j].0;
        if a.len() != b.len() {
        } else if i == 0 && j == 1 {
            assert(a[12] != b[12]);
        } else if i == 2 && j == 3 {
            assert(a[6] != b[6]);
        } else if i == 2 && j == 7 {
            assert(a[6] != b[6]);
        } else if i == 2 && j == 8 {
            assert(a[6] != b[6]);
        } else if i == 3 && j == 7 {
            assert(a[6] != b[6]);
        } else if i == 3 && j == 8 {
            assert(a[6] != b[6]);
        } else if i == 4 && j == 9 {
            assert(a[6] != b[6]);
        } else if i == 4 && j == 12 {
            assert(a[6] != b[6]);
        } else if i == 5 && j == 11 {
            assert(a[6] != b[6]);
        } else if i == 7 && j == 8 {
            assert(a[6] != b[6]);
        } else if i == 9 && j == 12 {
            assert(a[6] != b[6]);
        }
    }
}

} // verus!

verus! {

/// The flags of a tool call are carried through as given: marking an email
/// read or unread marks it as asked, and deleting skips the trash exactly
/// when asked to (not by default).
pub proof fn tool_call_flags_are_carried(args: ToolArgs, id: Seq<char>)
    requires
        text_arg(args, "email_id"@) == Some(id),
    ensures
        forall|b: bool|
            bool_arg(args, "is_read"@) == Some(b) ==> #[trigger] planned_call("email_mark_read"@, args)
                == Ok::<CallView, Seq<char>>(CallView::MarkRead { email_id: id, is_read: b }),
        planned_call("email_delete"@, args) == Ok::<CallView, Seq<char>>(
            CallView::Delete { email_id: id, skip_trash: bool_arg(args, "skip_trash"@) == Some(true) },
        ),
{
    reveal_strlit("email_health");
    reveal_strlit("email_list_server_folders");
    reveal_strlit("email_list_synced_folders");
    reveal_strlit("email_list");
    reveal_strlit("email_read");
    reveal_strlit("email_search");
    reveal_strlit("email_get_unread");
    reveal_strlit("email_mark_read");
    reveal_strlit("email_send");
    reveal_strlit("email_move");
    reveal_strlit("email_delete");
    let mr = "email_mark_read"@;
    let de = "email_delete"@;
    assert(mr != "email_health"@) by {
        assert(mr.len() != "email_health"@.len());
    }
    assert(mr != "email_list_server_folders"@) by {
        assert(mr.len() != "email_list_server_folders"@.len());
    }
    assert(mr != "email_list_synced_folders"@) by {
        assert(mr.len() != "email_list_synced_folders"@.len());
    }
    assert(mr != "email_list"@) by {
        assert(mr.len() != "email_list"@.len());
    }
    assert(mr != "email_read"@) by {
        assert(mr.len() != "email_read"@.len());
    }
    assert(mr != "email_search"@) by {
        assert(mr.len() != "email_search"@.len());
    }
    assert(mr != "email_get_unread"@) by {
        assert(mr.len() != "email_get_unread"@.len());
    }
    assert(de != "email_health"@) by {
        assert(de[6] != "email_health"@[6]);
    }
    assert(de != "email_list_server_folders"@) by {
        assert(de.len() != "email_list_server_folders"@.len());
    }
    assert(de != "email_list_synced_folders"@) by {
        assert(de.len() != "email_list_synced_folders"@.len());
    }
    assert(de != "email_list"@) by {
        assert(de.len() != "email_list"@.len());
    }
    assert(de != "email_read"@) by {
        assert(de.len() != "email_read"@.len());
    }
    assert(de != "email_search"@) by {
        assert(de[6] != "email_search"@[6]);
    }
    assert(de != "email_get_unread"@) by {
        assert(de.len() != "email_get_unread"@.len());
    }
    assert(de != "email_mark_read"@) by {
        assert(de.len() != "email_mark_read"@.len());
    }
    assert(de != "email_send"@) by {
        assert(de.len() != "email_send"@.len());
    }
    assert(de != "email_move"@) by {
        assert(de.len() != "email_move"@.len());
    }
}

} // verus!
