//! The decisions of the command-line client and of the daemon's front end:
//! the client's socket retries and reading of replies, `--arg` parsing, the
//! default search window, the daemon's options and worker counts, and the
//! routing of JSON-RPC requests.
use vstd::prelude::*;
use crate::ews::{option_debug, option_debug_text};
use crate::graph::GraphAuthConfig;
use crate::text::{
    chars_eq_str, chars_of, contains, copy_range, digits_value, eq_ignore_ascii_case, find_from,
    find_substr, opt_string_view, parse_i32_spec, parse_uint, parse_uint_chars, str_contains,
    str_eq, str_eq_ignore_ascii_case, string_from_chars, trim, is_blank,
};
use crate::time::Timestamp;

verus! {

/// A client of the daemon's socket.
#[derive(Debug)]
pub struct Client {
    pub socket_path: String,
    pub timeout_ms: u64,
}

impl Client {
    /// A client of the socket at `socket_path`, with a read and write
    /// timeout of `timeout_ms` milliseconds (at least one).
    pub fn new(socket_path: String, timeout_ms: u64) -> (r: Self)
        ensures
            r.socket_path@ == socket_path@,
            r.timeout_ms == if timeout_ms < 1 {
                1
            } else {
                timeout_ms
            },
    {
        Client { socket_path, timeout_ms: if timeout_ms < 1 { 1 } else { timeout_ms } }
    }
}

/// A socket failure worth another try: the resource was temporarily
/// unavailable, or the call would have blocked.
pub open spec fn retryable_socket_message(m: Seq<char>) -> bool {
    contains(m, "Resource temporarily unavailable"@) || contains(m, "temporarily unavailable"@)
        || contains(m, "WouldBlock"@)
}

/// Whether a socket failure is worth another try.
pub fn is_retryable_socket_error(message: &str) -> (r: bool)
    ensures
        r == retryable_socket_message(message@),
{
    str_contains(message, "Resource temporarily unavailable") || str_contains(
        message,
        "temporarily unavailable",
    ) || str_contains(message, "WouldBlock")
}

/// Output is JSON unless only human output is asked for.
pub fn output_json(json: bool, human: bool) -> (r: bool)
    ensures
        r == (json || !human),
{
    json || !human
}

/// The first wait between socket attempts, in milliseconds.
pub const SOCKET_FIRST_BACKOFF_MS: u64 = 50;

/// The number of retries after the first socket attempt.
pub const SOCKET_MAX_RETRIES: u8 = 4;

/// After a failed socket attempt `attempt` (counted from zero) that waited
/// `backoff_ms` before: the wait before the next attempt and the wait after
/// it (doubled, at most 600 ms), or `None` when the failure is final.
pub open spec fn socket_retry(attempt: u8, backoff_ms: u64, error: Seq<char>) -> Option<(u64, u64)> {
    if attempt < 4 && retryable_socket_message(error) {
        Some((backoff_ms, if backoff_ms * 2 < 600 { (backoff_ms * 2) as u64 } else { 600 }))
    } else {
        None
    }
}

/// Decides whether a failed socket attempt is retried, and after which wait.
pub fn socket_retry_step(attempt: u8, backoff_ms: u64, error: &str) -> (r: Option<(u64, u64)>)
    requires
        backoff_ms <= 600,
    ensures
        r == socket_retry(attempt, backoff_ms, error@),
        r matches Some((_, next)) ==> next <= 600,
{
    if attempt < SOCKET_MAX_RETRIES && is_retryable_socket_error(error) {
        let doubled = backoff_ms * 2;
        Some((backoff_ms, if doubled < 600 { doubled } else { 600 }))
    } else {
        None
    }
}

/// What a `tools.call` reply means: its data on success, else the error
/// it reports.  `has_result` tells whether the reply had a `result`,
/// `success` its `success` flag if that is a boolean, `error` its `error`
/// if that is a string.
pub open spec fn tool_reply(has_result: bool, success: Option<bool>, error: Option<Seq<char>>) -> Result<(), Seq<char>> {
    if !has_result {
        Err("missing result in response"@)
    } else {
        match success {
            None => Err("missing success flag in tool response"@),
            Some(true) => Ok(()),
            Some(false) => Err(
                match error {
                    Some(e) => e,
                    None => "tool call failed"@,
                },
            ),
        }
    }
}

/// Reads a `tools.call` reply: `Ok` to take its data.
pub fn read_tool_reply(has_result: bool, success: Option<bool>, error: Option<String>) -> (r: Result<(), String>)
    ensures
        match r {
            Ok(()) => tool_reply(has_result, success, opt_string_view(error)) == Ok::<(), Seq<char>>(()),
            Err(m) => tool_reply(has_result, success, opt_string_view(error)) == Err::<(), Seq<char>>(m@),
        },
{
    if !has_result {
        return Err(String::from_str("missing result in response"));
    }
    match success {
        None => Err(String::from_str("missing success flag in tool response")),
        Some(true) => Ok(()),
        Some(false) => Err(
            match error {
                Some(e) => e,
                None => String::from_str("tool call failed"),
            },
        ),
    }
}

/// A scalar `--arg` value as far as it reads without floating point or
/// JSON: a boolean or `null` (ASCII case ignored), an `i64`, or text left
/// to be read further.
#[derive(Debug)]
pub enum ScalarArg {
    Bool(bool),
    Null,
    Int(i64),
    Unparsed(String),
}

/// The value `s.parse::<i64>()` gives.
pub open spec fn i64_value(s: Seq<char>) -> Option<int> {
    let neg = s.len() > 0 && s[0] == '-';
    let d = if neg {
        s.drop_first()
    } else {
        s
    };
    if neg && (d.len() > 0 && d[0] == '+') {
        None
    } else {
        match parse_uint(d, 10, if neg { 0x8000_0000_0000_0000 } else { 0x7fff_ffff_ffff_ffff }) {
            Some(v) => Some(if neg { -v } else { v as int }),
            None => None,
        }
    }
}

fn parse_i64(s: &[char]) -> (r: Option<i64>)
    ensures
        match i64_value(s@) {
            Some(v) => r == Some(v as i64),
            None => r is None,
        },
{
    if s.len() > 0 && s[0] == '-' {
        let rest = copy_range(s, 1, s.len());
        assert(rest@ == s@.drop_first());
        if rest.len() > 0 && rest[0] == '+' {
            return None;
        }
        match parse_uint_chars(rest.as_slice(), 10, 0x8000_0000_0000_0000) {
            Some(v) => {
                if v == 0x8000_0000_0000_0000 {
                    Some(i64::MIN)
                } else {
                    Some(-(v as i64))
                }
            },
            None => None,
        }
    } else {
        match parse_uint_chars(s, 10, 0x7fff_ffff_ffff_ffff) {
            Some(v) => Some(v as i64),
            None => None,
        }
    }
}

/// How a scalar `--arg` value reads.
pub open spec fn scalar_of(v: Seq<char>) -> ScalarArg {
    if eq_ignore_ascii_case(v, "true"@) {
        ScalarArg::Bool(true)
    } else if eq_ignore_ascii_case(v, "false"@) {
        ScalarArg::Bool(false)
    } else if eq_ignore_ascii_case(v, "null"@) {
        ScalarArg::Null
    } else {
        match i64_value(v) {
            Some(n) => ScalarArg::Int(n as i64),
            None => ScalarArg::Unparsed(arbitrary()),
        }
    }
}

/// Reads a scalar `--arg` value as far as it reads without floating point
/// or JSON.
pub fn parse_scalar_arg(value: &str) -> (r: ScalarArg)
    ensures
        match scalar_of(value@) {
            ScalarArg::Unparsed(_) => r matches ScalarArg::Unparsed(t) && t@ == value@,
            s => r == s,
        },
{
    if str_eq_ignore_ascii_case(value, "true") {
        return ScalarArg::Bool(true);
    }
    if str_eq_ignore_ascii_case(value, "false") {
        return ScalarArg::Bool(false);
    }
    if str_eq_ignore_ascii_case(value, "null") {
        return ScalarArg::Null;
    }
    let v = chars_of(value);
    match parse_i64(v.as_slice()) {
        Some(n) => ScalarArg::Int(n),
        None => ScalarArg::Unparsed(String::from_str(value)),
    }
}

/// One `key=value` argument split at its first `=`, or the reason it is
/// refused: no `=`, or a blank key.
pub open spec fn arg_pair(raw: Seq<char>) -> Result<(Seq<char>, Seq<char>), Seq<char>> {
    match find_from(raw, seq!['='], 0) {
        Some(i) => if trim(raw.subrange(0, i)).len() == 0 {
            Err("invalid --arg '"@ + raw + "', key is empty"@)
        } else {
            Ok((raw.subrange(0, i), raw.subrange(i + 1, raw.len() as int)))
        },
        None => Err("invalid --arg '"@ + raw + "', expected key=value"@),
    }
}

/// Splits one `key=value` argument.
pub fn split_cli_arg(raw: &str) -> (r: Result<(String, String), String>)
    ensures
        match r {
            Ok((k, v)) => arg_pair(raw@) == Ok::<(Seq<char>, Seq<char>), Seq<char>>((k@, v@)),
            Err(m) => arg_pair(raw@) == Err::<(Seq<char>, Seq<char>), Seq<char>>(m@),
        },
{
    let v = chars_of(raw);
    let eq: Vec<char> = vec!['='];
    assert(eq@ =~= seq!['=']);
    match find_substr(v.as_slice(), eq.as_slice(), 0) {
        Some(i) => {
            let vlen = v.len();
            assert(i + 1 <= vlen);
            let key = string_from_chars(copy_range(v.as_slice(), 0, i).as_slice());
            if is_blank(key.as_str()) {
                let mut m = String::from_str("invalid --arg '");
                m.append(raw);
                m.append("', key is empty");
                return Err(m);
            }
            let value = string_from_chars(copy_range(v.as_slice(), i + 1, v.len()).as_slice());
            Ok((key, value))
        },
        None => {
            let mut m = String::from_str("invalid --arg '");
            m.append(raw);
            m.append("', expected key=value");
            Err(m)
        },
    }
}

/// Splits every `--arg`, stopping at the first refused one.
pub fn parse_cli_args(input: &Vec<String>) -> (r: Result<Vec<(String, ScalarArg)>, String>)
    ensures
        match r {
            Ok(pairs) => pairs@.len() == input@.len() && forall|i: int|
                0 <= i < input@.len() ==> (arg_pair(#[trigger] input@[i]@) matches Ok((k, v)) && pairs@[i].0@
                    == k && match scalar_of(v) {
                    ScalarArg::Unparsed(_) => pairs@[i].1 matches ScalarArg::Unparsed(t) && t@ == v,
                    s => pairs@[i].1 == s,
                }),
            Err(m) => exists|i: int|
                0 <= i < input@.len() && arg_pair(#[trigger] input@[i]@) == Err::<(Seq<char>, Seq<char>), Seq<char>>(m@)
                    && forall|j: int| 0 <= j < i ==> arg_pair(#[trigger] input@[j]@) is Ok,
        },
{
    let mut out: Vec<(String, ScalarArg)> = Vec::new();
    let mut i: usize = 0;
    while i < input.len()
        invariant
            i <= input@.len(),
            out@.len() == i,
            forall|j: int|
                0 <= j < i ==> (arg_pair(#[trigger] input@[j]@) matches Ok((k, v)) && out@[j].0@ == k
                    && match scalar_of(v) {
                    ScalarArg::Unparsed(_) => out@[j].1 matches ScalarArg::Unparsed(t) && t@ == v,
                    s => out@[j].1 == s,
                }),
        decreases input@.len() - i,
    {
        match split_cli_arg(input[i].as_str()) {
            Ok((k, v)) => {
                let value = parse_scalar_arg(v.as_str());
                out.push((k, value));
            },
            Err(m) => {
                assert(forall|j: int| 0 <= j < i ==> arg_pair(#[trigger] input@[j]@) is Ok);
                return Err(m);
            },
        }
        i += 1;
    }
    Ok(out)
}

/// The seconds in a day.
pub const SECONDS_PER_DAY: i64 = 86_400;

/// Where a search from the command line starts when it names no dates:
/// `default_days` days before `now`, unless the window is switched off or
/// is zero days long.
pub open spec fn search_window_start(no_date_limit: bool, has_dates: bool, default_days: u32, now: Timestamp) -> Option<Timestamp> {
    if !no_date_limit && !has_dates && default_days > 0 {
        Some(Timestamp { secs: (now.secs - default_days * 86_400) as i64, nanos: now.nanos })
    } else {
        None
    }
}

/// The default start of a command-line search.
pub fn default_search_start(no_date_limit: bool, date_from: &Option<String>, date_to: &Option<String>, default_days: u32, now: Timestamp) -> (r: Option<Timestamp>)
    requires
        now.secs >= i64::MIN + 86_400 * 0xffff_ffff,
    ensures
        r == search_window_start(no_date_limit, date_from is Some || date_to is Some, default_days, now),
{
    if !no_date_limit && date_from.is_none() && date_to.is_none() && default_days > 0 {
        let back: i64 = default_days as i64 * SECONDS_PER_DAY;
        Some(Timestamp { secs: now.secs - back, nanos: now.nanos })
    } else {
        None
    }
}

/// The Graph application to log in with: the one `GRAPH_TENANT_ID` and
/// `GRAPH_CLIENT_ID` name when both are set; otherwise the one the running
/// daemon is configured with, when it has one; otherwise the first missing
/// variable is reported.
pub fn graph_auth_from_env(tenant_id: Option<String>, client_id: Option<String>, daemon: Option<GraphAuthConfig>) -> (r: Result<GraphAuthConfig, String>)
    ensures
        match (tenant_id, client_id) {
            (Some(t), Some(c)) => r matches Ok(a) && a.tenant_id@ == t@ && a.client_id@ == c@,
            _ => match daemon {
                Some(d) => r matches Ok(a) && a.tenant_id@ == d.tenant_id@ && a.client_id@ == d.client_id@,
                None => if tenant_id is None {
                    r matches Err(m) && m@ == "missing GRAPH_TENANT_ID in environment"@
                } else {
                    r matches Err(m) && m@ == "missing GRAPH_CLIENT_ID in environment"@
                },
            },
        },
{
    match (tenant_id, client_id) {
        (Some(t), Some(c)) => Ok(GraphAuthConfig { tenant_id: t, client_id: c }),
        (t, _) => match daemon {
            Some(d) => Ok(d),
            None => if t.is_none() {
                Err(String::from_str("missing GRAPH_TENANT_ID in environment"))
            } else {
                Err(String::from_str("missing GRAPH_CLIENT_ID in environment"))
            },
        },
    }
}

/// The message of a failed `doctor` run.
pub fn doctor_failure_message(tools_error: &Option<String>, health_error: &Option<String>) -> (r: String)
    ensures
        r@ == "doctor failed: tools_error="@ + option_debug_text(opt_string_view(*tools_error))
            + ", health_error="@ + option_debug_text(opt_string_view(*health_error)),
{
    let mut m = String::from_str("doctor failed: tools_error=");
    m.append(option_debug(tools_error).as_str());
    m.append(", health_error=");
    m.append(option_debug(health_error).as_str());
    m
}

/// The options of the daemon: its configuration file, if one is named, and
/// the Unix socket it listens on.
#[derive(Debug)]
pub struct CliOptions {
    pub config_path: Option<String>,
    pub socket_path: String,
}

/// The daemon's options read from argument `i` on, having read the given
/// configuration file and socket so far.
pub open spec fn daemon_options_from(args: Seq<Seq<char>>, i: int, config: Option<Seq<char>>, socket: Seq<char>) -> Result<(Option<Seq<char>>, Seq<char>), Seq<char>>
    decreases args.len() - i,
{
    if i < 0 || i >= args.len() {
        Ok((config, socket))
    } else {
        let a = args[i];
        if a == "--check-ntlm"@ {
            daemon_options_from(args, i + 1, config, socket)
        } else if a == "--config"@ {
            if i + 1 < args.len() {
                daemon_options_from(args, i + 2, Some(args[i + 1]), socket)
            } else {
                Err("--config requires a path value"@)
            }
        } else if a == "--transport"@ {
            if i + 1 < args.len() {
                if args[i + 1] == "unix"@ {
                    daemon_options_from(args, i + 2, config, socket)
                } else {
                    Err("unsupported transport: "@ + args[i + 1])
                }
            } else {
                Err("--transport requires a value (unix)"@)
            }
        } else if a == "--socket"@ {
            if i + 1 < args.len() {
                daemon_options_from(args, i + 2, config, args[i + 1])
            } else {
                Err("--socket requires a path value"@)
            }
        } else {
            Err("unknown argument: "@ + a)
        }
    }
}

/// The daemon's options from its arguments (the program name left out).
pub open spec fn daemon_options(args: Seq<Seq<char>>) -> Result<(Option<Seq<char>>, Seq<char>), Seq<char>> {
    daemon_options_from(args, 0, None, "/run/ews-skill/daemon.sock"@)
}

/// Reads the daemon's options from its arguments (the program name left
/// out).
pub fn parse_cli_options(args: &Vec<String>) -> (r: Result<CliOptions, String>)
    ensures
        match r {
            Ok(o) => daemon_options(args@.map_values(|s: String| s@)) == Ok::<(Option<Seq<char>>, Seq<char>), Seq<char>>(
                (opt_string_view(o.config_path), o.socket_path@),
            ),
            Err(m) => daemon_options(args@.map_values(|s: String| s@)) == Err::<(Option<Seq<char>>, Seq<char>), Seq<char>>(m@),
        },
{
    let ghost a = args@.map_values(|s: String| s@);
    let mut config_path: Option<String> = None;
    let mut socket_path = String::from_str("/run/ews-skill/daemon.sock");
    let mut i: usize = 0;
    while i < args.len()
        invariant
            i <= args@.len(),
            a == args@.map_values(|s: String| s@),
            daemon_options(a) == daemon_options_from(a, i as int, opt_string_view(config_path), socket_path@),
        decreases args@.len() - i,
    {
        let arg = args[i].as_str();
        assert(arg@ == a[i as int]);
        if str_eq(arg, "--check-ntlm") {
            i += 1;
        } else if str_eq(arg, "--config") {
            if i + 1 < args.len() {
                config_path = Some(args[i + 1].clone());
                i += 2;
            } else {
                return Err(String::from_str("--config requires a path value"));
            }
        } else if str_eq(arg, "--transport") {
            if i + 1 < args.len() {
                let value = args[i + 1].as_str();
                if str_eq(value, "unix") {
                    i += 2;
                } else {
                    let mut m = String::from_str("unsupported transport: ");
                    m.append(value);
                    return Err(m);
                }
            } else {
                return Err(String::from_str("--transport requires a value (unix)"));
            }
        } else if str_eq(arg, "--socket") {
            if i + 1 < args.len() {
                socket_path = args[i + 1].clone();
                i += 2;
            } else {
                return Err(String::from_str("--socket requires a path value"));
            }
        } else {
            let mut m = String::from_str("unknown argument: ");
            m.append(arg);
            return Err(m);
        }
    }
    Ok(CliOptions { config_path, socket_path })
}

/// Whether the arguments ask only for the NTLM check.
pub fn wants_ntlm_check(args: &Vec<String>) -> (r: bool)
    ensures
        r == exists|i: int| 0 <= i < args@.len() && #[trigger] args@[i]@ == "--check-ntlm"@,
{
    let mut i: usize = 0;
    while i < args.len()
        invariant
            i <= args@.len(),
            forall|j: int| 0 <= j < i ==> #[trigger] args@[j]@ != "--check-ntlm"@,
        decreases args@.len() - i,
    {
        if str_eq(args[i].as_str(), "--check-ntlm") {
            return true;
        }
        i += 1;
    }
    false
}

/// A count from the environment: the value when it reads as a `usize`,
/// else the default; at least one.
pub open spec fn env_count(configured: Option<Seq<char>>, default: nat) -> nat {
    let v = match configured {
        Some(s) => match parse_uint(s, 10, usize::MAX as nat) {
            Some(n) => n,
            None => default,
        },
        None => default,
    };
    if v < 1 {
        1
    } else {
        v
    }
}

fn count_setting(configured: &Option<String>, default: usize) -> (r: usize)
    ensures
        r as nat == env_count(opt_string_view(*configured), default as nat),
{
    let v: usize = match configured {
        Some(s) => {
            let c = chars_of(s.as_str());
            match parse_uint_chars(c.as_slice(), 10, usize::MAX as u64) {
                Some(n) => n as usize,
                None => default,
            }
        },
        None => default,
    };
    if v < 1 {
        1
    } else {
        v
    }
}

/// The number of worker threads, from `EWS_DAEMON_WORKERS` (8 by default).
pub fn worker_count(configured: &Option<String>) -> (r: usize)
    ensures
        r as nat == env_count(opt_string_view(*configured), 8),
        r >= 1,
{
    count_setting(configured, 8)
}

/// The capacity of the connection queue, from `EWS_DAEMON_QUEUE_CAPACITY`
/// (128 by default).
pub fn queue_capacity(configured: &Option<String>) -> (r: usize)
    ensures
        r as nat == env_count(opt_string_view(*configured), 128),
        r >= 1,
{
    count_setting(configured, 128)
}

/// JSON-RPC error codes the daemon answers with.
pub const RPC_PARSE_ERROR: i32 = -32700;
pub const RPC_INVALID_REQUEST: i32 = -32600;
pub const RPC_METHOD_NOT_FOUND: i32 = -32601;
pub const RPC_INVALID_PARAMS: i32 = -32602;
pub const RPC_SERVER_BUSY_CODE: i32 = -32010;

/// How long a refused client is asked to wait, in milliseconds.
pub const BUSY_RETRY_AFTER_MS: u64 = 250;

/// Where a JSON-RPC request goes.
#[derive(Debug)]
pub enum RpcRoute {
    /// Refused: `jsonrpc` is not `2.0`.
    InvalidVersion,
    ToolsList,
    ToolsCall,
    /// The Graph application the daemon is configured with, for a client
    /// that logs in without its own settings.
    GraphAuthConfig,
    /// No such method; the message names it.
    MethodNotFound(String),
}

/// Routes a request by its `jsonrpc` version and method.
pub fn route_request(jsonrpc: &Option<String>, method: &str) -> (r: RpcRoute)
    ensures
        opt_string_view(*jsonrpc) != Some("2.0"@) ==> r is InvalidVersion,
        opt_string_view(*jsonrpc) == Some("2.0"@) ==> if method@ == "tools.list"@ {
            r is ToolsList
        } else if method@ == "tools.call"@ {
            r is ToolsCall
        } else if method@ == "graph.auth_config"@ {
            r is GraphAuthConfig
        } else {
            r matches RpcRoute::MethodNotFound(m) && m@ == "method not found: "@ + method@
        },
{
    let version_ok = match jsonrpc {
        Some(v) => str_eq(v.as_str(), "2.0"),
        None => false,
    };
    if !version_ok {
        return RpcRoute::InvalidVersion;
    }
    if str_eq(method, "tools.list") {
        RpcRoute::ToolsList
    } else if str_eq(method, "tools.call") {
        RpcRoute::ToolsCall
    } else if str_eq(method, "graph.auth_config") {
        RpcRoute::GraphAuthConfig
    } else {
        let mut m = String::from_str("method not found: ");
        m.append(method);
        RpcRoute::MethodNotFound(m)
    }
}

/// The shape of a tool call's `args`.
#[derive(Debug, Clone, Copy, PartialEq, Eq, Structural)]
pub enum ArgsShape {
    Object,
    Null,
    Other,
}

/// What a tool call's `args` become: an object is used as given, `null`
/// as an empty object; anything else is refused.
pub fn tool_args_check(shape: ArgsShape) -> (r: Result<bool, String>)
    ensures
        shape == ArgsShape::Object ==> r == Ok::<bool, String>(true),
        shape == ArgsShape::Null ==> r == Ok::<bool, String>(false),
        shape == ArgsShape::Other ==> (r matches Err(m) && m@ == "invalid params: args must be a JSON object"@),
{
    match shape {
        ArgsShape::Object => Ok(true),
        ArgsShape::Null => Ok(false),
        ArgsShape::Other => Err(String::from_str("invalid params: args must be a JSON object")),
    }
}

} // verus!
