//! The configuration: its defaults, its check, and how environment values
//! override the defaults.
use vstd::prelude::*;
use crate::models::views;
use crate::text::{
    chars_eq_str, chars_of, eq_ignore_ascii_case, parse_u32, parse_u64, parse_uint, push_char,
    str_eq_ignore_ascii_case, string_from_chars, trim, trim_chars,
};

verus! {

/// Why a configuration was refused.
#[derive(Debug)]
pub enum ConfigError {
    LoadError(String),
    MissingField(String),
}

impl ConfigError {
    /// The message of the error, as it is shown.
    pub fn message(&self) -> (r: String)
        ensures
            r@ == match self {
                ConfigError::LoadError(s) => "Failed to load config: "@ + s@,
                ConfigError::MissingField(s) => "Missing required field: "@ + s@,
            },
    {
        match self {
            ConfigError::LoadError(s) => {
                let mut m = String::from_str("Failed to load config: ");
                m.append(s.as_str());
                m
            },
            ConfigError::MissingField(s) => {
                let mut m = String::from_str("Missing required field: ");
                m.append(s.as_str());
                m
            },
        }
    }
}

/// The whole configuration.
#[derive(Debug)]
pub struct Config {
    pub exchange: ExchangeConfig,
    pub cache: CacheConfig,
    pub sync: SyncConfig,
    /// `ews` or `graph`.
    pub mail_protocol: String,
    pub graph: GraphConfig,
}

/// How to reach an on-premises Exchange server.
#[derive(Debug)]
pub struct ExchangeConfig {
    pub username: String,
    pub password: String,
    pub email: String,
    pub autodiscover: bool,
    pub ews_url: Option<String>,
    pub auth_mode: String,
    pub retry_max_attempts: u32,
    pub retry_base_ms: u64,
    pub retry_max_backoff_ms: u64,
}

/// The application registration used with Microsoft Graph.
#[derive(Debug)]
pub struct GraphConfig {
    pub tenant_id: String,
    pub client_id: String,
}

/// Where and how the cache is kept.
#[derive(Debug)]
pub struct CacheConfig {
    pub path: String,
    pub initial_sync: bool,
    pub max_cached_emails: i64,
}

/// What is synchronised, and how often.
#[derive(Debug)]
pub struct SyncConfig {
    pub folders: Vec<String>,
    pub interval_seconds: u64,
    pub initial_sync: bool,
    pub lookback_days: u32,
}

/// The authentication mode when none is configured.
pub fn default_auth_mode() -> (r: String)
    ensures
        r@ == "basic"@,
{
    "basic".to_owned()
}

/// Attempts per request when none are configured.
pub fn default_retry_max_attempts() -> (r: u32)
    ensures
        r == 5,
{
    5
}

/// The first retry delay when none is configured.
pub fn default_retry_base_ms() -> (r: u64)
    ensures
        r == 500,
{
    500
}

/// The largest retry delay when none is configured.
pub fn default_retry_max_backoff_ms() -> (r: u64)
    ensures
        r == 10_000,
{
    10_000
}

/// `true`, the default of the switches.
pub fn default_true() -> (r: bool)
    ensures
        r,
{
    true
}

/// The most emails the cache keeps when no limit is configured.
pub fn default_max_cached_emails() -> (r: i64)
    ensures
        r == 10000,
{
    10000
}

/// The folders synchronised when none are configured: the inbox.
pub fn default_folders() -> (r: Vec<String>)
    ensures
        views(r@) == seq!["inbox"@],
{
    let mut v: Vec<String> = Vec::new();
    v.push("inbox".to_owned());
    assert(views(v@) =~= seq!["inbox"@]);
    v
}

/// Seconds between synchronisations when none are configured.
pub fn default_interval() -> (r: u64)
    ensures
        r == 30,
{
    30
}

/// Days of history synchronised when none are configured.
pub fn default_lookback_days() -> (r: u32)
    ensures
        r == 7,
{
    7
}

/// The protocol when none is configured.
pub fn default_mail_protocol() -> (r: String)
    ensures
        r@ == "ews"@,
{
    "ews".to_owned()
}

impl ExchangeConfig {
    /// An Exchange configuration with no account, the default modes and
    /// retry settings.
    pub fn default_values() -> (r: ExchangeConfig)
        ensures
            r.username@ == Seq::<char>::empty(),
            r.password@ == Seq::<char>::empty(),
            r.email@ == Seq::<char>::empty(),
            !r.autodiscover,
            r.ews_url is None,
            r.auth_mode@ == "basic"@,
            r.retry_max_attempts == 5,
            r.retry_base_ms == 500,
            r.retry_max_backoff_ms == 10_000,
    {
        ExchangeConfig {
            username: String::new(),
            password: String::new(),
            email: String::new(),
            autodiscover: false,
            ews_url: None,
            auth_mode: default_auth_mode(),
            retry_max_attempts: default_retry_max_attempts(),
            retry_base_ms: default_retry_base_ms(),
            retry_max_backoff_ms: default_retry_max_backoff_ms(),
        }
    }

    /// Checks that an account is named and a password given.
    pub fn validate(&self) -> (r: Result<(), ConfigError>)
        ensures
            (self.username@.len() == 0 && self.email@.len() == 0) ==> (r matches Err(
                ConfigError::MissingField(f),
            ) && f@ == "username or email"@),
            !(self.username@.len() == 0 && self.email@.len() == 0) && self.password@.len() == 0
                ==> (r matches Err(ConfigError::MissingField(f)) && f@ == "password"@),
            r is Ok <==> (!(self.username@.len() == 0 && self.email@.len() == 0)
                && self.password@.len() > 0),
    {
        if self.username.as_str().is_empty() && self.email.as_str().is_empty() {
            return Err(ConfigError::MissingField("username or email".to_owned()));
        }
        if self.password.as_str().is_empty() {
            return Err(ConfigError::MissingField("password".to_owned()));
        }
        Ok(())
    }
}

impl CacheConfig {
    /// The cache settings by default, kept at `path`.
    pub fn default_at(path: String) -> (r: CacheConfig)
        ensures
            r.path == path,
            r.initial_sync,
            r.max_cached_emails == 10000,
    {
        CacheConfig { path, initial_sync: true, max_cached_emails: 10000 }
    }
}

impl SyncConfig {
    /// The synchronisation settings by default.
    pub fn default_values() -> (r: SyncConfig)
        ensures
            views(r.folders@) == seq!["inbox"@],
            r.interval_seconds == 30,
            r.initial_sync,
            r.lookback_days == 7,
    {
        SyncConfig {
            folders: default_folders(),
            interval_seconds: default_interval(),
            initial_sync: true,
            lookback_days: default_lookback_days(),
        }
    }
}

/// A protocol name that selects Microsoft Graph.
pub open spec fn is_graph(protocol: Seq<char>) -> bool {
    eq_ignore_ascii_case(protocol, "graph"@)
}

/// Whether the protocol name selects Microsoft Graph.
pub fn is_graph_protocol(protocol: &str) -> (r: bool)
    ensures
        r == is_graph(protocol@),
{
    str_eq_ignore_ascii_case(protocol, "graph")
}

impl Config {
    /// The configuration by default, with its cache at `cache_path`.
    pub fn default_with_cache_path(cache_path: String) -> (r: Config)
        ensures
            r.exchange.username@ == Seq::<char>::empty(),
            r.exchange.password@ == Seq::<char>::empty(),
            r.exchange.email@ == Seq::<char>::empty(),
            !r.exchange.autodiscover,
            r.exchange.ews_url is None,
            r.exchange.auth_mode@ == "basic"@,
            r.exchange.retry_max_attempts == 5,
            r.exchange.retry_base_ms == 500,
            r.exchange.retry_max_backoff_ms == 10_000,
            r.cache.path == cache_path,
            r.cache.initial_sync,
            r.cache.max_cached_emails == 10000,
            views(r.sync.folders@) == seq!["inbox"@],
            r.sync.interval_seconds == 30,
            r.sync.initial_sync,
            r.sync.lookback_days == 7,
            r.mail_protocol@ == "ews"@,
            r.graph.tenant_id@ == Seq::<char>::empty(),
            r.graph.client_id@ == Seq::<char>::empty(),
    {
        Config {
            exchange: ExchangeConfig::default_values(),
            cache: CacheConfig::default_at(cache_path),
            sync: SyncConfig::default_values(),
            mail_protocol: default_mail_protocol(),
            graph: GraphConfig { tenant_id: String::new(), client_id: String::new() },
        }
    }

    /// The check a loaded configuration passes: in EWS mode the Exchange
    /// account must be complete; Graph mode needs no Exchange account.
    pub fn checked(self) -> (r: Result<Config, ConfigError>)
        ensures
            is_graph(self.mail_protocol@) ==> r is Ok,
            !is_graph(self.mail_protocol@) ==> (r is Ok <==> (!(self.exchange.username@.len() == 0
                && self.exchange.email@.len() == 0) && self.exchange.password@.len() > 0)),
            r matches Ok(c) ==> c == self,
            !is_graph(self.mail_protocol@) && self.exchange.username@.len() == 0
                && self.exchange.email@.len() == 0 ==> (r matches Err(ConfigError::MissingField(f))
                && f@ == "username or email"@),
            !is_graph(self.mail_protocol@) && !(self.exchange.username@.len() == 0
                && self.exchange.email@.len() == 0) && self.exchange.password@.len() == 0 ==> (r matches Err(
                ConfigError::MissingField(f),
            ) && f@ == "password"@),
    {
        if is_graph_protocol(self.mail_protocol.as_str()) {
            return Ok(self);
        }
        match self.exchange.validate() {
            Ok(()) => Ok(self),
            Err(e) => Err(e),
        }
    }
}

/// One folder of a comma-separated list: trimmed, dropped when empty.
pub open spec fn keep_piece(cur: Seq<char>) -> Seq<Seq<char>> {
    if trim(cur).len() > 0 {
        seq![trim(cur)]
    } else {
        seq![]
    }
}

/// The folders of a comma-separated list from position `i` on, `cur` being
/// the part of the current piece already read.
pub open spec fn folders_scan(s: Seq<char>, i: int, cur: Seq<char>) -> Seq<Seq<char>>
    decreases s.len() - i,
{
    if i < 0 || i >= s.len() {
        keep_piece(cur)
    } else if s[i] == ',' {
        keep_piece(cur) + folders_scan(s, i + 1, seq![])
    } else {
        folders_scan(s, i + 1, cur.push(s[i]))
    }
}

/// The folders a comma-separated list names: the pieces between commas,
/// trimmed, empty ones left out.
pub open spec fn folder_list(s: Seq<char>) -> Seq<Seq<char>> {
    folders_scan(s, 0, seq![])
}

fn push_piece(out: &mut Vec<String>, cur: &Vec<char>)
    ensures
        views(final(out)@) == views(old(out)@) + keep_piece(cur@),
{
    let t = trim_chars(cur.as_slice());
    if t.len() > 0 {
        let ghost before = out@;
        out.push(string_from_chars(t.as_slice()));
        assert(views(out@) =~= views(before) + keep_piece(cur@));
    } else {
        assert(views(out@) =~= views(out@) + keep_piece(cur@));
    }
}

/// The folders a comma-separated list names.
pub fn parse_folder_list(value: &str) -> (r: Vec<String>)
    ensures
        views(r@) == folder_list(value@),
{
    let s = chars_of(value);
    let mut out: Vec<String> = Vec::new();
    let mut cur: Vec<char> = Vec::new();
    let mut i: usize = 0;
    assert(views(out@) =~= Seq::<Seq<char>>::empty());
    while i < s.len()
        invariant
            i <= s@.len(),
            views(out@) + folders_scan(s@, i as int, cur@) == folders_scan(s@, 0, seq![]),
        decreases s.len() - i,
    {
        if s[i] == ',' {
            let ghost before = views(out@);
            push_piece(&mut out, &cur);
            assert(views(out@) + folders_scan(s@, i + 1, seq![]) =~= before + folders_scan(
                s@,
                i as int,
                cur@,
            ));
            cur = Vec::new();
            assert(cur@ =~= Seq::<char>::empty());
        } else {
            cur.push(s[i]);
        }
        i += 1;
    }
    let ghost before = views(out@);
    push_piece(&mut out, &cur);
    assert(views(out@) =~= before + folders_scan(s@, i as int, cur@));
    out
}

/// A switch value that turns a setting on: `true` or `yes` in any case, or `1`.
pub open spec fn is_truthy(v: Seq<char>) -> bool {
    eq_ignore_ascii_case(v, "true"@) || v == "1"@ || eq_ignore_ascii_case(v, "yes"@)
}

/// Whether a switch value turns a setting on.
pub fn parse_truthy(v: &str) -> (r: bool)
    ensures
        r == is_truthy(v@),
{
    let c = chars_of(v);
    str_eq_ignore_ascii_case(v, "true") || chars_eq_str(c.as_slice(), "1") || str_eq_ignore_ascii_case(
        v,
        "yes",
    )
}

/// The environment values that configure the library, each as read
/// (`None` when the variable is not set).
#[derive(Debug, Default)]
pub struct EnvValues {
    pub ews_username: Option<String>,
    pub ews_password: Option<String>,
    pub ews_email: Option<String>,
    pub ews_url: Option<String>,
    pub ews_autodiscover: Option<String>,
    pub ews_auth_mode: Option<String>,
    pub ews_retry_max_attempts: Option<String>,
    pub ews_retry_base_ms: Option<String>,
    pub ews_retry_max_backoff_ms: Option<String>,
    pub ews_sync_folders: Option<String>,
    pub ews_sync_interval_seconds: Option<String>,
    pub ews_sync_lookback_days: Option<String>,
    pub mail_protocol: Option<String>,
    pub graph_tenant_id: Option<String>,
    pub graph_client_id: Option<String>,
}

/// A text setting: the value of the variable when set, else the default.
pub open spec fn text_setting(v: Option<String>, default: Seq<char>) -> Seq<char> {
    match v {
        Some(s) => s@,
        None => default,
    }
}

/// A number setting: the variable's value when it parses as a number not
/// above `max`, else the default.
pub open spec fn number_setting(v: Option<String>, max: nat, default: nat) -> nat {
    match v {
        Some(s) => match parse_uint(s@, 10, max) {
            Some(n) => n,
            None => default,
        },
        None => default,
    }
}

fn text_or(v: &Option<String>, default: String) -> (r: String)
    ensures
        r@ == text_setting(*v, default@),
{
    match v {
        Some(s) => s.clone(),
        None => default,
    }
}

fn u64_or(v: &Option<String>, default: u64) -> (r: u64)
    ensures
        r as nat == number_setting(*v, u64::MAX as nat, default as nat),
{
    match v {
        Some(s) => match parse_u64(s.as_str()) {
            Some(n) => n,
            None => default,
        },
        None => default,
    }
}

fn u32_or(v: &Option<String>, default: u32) -> (r: u32)
    ensures
        r as nat == number_setting(*v, u32::MAX as nat, default as nat),
{
    match v {
        Some(s) => match parse_u32(s.as_str()) {
            Some(n) => n,
            None => default,
        },
        None => default,
    }
}

impl Config {
    /// The configuration that the environment values give: each variable
    /// that is set overrides its default (a number only when it parses),
    /// and the result is checked as [`Config::checked`] does.
    pub fn from_env_values(env: &EnvValues, cache_path: String) -> (r: Result<Config, ConfigError>)
        ensures
            ({
                let username = text_setting(env.ews_username, seq![]);
                let password = text_setting(env.ews_password, seq![]);
                let email = text_setting(env.ews_email, seq![]);
                let protocol = text_setting(env.mail_protocol, "ews"@);
                &&& is_graph(protocol) ==> r is Ok
                &&& !is_graph(protocol) ==> (r is Ok <==> (!(username.len() == 0 && email.len()
                    == 0) && password.len() > 0))
                &&& r matches Ok(c) ==> {
                    &&& c.exchange.username@ == username
                    &&& c.exchange.password@ == password
                    &&& c.exchange.email@ == email
                    &&& c.exchange.ews_url == env.ews_url
                    &&& c.exchange.autodiscover == match env.ews_autodiscover {
                        Some(v) => is_truthy(v@),
                        None => false,
                    }
                    &&& c.exchange.auth_mode@ == text_setting(env.ews_auth_mode, "basic"@)
                    &&& c.exchange.retry_max_attempts as nat == number_setting(
                        env.ews_retry_max_attempts,
                        u32::MAX as nat,
                        5,
                    )
                    &&& c.exchange.retry_base_ms as nat == number_setting(
                        env.ews_retry_base_ms,
                        u64::MAX as nat,
                        500,
                    )
                    &&& c.exchange.retry_max_backoff_ms as nat == number_setting(
                        env.ews_retry_max_backoff_ms,
                        u64::MAX as nat,
                        10_000,
                    )
                    &&& views(c.sync.folders@) == match env.ews_sync_folders {
                        Some(v) => folder_list(v@),
                        None => seq!["inbox"@],
                    }
                    &&& c.sync.interval_seconds as nat == number_setting(
                        env.ews_sync_interval_seconds,
                        u64::MAX as nat,
                        30,
                    )
                    &&& c.sync.lookback_days as nat == number_setting(
                        env.ews_sync_lookback_days,
                        u32::MAX as nat,
                        7,
                    )
                    &&& c.sync.initial_sync
                    &&& c.cache.path == cache_path
                    &&& c.cache.initial_sync
                    &&& c.cache.max_cached_emails == 10000
                    &&& c.mail_protocol@ == protocol
                    &&& c.graph.tenant_id@ == text_setting(env.graph_tenant_id, seq![])
                    &&& c.graph.client_id@ == text_setting(env.graph_client_id, seq![])
                }
            }),
    {
        let exchange = ExchangeConfig {
            username: text_or(&env.ews_username, String::new()),
            password: text_or(&env.ews_password, String::new()),
            email: text_or(&env.ews_email, String::new()),
            autodiscover: match &env.ews_autodiscover {
                Some(v) => parse_truthy(v.as_str()),
                None => false,
            },
            ews_url: env.ews_url.clone(),
            auth_mode: text_or(&env.ews_auth_mode, default_auth_mode()),
            retry_max_attempts: u32_or(&env.ews_retry_max_attempts, 5),
            retry_base_ms: u64_or(&env.ews_retry_base_ms, 500),
            retry_max_backoff_ms: u64_or(&env.ews_retry_max_backoff_ms, 10_000),
        };
        let folders = match &env.ews_sync_folders {
            Some(v) => parse_folder_list(v.as_str()),
            None => default_folders(),
        };
        let sync = SyncConfig {
            folders,
            interval_seconds: u64_or(&env.ews_sync_interval_seconds, 30),
            initial_sync: true,
            lookback_days: u32_or(&env.ews_sync_lookback_days, 7),
        };
        let config = Config {
            exchange,
            cache: CacheConfig::default_at(cache_path),
            sync,
            mail_protocol: text_or(&env.mail_protocol, default_mail_protocol()),
            graph: GraphConfig {
                tenant_id: text_or(&env.graph_tenant_id, String::new()),
                client_id: text_or(&env.graph_client_id, String::new()),
            },
        };
        config.checked()
    }
}

} // verus!
