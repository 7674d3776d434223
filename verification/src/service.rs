//! The email service of EWS mode: the options of a listing and of a
//! search, and the health it reports.
use vstd::prelude::*;
use crate::backend::search_limit;
use crate::text::{decimal, format_u64, opt_string_view};

verus! {

/// How a cached folder's emails are listed.
#[derive(Debug)]
pub struct EmailListOptions {
    pub folder_id: Option<String>,
    pub folder_name: Option<String>,
    pub limit: Option<i32>,
    pub unread_only: Option<bool>,
}

/// Where a listing looks: a named folder is looked up by name; otherwise
/// the folder id given, if any.
#[derive(Debug)]
pub enum FolderChoice {
    ByName(String),
    ById(String),
    Nothing,
}

/// The folder a listing looks in, and its limit (50 unless given) and
/// filter (all messages unless only unread ones are asked for).
pub fn listing_plan(options: EmailListOptions) -> (r: (FolderChoice, i32, bool))
    ensures
        match options.folder_name {
            Some(n) => r.0 matches FolderChoice::ByName(m) && m@ == n@,
            None => match options.folder_id {
                Some(id) => r.0 matches FolderChoice::ById(m) && m@ == id@,
                None => r.0 is Nothing,
            },
        },
        r.1 == match options.limit {
            Some(l) => l,
            None => 50,
        },
        r.2 == match options.unread_only {
            Some(u) => u,
            None => false,
        },
{
    let choice = match options.folder_name {
        Some(n) => FolderChoice::ByName(n),
        None => match options.folder_id {
            Some(id) => FolderChoice::ById(id),
            None => FolderChoice::Nothing,
        },
    };
    let limit = match options.limit {
        Some(l) => l,
        None => 50,
    };
    let unread = match options.unread_only {
        Some(u) => u,
        None => false,
    };
    (choice, limit, unread)
}

/// The filters of a search of the cache.
#[derive(Debug)]
pub struct EmailSearchOptions {
    pub query: Option<String>,
    pub subject: Option<String>,
    pub sender: Option<String>,
    pub date_from: Option<String>,
    pub date_to: Option<String>,
    pub folder_name: Option<String>,
    pub limit: Option<i32>,
    pub include_body: Option<bool>,
}

/// The limit and body flag a cache search runs with: 50 results unless
/// given, clamped to 1..=200; the body searched unless switched off.
pub fn search_plan(options: &EmailSearchOptions) -> (r: (i32, bool))
    ensures
        r.0 == search_limit(options.limit),
        r.1 == match options.include_body {
            Some(b) => b,
            None => true,
        },
{
    let limit = crate::backend::effective_search_limit(options.limit);
    let include_body = match options.include_body {
        Some(b) => b,
        None => true,
    };
    (limit, include_body)
}

/// The health of EWS mode.
#[derive(Debug)]
pub struct HealthStatus {
    pub ews_url: String,
    pub status: String,
    pub initial_sync_in_progress: bool,
    pub progress: String,
    pub auth_ok: bool,
    pub inbox_found: bool,
    pub cached_folders: i64,
    pub cached_emails: i64,
    pub synced_folders: usize,
    pub total_folders: usize,
    pub last_sync_at: Option<String>,
}

/// The status of EWS mode: `syncing` while the first sync runs, else
/// `ready` when signed in and `auth_required` when not.
pub open spec fn ews_status(initial_sync_in_progress: bool, auth_ok: bool) -> Seq<char> {
    if initial_sync_in_progress {
        "syncing"@
    } else if auth_ok {
        "ready"@
    } else {
        "auth_required"@
    }
}

/// The health report from what was observed.
pub fn health_status(
    ews_url: String,
    auth_ok: bool,
    inbox_found: bool,
    cached_folders: i64,
    cached_emails: i64,
    synced_folders: usize,
    total_folders: usize,
    initial_sync_in_progress: bool,
    last_sync_at: Option<String>,
) -> (r: HealthStatus)
    ensures
        r.ews_url@ == ews_url@,
        r.status@ == ews_status(initial_sync_in_progress, auth_ok),
        r.progress@ == decimal(synced_folders as nat) + "/"@ + decimal(total_folders as nat)
            + " folders"@,
        r.initial_sync_in_progress == initial_sync_in_progress,
        r.auth_ok == auth_ok,
        r.inbox_found == inbox_found,
        r.cached_folders == cached_folders,
        r.cached_emails == cached_emails,
        r.synced_folders == synced_folders,
        r.total_folders == total_folders,
        opt_string_view(r.last_sync_at) == opt_string_view(last_sync_at),
{
    let status = if initial_sync_in_progress {
        String::from_str("syncing")
    } else if auth_ok {
        String::from_str("ready")
    } else {
        String::from_str("auth_required")
    };
    let mut progress = format_u64(synced_folders as u64);
    progress.append("/");
    progress.append(format_u64(total_folders as u64).as_str());
    progress.append(" folders");
    HealthStatus {
        ews_url,
        status,
        initial_sync_in_progress,
        progress,
        auth_ok,
        inbox_found,
        cached_folders,
        cached_emails,
        synced_folders,
        total_folders,
        last_sync_at,
    }
}

} // verus!
