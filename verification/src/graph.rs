//! The Microsoft Graph backend: delegated sign-in and its token cache, the
//! requests the client makes, and how Graph messages become cached emails.
//! HTTP, the token file and the clock are handled outside this library; the
//! decisions they feed are made here.
use vstd::prelude::*;
use crate::models::CachedEmail;
use crate::text::{
    ascii_lower_seq, ascii_lowercase_chars, chars_eq_str, chars_of, contains, decimal, format_i64,
    format_u64, is_blank, opt_string_view, signed_decimal, str_contains, str_eq_ignore_ascii_case,
    string_from_chars, trim, trim_chars, trim_str, eq_ignore_ascii_case,
};
use crate::time::{parse_rfc3339, rfc3339_instant, ts_before, Timestamp};
use crate::xml::{str_lowercase, to_lowercase};

verus! {

/// The Azure AD application a delegated sign-in goes through.
#[derive(Debug, Clone)]
pub struct GraphAuthConfig {
    pub tenant_id: String,
    pub client_id: String,
}

/// The delegated tokens kept between runs.
#[derive(Debug)]
pub struct TokenCache {
    pub access_token: String,
    pub refresh_token: String,
    pub expires_at: Timestamp,
}

/// An answer of the token endpoint.
#[derive(Debug)]
pub struct TokenResponse {
    pub access_token: Option<String>,
    pub refresh_token: Option<String>,
    pub expires_in: Option<i64>,
    pub error: Option<String>,
    pub error_description: Option<String>,
}

/// Whether a delegated token can be had, and if not, why: from the outcome
/// of getting one.
pub fn token_state(access: Result<String, String>) -> (r: (bool, Option<String>))
    ensures
        access is Ok ==> r.0 && r.1 is None,
        access is Err ==> !r.0 && opt_string_view(r.1) == Some(access->Err_0@),
{
    match access {
        Ok(_) => (true, None),
        Err(e) => (false, Some(e)),
    }
}

/// The scopes asked for: the configured ones, trimmed, unless blank.
pub open spec fn scopes_of(configured: Option<Seq<char>>) -> Seq<char> {
    match configured {
        Some(v) => if trim(v).len() > 0 {
            trim(v)
        } else {
            "offline_access User.Read Mail.Read Mail.ReadWrite Mail.Send"@
        },
        None => "offline_access User.Read Mail.Read Mail.ReadWrite Mail.Send"@,
    }
}

/// The scopes to request, from the value of `GRAPH_SCOPES` if it is set.
pub fn requested_scopes(configured: Option<String>) -> (r: String)
    ensures
        r@ == scopes_of(opt_string_view(configured)),
{
    match configured {
        Some(v) => {
            let t = trim_str(v.as_str());
            if !t.as_str().is_empty() {
                t
            } else {
                String::from_str("offline_access User.Read Mail.Read Mail.ReadWrite Mail.Send")
            }
        },
        None => String::from_str("offline_access User.Read Mail.Read Mail.ReadWrite Mail.Send"),
    }
}

/// The names of Graph's well-known mail folders.
pub open spec fn well_known_folder(v: Seq<char>) -> bool {
    ||| v == "archive"@
    ||| v == "clutter"@
    ||| v == "conflicts"@
    ||| v == "conversationhistory"@
    ||| v == "deleteditems"@
    ||| v == "drafts"@
    ||| v == "inbox"@
    ||| v == "junkemail"@
    ||| v == "localfailures"@
    ||| v == "msgfolderroot"@
    ||| v == "outbox"@
    ||| v == "recoverableitemsdeletions"@
    ||| v == "scheduled"@
    ||| v == "searchfolders"@
    ||| v == "sentitems"@
    ||| v == "serverfailures"@
    ||| v == "syncissues"@
    ||| v == "allitems"@
}

/// Whether a name is one of Graph's well-known folder names.
pub fn is_well_known_folder_name(value: &str) -> (r: bool)
    ensures
        r == well_known_folder(value@),
{
    let v = chars_of(value);
    let v = v.as_slice();
    chars_eq_str(v, "archive") || chars_eq_str(v, "clutter") || chars_eq_str(v, "conflicts")
        || chars_eq_str(v, "conversationhistory") || chars_eq_str(v, "deleteditems")
        || chars_eq_str(v, "drafts") || chars_eq_str(v, "inbox") || chars_eq_str(v, "junkemail")
        || chars_eq_str(v, "localfailures") || chars_eq_str(v, "msgfolderroot") || chars_eq_str(
        v,
        "outbox",
    ) || chars_eq_str(v, "recoverableitemsdeletions") || chars_eq_str(v, "scheduled")
        || chars_eq_str(v, "searchfolders") || chars_eq_str(v, "sentitems") || chars_eq_str(
        v,
        "serverfailures",
    ) || chars_eq_str(v, "syncissues") || chars_eq_str(v, "allitems")
}

/// `needle` occurs in `hay` once both are lower-cased with
/// `str::to_lowercase`.
pub open spec fn contains_ci_spec(hay: Seq<char>, needle: Seq<char>) -> bool {
    contains(str_lowercase(hay), str_lowercase(needle))
}

/// Case-insensitive containment.
pub fn contains_ci(hay: &str, needle: &str) -> (r: bool)
    ensures
        r == contains_ci_spec(hay@, needle@),
{
    let h = to_lowercase(hay);
    let n = to_lowercase(needle);
    str_contains(h.as_str(), n.as_str())
}

/// An address as Graph gives it.
#[derive(Debug, Clone)]
pub struct GraphAddress {
    pub address: Option<String>,
    pub name: Option<String>,
}

/// A recipient as Graph gives it.
#[derive(Debug, Clone)]
pub struct GraphRecipient {
    pub email_address: Option<GraphAddress>,
}

/// The address of a recipient, when it has one.
pub open spec fn recipient_address(r: GraphRecipient) -> Option<Seq<char>> {
    match r.email_address {
        Some(a) => opt_string_view(a.address),
        None => None,
    }
}

/// The addresses of the recipients that have one, in order.
pub open spec fn recipient_addresses(v: Seq<GraphRecipient>) -> Seq<Seq<char>>
    decreases v.len(),
{
    if v.len() == 0 {
        seq![]
    } else {
        let rest = recipient_addresses(v.drop_last());
        match recipient_address(v.last()) {
            Some(a) => rest.push(a),
            None => rest,
        }
    }
}

/// The recipients' addresses (none when the list is absent).
pub fn recipients_to_vec(values: Option<Vec<GraphRecipient>>) -> (r: Vec<String>)
    ensures
        r@.map_values(|s: String| s@) == match values {
            Some(v) => recipient_addresses(v@),
            None => seq![],
        },
{
    let mut out: Vec<String> = Vec::new();
    match values {
        Some(v) => {
            let mut i: usize = 0;
            while i < v.len()
                invariant
                    i <= v@.len(),
                    out@.map_values(|s: String| s@) == recipient_addresses(v@.subrange(0, i as int)),
                decreases v@.len() - i,
            {
                assert(v@.subrange(0, i + 1).drop_last() =~= v@.subrange(0, i as int));
                match &v[i].email_address {
                    Some(a) => match &a.address {
                        Some(addr) => {
                            out.push(addr.clone());
                        },
                        None => {},
                    },
                    None => {},
                }
                i += 1;
                assert(out@.map_values(|s: String| s@) =~= recipient_addresses(
                    v@.subrange(0, i as int),
                ));
            }
            assert(v@.subrange(0, v@.len() as int) =~= v@);
            out
        },
        None => {
            assert(out@.map_values(|s: String| s@) =~= Seq::<Seq<char>>::empty());
            out
        },
    }
}

/// A mail folder as Graph lists it.
#[derive(Debug, Clone)]
pub struct GraphFolder {
    pub id: String,
    pub display_name: String,
    pub unread_count: i32,
    pub total_count: i32,
}


/// `v` limited to `lo ..= hi`, as `i32::clamp`.
pub open spec fn clamp_i32(v: i32, lo: i32, hi: i32) -> i32 {
    if v < lo {
        lo
    } else if v > hi {
        hi
    } else {
        v
    }
}

fn clamp(v: i32, lo: i32, hi: i32) -> (r: i32)
    requires
        lo <= hi,
    ensures
        r == clamp_i32(v, lo, hi),
{
    if v < lo {
        lo
    } else if v > hi {
        hi
    } else {
        v
    }
}

/// The first page of the folder listing.
pub open spec fn folders_url() -> Seq<char> {
    "https://graph.microsoft.com/v1.0/me/mailFolders?$top=100"@
}

/// The URL of the first folder listing page.
pub fn list_folders_url() -> (r: String)
    ensures
        r@ == folders_url(),
{
    String::from_str("https://graph.microsoft.com/v1.0/me/mailFolders?$top=100")
}

/// The newest `limit` messages of a folder (1 to 200), only unread ones
/// when asked.
pub open spec fn folder_messages_url(folder: Seq<char>, limit: i32, unread_only: bool) -> Seq<char> {
    "https://graph.microsoft.com/v1.0/me/mailFolders/"@ + folder + "/messages?$top="@
        + signed_decimal(clamp_i32(limit, 1, 200) as int) + "&$orderby=receivedDateTime%20desc"@
        + if unread_only {
        "&$filter=isRead%20eq%20false"@
    } else {
        seq![]
    }
}

/// The URL that lists a folder's messages.
pub fn list_emails_url(folder_name: &str, limit: i32, unread_only: bool) -> (r: String)
    ensures
        r@ == folder_messages_url(folder_name@, limit, unread_only),
{
    let top = clamp(limit, 1, 200);
    let mut url = String::from_str("https://graph.microsoft.com/v1.0/me/mailFolders/");
    url.append(folder_name);
    url.append("/messages?$top=");
    url.append(format_i64(top as i64).as_str());
    url.append("&$orderby=receivedDateTime%20desc");
    if unread_only {
        url.append("&$filter=isRead%20eq%20false");
    }
    url
}

/// A message with the fields the cache keeps.
pub open spec fn message_read_url(id: Seq<char>) -> Seq<char> {
    "https://graph.microsoft.com/v1.0/me/messages/"@ + id
        + "?$select=id,subject,from,toRecipients,ccRecipients,receivedDateTime,sentDateTime,isRead,hasAttachments,importance,body,bodyPreview"@
}

/// The URL that reads one message.
pub fn read_email_url(id: &str) -> (r: String)
    ensures
        r@ == message_read_url(id@),
{
    let mut url = String::from_str("https://graph.microsoft.com/v1.0/me/messages/");
    url.append(id);
    url.append(
        "?$select=id,subject,from,toRecipients,ccRecipients,receivedDateTime,sentDateTime,isRead,hasAttachments,importance,body,bodyPreview",
    );
    url
}

/// A message resource.
pub open spec fn message_url(id: Seq<char>) -> Seq<char> {
    "https://graph.microsoft.com/v1.0/me/messages/"@ + id
}

/// The URL of a message, for updating or deleting it.
pub fn message_resource_url(id: &str) -> (r: String)
    ensures
        r@ == message_url(id@),
{
    let mut url = String::from_str("https://graph.microsoft.com/v1.0/me/messages/");
    url.append(id);
    url
}

/// A mail folder resource.
pub open spec fn folder_url(id: Seq<char>) -> Seq<char> {
    "https://graph.microsoft.com/v1.0/me/mailFolders/"@ + id
}

/// The URL of a mail folder, for reading its name and counts.
pub fn folder_resource_url(id: &str) -> (r: String)
    ensures
        r@ == folder_url(id@),
{
    let mut url = String::from_str("https://graph.microsoft.com/v1.0/me/mailFolders/");
    url.append(id);
    url
}

/// How a message is deleted in Graph mode.
#[derive(Debug)]
pub enum GraphDelete {
    /// Remove the message at this URL for good.
    Remove(String),
    /// Move the message to this folder.
    MoveTo(String),
}

/// Deleting a message: skipping the trash removes it; otherwise it is
/// moved to Deleted Items.
pub fn delete_plan(id: &str, skip_trash: bool) -> (r: GraphDelete)
    ensures
        skip_trash ==> (r matches GraphDelete::Remove(u) && u@ == message_url(id@)),
        !skip_trash ==> (r matches GraphDelete::MoveTo(f) && f@ == "deleteditems"@),
{
    if skip_trash {
        GraphDelete::Remove(message_resource_url(id))
    } else {
        GraphDelete::MoveTo(String::from_str("deleteditems"))
    }
}

/// The account a Graph-mode cache belongs to: the tenant and the
/// application it signs in with.
pub fn graph_account_scope(tenant_id: &str, client_id: &str) -> (r: String)
    ensures
        r@ == "graph:"@ + tenant_id@ + ":"@ + client_id@,
{
    let mut s = String::from_str("graph:");
    s.append(tenant_id);
    s.append(":");
    s.append(client_id);
    s
}

/// The move action of a message.
pub open spec fn message_move_url(id: Seq<char>) -> Seq<char> {
    "https://graph.microsoft.com/v1.0/me/messages/"@ + id + "/move"@
}

/// The URL that moves a message.
pub fn move_email_url(id: &str) -> (r: String)
    ensures
        r@ == message_move_url(id@),
{
    let mut url = String::from_str("https://graph.microsoft.com/v1.0/me/messages/");
    url.append(id);
    url.append("/move");
    url
}

/// The URL that sends a message.
pub fn send_mail_url() -> (r: String)
    ensures
        r@ == "https://graph.microsoft.com/v1.0/me/sendMail"@,
{
    String::from_str("https://graph.microsoft.com/v1.0/me/sendMail")
}

/// Where a request that needs a token says why it has none.
pub open spec fn auth_required_message(e: Seq<char>) -> Seq<char> {
    "graph auth required: "@ + e + ". run `ews_skillctl login`"@
}

/// The error of a request made without a usable token.
pub fn auth_required_error(e: &str) -> (r: String)
    ensures
        r@ == auth_required_message(e@),
{
    let mut m = String::from_str("graph auth required: ");
    m.append(e);
    m.append(". run `ews_skillctl login`");
    m
}

/// `s` without its double quotes.
pub open spec fn without_quotes(s: Seq<char>) -> Seq<char>
    decreases s.len(),
{
    if s.len() == 0 {
        seq![]
    } else if s.last() == '"' {
        without_quotes(s.drop_last())
    } else {
        without_quotes(s.drop_last()).push(s.last())
    }
}

fn remove_quotes(s: &str) -> (r: String)
    ensures
        r@ == without_quotes(s@),
{
    let v = chars_of(s);
    let mut out: Vec<char> = Vec::new();
    let mut i: usize = 0;
    while i < v.len()
        invariant
            i <= v@.len(),
            out@ == without_quotes(v@.subrange(0, i as int)),
        decreases v@.len() - i,
    {
        assert(v@.subrange(0, i + 1).drop_last() =~= v@.subrange(0, i as int));
        if v[i] != '"' {
            out.push(v[i]);
        }
        i += 1;
    }
    assert(v@.subrange(0, v@.len() as int) =~= v@);
    string_from_chars(out.as_slice())
}

/// Messages of a resolved folder, or of the whole mailbox.
pub open spec fn search_base(folder: Option<Seq<char>>) -> Seq<char> {
    match folder {
        Some(f) => "https://graph.microsoft.com/v1.0/me/mailFolders/"@ + f + "/messages"@,
        None => "https://graph.microsoft.com/v1.0/me/messages"@,
    }
}

/// The first page of a search: a `$search` for a non-blank query (its
/// double quotes dropped), else the newest messages; 200 per page.
pub open spec fn search_first_url(folder: Option<Seq<char>>, query: Option<Seq<char>>) -> Seq<char> {
    match query {
        Some(q) => if trim(q).len() > 0 {
            search_base(folder) + "?$top=200&$search=\""@ + without_quotes(q) + "\""@
        } else {
            search_base(folder) + "?$top=200&$orderby=receivedDateTime%20desc"@
        },
        None => search_base(folder) + "?$top=200&$orderby=receivedDateTime%20desc"@,
    }
}

/// The URL of the first page of a search.
pub fn search_url(resolved_folder: &Option<String>, query: &Option<String>) -> (r: String)
    ensures
        r@ == search_first_url(opt_string_view(*resolved_folder), opt_string_view(*query)),
{
    let mut url = match resolved_folder {
        Some(f) => {
            let mut b = String::from_str("https://graph.microsoft.com/v1.0/me/mailFolders/");
            b.append(f.as_str());
            b.append("/messages");
            b
        },
        None => String::from_str("https://graph.microsoft.com/v1.0/me/messages"),
    };
    match query {
        Some(q) => {
            if !is_blank(q.as_str()) {
                url.append("?$top=200&$search=\"");
                url.append(remove_quotes(q.as_str()).as_str());
                url.append("\"");
                return url;
            }
        },
        None => {},
    }
    url.append("?$top=200&$orderby=receivedDateTime%20desc");
    url
}

/// An optional filter text that is given and not blank.
pub open spec fn given(v: Option<Seq<char>>) -> bool {
    match v {
        Some(s) => trim(s).len() > 0,
        None => false,
    }
}

fn is_given(v: &Option<String>) -> (r: bool)
    ensures
        r == given(opt_string_view(*v)),
{
    match v {
        Some(s) => !is_blank(s.as_str()),
        None => false,
    }
}

/// Whether a search sends the `ConsistencyLevel: eventual` header: when it
/// has a query.
pub fn search_needs_eventual(query: &Option<String>) -> (r: bool)
    ensures
        r == given(opt_string_view(*query)),
{
    is_given(query)
}

/// The filters of a Graph search.
#[derive(Debug)]
pub struct GraphSearchOptions {
    pub query: Option<String>,
    pub subject: Option<String>,
    pub sender: Option<String>,
    pub date_from: Option<Timestamp>,
    pub date_to: Option<Timestamp>,
    pub folder_name: Option<String>,
    pub limit: i32,
    pub include_body: bool,
}

/// Whether a message passes the filters the server did not apply: subject
/// and sender (case-insensitive), a query over subject and sender when the
/// body is not searched, and the received-time window.
pub open spec fn passes_filter(email: CachedEmail, options: GraphSearchOptions) -> bool {
    &&& given(opt_string_view(options.subject)) ==> contains_ci_spec(
        email.subject@,
        options.subject->0@,
    )
    &&& given(opt_string_view(options.sender)) ==> (contains_ci_spec(
        email.sender_email@,
        options.sender->0@,
    ) || contains_ci_spec(email.sender_name@, options.sender->0@))
    &&& (given(opt_string_view(options.query)) && !options.include_body) ==> (contains_ci_spec(
        email.subject@,
        options.query->0@,
    ) || contains_ci_spec(email.sender_email@, options.query->0@) || contains_ci_spec(
        email.sender_name@,
        options.query->0@,
    ))
    &&& options.date_from is Some ==> (email.datetime_received is Some && !ts_before(
        email.datetime_received->0,
        options.date_from->0,
    ))
    &&& options.date_to is Some ==> (email.datetime_received is Some && !ts_before(
        options.date_to->0,
        email.datetime_received->0,
    ))
}

/// Whether a message passes the search's own filters.
pub fn matches_filter(email: &CachedEmail, options: &GraphSearchOptions) -> (r: bool)
    ensures
        r == passes_filter(*email, *options),
{
    if is_given(&options.subject) {
        if !contains_ci(email.subject.as_str(), options.subject.as_ref().unwrap().as_str()) {
            return false;
        }
    }
    if is_given(&options.sender) {
        let s = options.sender.as_ref().unwrap().as_str();
        if !contains_ci(email.sender_email.as_str(), s) && !contains_ci(email.sender_name.as_str(), s) {
            return false;
        }
    }
    if is_given(&options.query) {
        if !options.include_body {
            let q = options.query.as_ref().unwrap().as_str();
            let matched = contains_ci(email.subject.as_str(), q) || contains_ci(
                email.sender_email.as_str(),
                q,
            ) || contains_ci(email.sender_name.as_str(), q);
            if !matched {
                return false;
            }
        }
    }
    match options.date_from {
        Some(from) => match email.datetime_received {
            Some(v) => {
                if crate::time::timestamp_before(v, from) {
                    return false;
                }
            },
            None => return false,
        },
        None => {},
    }
    match options.date_to {
        Some(to) => match email.datetime_received {
            Some(v) => {
                if crate::time::timestamp_before(to, v) {
                    return false;
                }
            },
            None => return false,
        },
        None => {},
    }
    true
}

/// The results of a search, gathered page by page up to its limit.
#[derive(Debug)]
pub struct SearchCollector {
    pub limit: usize,
    pub found: Vec<CachedEmail>,
}

impl SearchCollector {
    /// The collector's invariant: it never holds more than its limit.
    pub open spec fn wf(&self) -> bool {
        1 <= self.limit <= 200 && self.found@.len() <= self.limit
    }

    /// An empty collector for a search limited to `limit` (1 to 200).
    pub fn new(limit: i32) -> (r: Self)
        ensures
            r.wf(),
            r.limit == clamp_i32(limit, 1, 200),
            r.found@.len() == 0,
    {
        let l = clamp(limit, 1, 200);
        SearchCollector { limit: l as usize, found: Vec::new() }
    }

    /// Offers one converted message: it is kept when it passes the
    /// filters.  Returns whether the search is complete.
    pub fn offer(&mut self, email: CachedEmail, options: &GraphSearchOptions) -> (done: bool)
        requires
            old(self).wf(),
            old(self).found@.len() < old(self).limit,
        ensures
            final(self).wf(),
            final(self).limit == old(self).limit,
            passes_filter(email, *options) ==> final(self).found@ == old(self).found@.push(email),
            !passes_filter(email, *options) ==> final(self).found@ == old(self).found@,
            done == (final(self).found@.len() >= final(self).limit),
    {
        if matches_filter(&email, options) {
            self.found.push(email);
        }
        self.found.len() >= self.limit
    }
}

/// Where a search's messages are filed in the cache: the resolved folder,
/// else the inbox.
pub fn search_cache_folder(resolved_folder: &Option<String>) -> (r: String)
    ensures
        r@ == match opt_string_view(*resolved_folder) {
            Some(f) => f,
            None => "inbox"@,
        },
{
    match resolved_folder {
        Some(f) => f.clone(),
        None => String::from_str("inbox"),
    }
}

/// The first step of resolving a folder name: blank names are refused, and
/// a well-known name (ASCII-lower-cased) stands for itself; other names
/// need the folder listing (`None`).
pub open spec fn folder_name_resolution(folder: Seq<char>) -> Result<Option<Seq<char>>, Seq<char>> {
    if trim(folder).len() == 0 {
        Err("folder name cannot be empty"@)
    } else if well_known_folder(ascii_lower_seq(trim(folder))) {
        Ok(Some(ascii_lower_seq(trim(folder))))
    } else {
        Ok(None)
    }
}

/// Resolves a folder name without the folder listing where it can.
pub fn resolve_folder_name(folder: &str) -> (r: Result<Option<String>, String>)
    ensures
        match r {
            Ok(Some(id)) => folder_name_resolution(folder@) == Ok::<Option<Seq<char>>, Seq<char>>(Some(id@)),
            Ok(None) => folder_name_resolution(folder@) == Ok::<Option<Seq<char>>, Seq<char>>(None),
            Err(m) => folder_name_resolution(folder@) == Err::<Option<Seq<char>>, Seq<char>>(m@),
        },
{
    let t = trim_str(folder);
    if t.as_str().is_empty() {
        return Err(String::from_str("folder name cannot be empty"));
    }
    let lower = string_from_chars(ascii_lowercase_chars(chars_of(t.as_str()).as_slice()).as_slice());
    if is_well_known_folder_name(lower.as_str()) {
        Ok(Some(lower))
    } else {
        Ok(None)
    }
}

/// The first folder whose id or display name equals `name` without regard
/// to ASCII case, from position `i` on.
pub open spec fn folder_matching(folders: Seq<GraphFolder>, name: Seq<char>, i: int) -> Option<int>
    decreases folders.len() - i,
{
    if i < 0 || i >= folders.len() {
        None
    } else if eq_ignore_ascii_case(folders[i].id@, name) || eq_ignore_ascii_case(
        folders[i].display_name@,
        name,
    ) {
        Some(i)
    } else {
        folder_matching(folders, name, i + 1)
    }
}

/// The id a folder name resolves to among the listed folders: that of the
/// first match, else the (trimmed) name itself.
pub open spec fn folder_id_among(folders: Seq<GraphFolder>, trimmed: Seq<char>) -> Seq<char> {
    match folder_matching(folders, trimmed, 0) {
        Some(i) => folders[i].id@,
        None => trimmed,
    }
}

/// Resolves a trimmed folder name against the folder listing.
pub fn resolve_folder_among(folders: &Vec<GraphFolder>, trimmed: &str) -> (r: String)
    ensures
        r@ == folder_id_among(folders@, trimmed@),
{
    let mut i: usize = 0;
    while i < folders.len()
        invariant
            i <= folders@.len(),
            folder_matching(folders@, trimmed@, 0) == folder_matching(folders@, trimmed@, i as int),
        decreases folders@.len() - i,
    {
        if str_eq_ignore_ascii_case(folders[i].id.as_str(), trimmed) || str_eq_ignore_ascii_case(
            folders[i].display_name.as_str(),
            trimmed,
        ) {
            return folders[i].id.clone();
        }
        i += 1;
    }
    String::from_str(trimmed)
}


/// The body of a Graph message.
#[derive(Debug)]
pub struct GraphItemBody {
    pub content_type: Option<String>,
    pub content: Option<String>,
}

/// A message as Graph gives it.
#[derive(Debug)]
pub struct GraphMessage {
    pub id: String,
    pub subject: Option<String>,
    pub is_read: Option<bool>,
    pub has_attachments: Option<bool>,
    pub importance: Option<String>,
    pub received_date_time: Option<String>,
    pub sent_date_time: Option<String>,
    pub body_preview: Option<String>,
    pub body: Option<GraphItemBody>,
    pub from: Option<GraphRecipient>,
    pub to_recipients: Option<Vec<GraphRecipient>>,
    pub cc_recipients: Option<Vec<GraphRecipient>>,
}

/// An optional text, empty when absent.
pub open spec fn text_or_empty(v: Option<String>) -> Seq<char> {
    match v {
        Some(s) => s@,
        None => seq![],
    }
}

fn string_or_empty(v: &Option<String>) -> (r: String)
    ensures
        r@ == text_or_empty(*v),
{
    match v {
        Some(s) => s.clone(),
        None => String::new(),
    }
}

/// The sender's address record, when the message names one.
pub open spec fn sender_of(m: GraphMessage) -> Option<GraphAddress> {
    match m.from {
        Some(f) => f.email_address,
        None => None,
    }
}

/// The text and HTML bodies of a message: an HTML body is kept as HTML
/// with the preview as text; another body is the text; without a body the
/// preview is the text.
pub open spec fn graph_body(m: GraphMessage) -> (Seq<char>, Option<Seq<char>>) {
    match m.body {
        Some(b) => match b.content {
            Some(c) => if (match b.content_type {
                Some(t) => eq_ignore_ascii_case(t@, "html"@),
                None => false,
            }) {
                (text_or_empty(m.body_preview), Some(c@))
            } else {
                (c@, None)
            },
            None => (text_or_empty(m.body_preview), None),
        },
        None => (text_or_empty(m.body_preview), None),
    }
}

/// An instant in RFC 3339, when present and readable.
pub open spec fn graph_datetime(v: Option<String>) -> Option<Timestamp> {
    match v {
        Some(s) => rfc3339_instant(s@),
        None => None,
    }
}

fn parse_graph_datetime(v: &Option<String>) -> (r: Option<Timestamp>)
    ensures
        r == graph_datetime(*v),
{
    match v {
        Some(s) => parse_rfc3339(s.as_str()),
        None => None,
    }
}

/// `e` is the cache record of Graph message `m`, filed in `folder_id` and
/// cached at `cached_at`.
pub open spec fn graph_email_of(e: CachedEmail, m: GraphMessage, folder_id: Seq<char>, cached_at: Timestamp) -> bool {
    &&& e.id@ == m.id@
    &&& e.change_key is None
    &&& e.folder_id@ == folder_id
    &&& e.subject@ == text_or_empty(m.subject)
    &&& e.sender_name@ == match sender_of(m) {
        Some(a) => text_or_empty(a.name),
        None => seq![],
    }
    &&& e.sender_email@ == match sender_of(m) {
        Some(a) => text_or_empty(a.address),
        None => seq![],
    }
    &&& e.to_recipients@.map_values(|s: String| s@) == match m.to_recipients {
        Some(v) => recipient_addresses(v@),
        None => seq![],
    }
    &&& e.cc_recipients@.map_values(|s: String| s@) == match m.cc_recipients {
        Some(v) => recipient_addresses(v@),
        None => seq![],
    }
    &&& (e.body_text@, opt_string_view(e.body_html)) == graph_body(m)
    &&& e.has_attachments == match m.has_attachments {
        Some(b) => b,
        None => false,
    }
    &&& e.is_read == match m.is_read {
        Some(b) => b,
        None => false,
    }
    &&& e.importance@ == match m.importance {
        Some(s) => s@,
        None => "normal"@,
    }
    &&& e.datetime_received == graph_datetime(m.received_date_time)
    &&& e.datetime_sent == graph_datetime(m.sent_date_time)
    &&& e.cached_at == cached_at
}

fn graph_bodies(m: &GraphMessage) -> (r: (String, Option<String>))
    ensures
        (r.0@, opt_string_view(r.1)) == graph_body(*m),
{
    match &m.body {
        Some(b) => match &b.content {
            Some(c) => {
                let html = match &b.content_type {
                    Some(t) => str_eq_ignore_ascii_case(t.as_str(), "html"),
                    None => false,
                };
                if html {
                    (string_or_empty(&m.body_preview), Some(c.clone()))
                } else {
                    (c.clone(), None)
                }
            },
            None => (string_or_empty(&m.body_preview), None),
        },
        None => (string_or_empty(&m.body_preview), None),
    }
}

/// The cache record of a Graph message.
pub fn message_to_cached_email(m: GraphMessage, folder_id: &str, cached_at: Timestamp) -> (r: CachedEmail)
    ensures
        graph_email_of(r, m, folder_id@, cached_at),
{
    let (sender_name, sender_email) = match &m.from {
        Some(f) => match &f.email_address {
            Some(a) => (string_or_empty(&a.name), string_or_empty(&a.address)),
            None => (String::new(), String::new()),
        },
        None => (String::new(), String::new()),
    };
    let (body_text, body_html) = graph_bodies(&m);
    let importance = match &m.importance {
        Some(s) => s.clone(),
        None => String::from_str("normal"),
    };
    let received = parse_graph_datetime(&m.received_date_time);
    let sent = parse_graph_datetime(&m.sent_date_time);
    let subject = string_or_empty(&m.subject);
    let has_attachments = match m.has_attachments {
        Some(b) => b,
        None => false,
    };
    let is_read = match m.is_read {
        Some(b) => b,
        None => false,
    };
    let to_recipients = recipients_to_vec(m.to_recipients);
    let cc_recipients = recipients_to_vec(m.cc_recipients);
    CachedEmail {
        id: m.id,
        change_key: None,
        folder_id: String::from_str(folder_id),
        subject,
        sender_name,
        sender_email,
        to_recipients,
        cc_recipients,
        body_text,
        body_html,
        has_attachments,
        is_read,
        importance,
        datetime_received: received,
        datetime_sent: sent,
        cached_at,
    }
}

/// `a` is strictly later than `secs` seconds and `nanos` nanoseconds.
pub open spec fn later_than(a: Timestamp, secs: int, nanos: u32) -> bool {
    a.secs > secs || (a.secs == secs && a.nanos > nanos)
}

/// What to do with the token cache: use its token, refresh it with the
/// refresh token, or fail.
#[derive(Debug)]
pub enum TokenStep {
    Use(String),
    Refresh(String),
    Fail(String),
}

/// The step a token cache calls for at instant `now`: a token valid for
/// more than 90 more seconds is used; an expiring one is refreshed when a
/// refresh token is kept.
pub open spec fn token_step_ok(r: TokenStep, cache: Option<TokenCache>, now: Timestamp) -> bool {
    match cache {
        None => r matches TokenStep::Fail(m) && m@ == "graph delegated token not found"@,
        Some(c) => if later_than(c.expires_at, now.secs + 90, now.nanos) {
            r matches TokenStep::Use(t) && t@ == c.access_token@
        } else if trim(c.refresh_token@).len() == 0 {
            r matches TokenStep::Fail(m) && m@
                == "graph delegated token expired and no refresh token available"@
        } else {
            r matches TokenStep::Refresh(t) && t@ == c.refresh_token@
        },
    }
}

/// Decides how to get an access token from the cache.
pub fn cached_token_step(cache: &Option<TokenCache>, now: Timestamp) -> (r: TokenStep)
    ensures
        token_step_ok(r, *cache, now),
{
    match cache {
        None => TokenStep::Fail(String::from_str("graph delegated token not found")),
        Some(c) => {
            let limit: i128 = now.secs as i128 + 90;
            let exp: i128 = c.expires_at.secs as i128;
            if exp > limit || (exp == limit && c.expires_at.nanos > now.nanos) {
                TokenStep::Use(c.access_token.clone())
            } else if is_blank(c.refresh_token.as_str()) {
                TokenStep::Fail(
                    String::from_str("graph delegated token expired and no refresh token available"),
                )
            } else {
                TokenStep::Refresh(c.refresh_token.clone())
            }
        },
    }
}

/// The lifetime, in seconds, a token answer grants: its `expires_in`
/// (an hour when absent), at least a minute.
pub open spec fn granted_lifetime(expires_in: Option<i64>) -> int {
    let v: int = match expires_in {
        Some(e) => e as int,
        None => 3600,
    };
    if v < 60 {
        60
    } else {
        v
    }
}

fn lifetime(expires_in: Option<i64>) -> (r: i64)
    ensures
        r as int == granted_lifetime(expires_in),
{
    let v = match expires_in {
        Some(e) => e,
        None => 3600,
    };
    if v < 60 {
        60
    } else {
        v
    }
}

/// The message of a failed refresh.
pub open spec fn refresh_failure(error: Option<String>, description: Option<String>) -> Seq<char> {
    "graph token refresh failed: "@ + match error {
        Some(e) => e@,
        None => "unknown_error"@,
    } + " ("@ + text_or_empty(description) + ")"@
}

/// The cache after a refresh answer received at `now`: the new access
/// token, the new refresh token if one came, and the granted lifetime; or
/// the refresh error.
pub fn refreshed_cache(cache: TokenCache, response: TokenResponse, now: Timestamp) -> (r: Result<TokenCache, String>)
    requires
        now.secs + granted_lifetime(response.expires_in) <= i64::MAX,
    ensures
        match response.access_token {
            Some(a) => r matches Ok(c) && c.access_token@ == a@ && c.refresh_token@ == match response.refresh_token {
                Some(t) => t@,
                None => cache.refresh_token@,
            } && c.expires_at == (Timestamp {
                secs: (now.secs + granted_lifetime(response.expires_in)) as i64,
                nanos: now.nanos,
            }),
            None => r matches Err(m) && m@ == refresh_failure(response.error, response.error_description),
        },
{
    match response.access_token {
        Some(a) => {
            let life = lifetime(response.expires_in);
            let refresh_token = match response.refresh_token {
                Some(t) => t,
                None => cache.refresh_token,
            };
            Ok(
                TokenCache {
                    access_token: a,
                    refresh_token,
                    expires_at: Timestamp { secs: now.secs + life, nanos: now.nanos },
                },
            )
        },
        None => {
            let mut m = String::from_str("graph token refresh failed: ");
            match &response.error {
                Some(e) => m.append(e.as_str()),
                None => m.append("unknown_error"),
            }
            m.append(" (");
            m.append(string_or_empty(&response.error_description).as_str());
            m.append(")");
            Err(m)
        },
    }
}

/// The device-code endpoint of a tenant.
pub open spec fn device_code_endpoint(tenant: Seq<char>) -> Seq<char> {
    "https://login.microsoftonline.com/"@ + tenant + "/oauth2/v2.0/devicecode"@
}

/// The URL that starts a device-code sign-in.
pub fn device_code_url(tenant_id: &str) -> (r: String)
    ensures
        r@ == device_code_endpoint(tenant_id@),
{
    let mut u = String::from_str("https://login.microsoftonline.com/");
    u.append(tenant_id);
    u.append("/oauth2/v2.0/devicecode");
    u
}

/// The token endpoint of a tenant.
pub open spec fn token_endpoint(tenant: Seq<char>) -> Seq<char> {
    "https://login.microsoftonline.com/"@ + tenant + "/oauth2/v2.0/token"@
}

/// The URL tokens are asked from.
pub fn token_url(tenant_id: &str) -> (r: String)
    ensures
        r@ == token_endpoint(tenant_id@),
{
    let mut u = String::from_str("https://login.microsoftonline.com/");
    u.append(tenant_id);
    u.append("/oauth2/v2.0/token");
    u
}

/// The page where an admin grants the application consent.
pub open spec fn admin_consent_page(tenant: Seq<char>, client: Seq<char>) -> Seq<char> {
    "https://login.microsoftonline.com/"@ + tenant + "/adminconsent?client_id="@ + client
}

/// The URL of the admin consent page.
pub fn admin_consent_url(tenant_id: &str, client_id: &str) -> (r: String)
    ensures
        r@ == admin_consent_page(tenant_id@, client_id@),
{
    let mut u = String::from_str("https://login.microsoftonline.com/");
    u.append(tenant_id);
    u.append("/adminconsent?client_id=");
    u.append(client_id);
    u
}

/// What the user is told to do: the service's own message, else where to
/// go and which code to enter.
pub open spec fn device_prompt(message: Option<Seq<char>>, uri: Seq<char>, code: Seq<char>) -> Seq<char> {
    match message {
        Some(m) => m,
        None => "Open "@ + uri + " and enter code "@ + code,
    }
}

/// The sign-in instructions to show.
pub fn device_code_prompt(message: &Option<String>, verification_uri: &str, user_code: &str) -> (r: String)
    ensures
        r@ == device_prompt(opt_string_view(*message), verification_uri@, user_code@),
{
    match message {
        Some(m) => m.clone(),
        None => {
            let mut t = String::from_str("Open ");
            t.append(verification_uri);
            t.append(" and enter code ");
            t.append(user_code);
            t
        },
    }
}

/// The note shown about admin consent.
pub fn admin_consent_hint(tenant_id: &str, client_id: &str) -> (r: String)
    ensures
        r@ == "If admin consent is required, ask an admin to grant access here: "@ + admin_consent_page(
            tenant_id@,
            client_id@,
        ),
{
    let mut t = String::from_str("If admin consent is required, ask an admin to grant access here: ");
    t.append(admin_consent_url(tenant_id, client_id).as_str());
    t
}

/// Seconds between polls: the service's interval (5 when absent), at
/// least 2.
pub open spec fn poll_seconds(interval: Option<u64>) -> u64 {
    let v = match interval {
        Some(i) => i,
        None => 5,
    };
    if v < 2 {
        2
    } else {
        v
    }
}

/// The polling interval of a device-code sign-in.
pub fn poll_interval(interval: Option<u64>) -> (r: u64)
    ensures
        r == poll_seconds(interval),
{
    let v = match interval {
        Some(i) => i,
        None => 5,
    };
    if v < 2 {
        2
    } else {
        v
    }
}

/// When a device code stops being usable: `expires_in` seconds (at least
/// a minute) after `now`.
pub fn device_deadline(now: Timestamp, expires_in: i64) -> (r: Timestamp)
    requires
        now.secs + (if expires_in < 60 { 60 } else { expires_in as int }) <= i64::MAX,
    ensures
        r == (Timestamp {
            secs: (now.secs + (if expires_in < 60 { 60 } else { expires_in as int })) as i64,
            nanos: now.nanos,
        }),
{
    let life: i64 = if expires_in < 60 {
        60
    } else {
        expires_in
    };
    Timestamp { secs: now.secs + life, nanos: now.nanos }
}

/// Whether the sign-in ran out of time: `now` is at or past the deadline.
pub fn device_code_expired(now: Timestamp, deadline: Timestamp) -> (r: bool)
    ensures
        r == !ts_before(now, deadline),
{
    !crate::time::timestamp_before(now, deadline)
}

/// What one poll of the token endpoint leads to.
#[derive(Debug)]
pub enum LoginStep {
    Done(TokenCache),
    Wait(u64),
    Fail(String),
}

/// A refusal that asks for admin consent: the description names error
/// AADSTS65001, or mentions consent or an admin (lower-cased).
pub open spec fn consent_refusal(desc: Seq<char>) -> bool {
    contains(desc, "AADSTS65001"@) || contains(str_lowercase(desc), "consent"@) || contains(
        str_lowercase(desc),
        "admin"@,
    )
}

/// The step a token answer calls for during a device-code sign-in at
/// `now`, polling every `interval` seconds.
pub open spec fn login_step_ok(r: LoginStep, tenant: Seq<char>, client: Seq<char>, response: TokenResponse, interval: u64, now: Timestamp) -> bool {
    match response.access_token {
        Some(a) => r matches LoginStep::Done(c) && c.access_token@ == a@ && c.refresh_token@
            == text_or_empty(response.refresh_token) && c.expires_at == (Timestamp {
            secs: (now.secs + granted_lifetime(response.expires_in)) as i64,
            nanos: now.nanos,
        }),
        None => match response.error {
            Some(e) => if e@ == "authorization_pending"@ {
                r == LoginStep::Wait(interval)
            } else if e@ == "slow_down"@ {
                r == LoginStep::Wait((interval + 3) as u64)
            } else if consent_refusal(text_or_empty(response.error_description)) {
                r matches LoginStep::Fail(m) && m@ == "admin consent required: "@ + text_or_empty(
                    response.error_description,
                ) + ". Admin grant URL: "@ + admin_consent_page(tenant, client)
            } else {
                r matches LoginStep::Fail(m) && m@ == "device login failed: "@ + e@ + " ("@
                    + text_or_empty(response.error_description) + ")"@
            },
            None => r matches LoginStep::Fail(m) && m@ == "device login failed: unknown token response"@,
        },
    }
}

/// Decides what a token answer means during a device-code sign-in.
pub fn device_poll_step(config: &GraphAuthConfig, response: TokenResponse, interval: u64, now: Timestamp) -> (r: LoginStep)
    requires
        interval <= u64::MAX - 3,
        now.secs + granted_lifetime(response.expires_in) <= i64::MAX,
    ensures
        login_step_ok(r, config.tenant_id@, config.client_id@, response, interval, now),
{
    match response.access_token {
        Some(a) => {
            let life = lifetime(response.expires_in);
            let refresh_token = string_or_empty(&response.refresh_token);
            LoginStep::Done(
                TokenCache {
                    access_token: a,
                    refresh_token,
                    expires_at: Timestamp { secs: now.secs + life, nanos: now.nanos },
                },
            )
        },
        None => match &response.error {
            Some(e) => {
                let ev = chars_of(e.as_str());
                if chars_eq_str(ev.as_slice(), "authorization_pending") {
                    LoginStep::Wait(interval)
                } else if chars_eq_str(ev.as_slice(), "slow_down") {
                    LoginStep::Wait(interval + 3)
                } else {
                    let desc = string_or_empty(&response.error_description);
                    let lower = to_lowercase(desc.as_str());
                    if str_contains(desc.as_str(), "AADSTS65001") || str_contains(
                        lower.as_str(),
                        "consent",
                    ) || str_contains(lower.as_str(), "admin") {
                        let mut m = String::from_str("admin consent required: ");
                        m.append(desc.as_str());
                        m.append(". Admin grant URL: ");
                        m.append(
                            admin_consent_url(config.tenant_id.as_str(), config.client_id.as_str()).as_str(),
                        );
                        LoginStep::Fail(m)
                    } else {
                        let mut m = String::from_str("device login failed: ");
                        m.append(e.as_str());
                        m.append(" (");
                        m.append(desc.as_str());
                        m.append(")");
                        LoginStep::Fail(m)
                    }
                }
            },
            None => LoginStep::Fail(String::from_str("device login failed: unknown token response")),
        },
    }
}

} // verus!
