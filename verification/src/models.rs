//! The cached records: folders, emails and per-folder sync states.
use vstd::prelude::*;
use crate::ews_types::{Email, EmailAddressType};
use crate::html::{html_text, html_to_text};
use crate::text::{eq_ignore_ascii_case, str_eq_ignore_ascii_case, trim, trim_str};
use crate::time::{
    chrono_parse_from_str, chrono_parse_utc, now, parse_utc, parse_with_format, to_ts, Timestamp,
};

verus! {

/// A mail folder kept in the cache.
#[derive(Debug)]
pub struct CachedFolder {
    pub id: String,
    pub change_key: Option<String>,
    pub parent_id: Option<String>,
    pub display_name: String,
    pub unread_count: i32,
    pub total_count: i32,
    pub synced_at: Timestamp,
}

/// An email kept in the cache.
#[derive(Debug)]
pub struct CachedEmail {
    pub id: String,
    pub change_key: Option<String>,
    pub folder_id: String,
    pub subject: String,
    pub sender_name: String,
    pub sender_email: String,
    pub to_recipients: Vec<String>,
    pub cc_recipients: Vec<String>,
    pub body_text: String,
    pub body_html: Option<String>,
    pub has_attachments: bool,
    pub is_read: bool,
    pub importance: String,
    pub datetime_received: Option<Timestamp>,
    pub datetime_sent: Option<Timestamp>,
    pub cached_at: Timestamp,
}

/// The synchronisation state the server handed out for a folder.
#[derive(Debug)]
pub struct SyncState {
    pub folder_id: String,
    pub sync_state: String,
    pub last_sync_at: Timestamp,
}

impl Clone for CachedFolder {
    fn clone(&self) -> (r: Self)
        ensures
            r == *self,
    {
        CachedFolder {
            id: self.id.clone(),
            change_key: self.change_key.clone(),
            parent_id: self.parent_id.clone(),
            display_name: self.display_name.clone(),
            unread_count: self.unread_count,
            total_count: self.total_count,
            synced_at: self.synced_at,
        }
    }
}

/// Two email records hold the same values.
pub open spec fn same_email(a: CachedEmail, b: CachedEmail) -> bool {
    &&& a.id == b.id
    &&& a.change_key == b.change_key
    &&& a.folder_id == b.folder_id
    &&& a.subject == b.subject
    &&& a.sender_name == b.sender_name
    &&& a.sender_email == b.sender_email
    &&& a.to_recipients@ == b.to_recipients@
    &&& a.cc_recipients@ == b.cc_recipients@
    &&& a.body_text == b.body_text
    &&& a.body_html == b.body_html
    &&& a.has_attachments == b.has_attachments
    &&& a.is_read == b.is_read
    &&& a.importance == b.importance
    &&& a.datetime_received == b.datetime_received
    &&& a.datetime_sent == b.datetime_sent
    &&& a.cached_at == b.cached_at
}

impl Clone for CachedEmail {
    fn clone(&self) -> (r: Self)
        ensures
            same_email(r, *self),
    {
        let to_recipients = self.to_recipients.clone();
        let cc_recipients = self.cc_recipients.clone();
        assert(to_recipients@ =~= self.to_recipients@);
        assert(cc_recipients@ =~= self.cc_recipients@);
        CachedEmail {
            id: self.id.clone(),
            change_key: self.change_key.clone(),
            folder_id: self.folder_id.clone(),
            subject: self.subject.clone(),
            sender_name: self.sender_name.clone(),
            sender_email: self.sender_email.clone(),
            to_recipients,
            cc_recipients,
            body_text: self.body_text.clone(),
            body_html: self.body_html.clone(),
            has_attachments: self.has_attachments,
            is_read: self.is_read,
            importance: self.importance.clone(),
            datetime_received: self.datetime_received,
            datetime_sent: self.datetime_sent,
            cached_at: self.cached_at,
        }
    }
}

impl Clone for SyncState {
    fn clone(&self) -> (r: Self)
        ensures
            r == *self,
    {
        SyncState {
            folder_id: self.folder_id.clone(),
            sync_state: self.sync_state.clone(),
            last_sync_at: self.last_sync_at,
        }
    }
}

/// The body of an item: the `Body` when it holds text, else the `TextBody`,
/// trimmed; the type is chosen the same way.
pub open spec fn chosen_body(e: Email) -> Seq<char> {
    if trim(e.body.value@).len() == 0 {
        trim(e.text_body.value@)
    } else {
        trim(e.body.value@)
    }
}

pub open spec fn chosen_body_type(e: Email) -> Seq<char> {
    if trim(e.body.body_type@).len() == 0 {
        trim(e.text_body.body_type@)
    } else {
        trim(e.body.body_type@)
    }
}

/// Plain text and, for an HTML body, the HTML itself.
pub open spec fn body_split(e: Email) -> (Seq<char>, Option<Seq<char>>) {
    let value = chosen_body(e);
    if value.len() == 0 {
        (seq![], None)
    } else if eq_ignore_ascii_case(chosen_body_type(e), seq!['h', 't', 'm', 'l']) {
        (html_text(value), Some(value))
    } else {
        (value, None)
    }
}

/// Splits the body of an item into its plain text and, when the body is
/// HTML, the HTML.
pub fn split_email_body(email: &Email) -> (r: (String, Option<String>))
    ensures
        r.0@ == body_split(*email).0,
        match r.1 {
            Some(h) => body_split(*email).1 == Some(h@),
            None => body_split(*email).1 is None,
        },
{
    let body_value = trim_str(email.body.value.as_str());
    let value = if body_value.as_str().is_empty() {
        trim_str(email.text_body.value.as_str())
    } else {
        body_value
    };
    if value.as_str().is_empty() {
        return (String::new(), None);
    }
    let body_type_trimmed = trim_str(email.body.body_type.as_str());
    let body_type = if body_type_trimmed.as_str().is_empty() {
        trim_str(email.text_body.body_type.as_str())
    } else {
        body_type_trimmed
    };
    proof {
        reveal_strlit("html");
        assert("html"@ =~= seq!['h', 't', 'm', 'l']);
    }
    if str_eq_ignore_ascii_case(body_type.as_str(), "html") {
        let text = html_to_text(value.as_str());
        return (text, Some(value));
    }
    (value, None)
}

/// The instant an EWS date-time string names: the first of the formats
/// `%Y-%m-%dT%H:%M:%SZ`, `%Y-%m-%dT%H:%M:%S%.fZ`, `%Y-%m-%dT%H:%M:%S%z`
/// that reads it, else chrono's own UTC reading; `None` for an empty string.
pub open spec fn ews_datetime(s: Seq<char>) -> Option<Timestamp> {
    if s.len() == 0 {
        None
    } else if chrono_parse_from_str(s, "%Y-%m-%dT%H:%M:%SZ"@) is Some {
        to_ts(chrono_parse_from_str(s, "%Y-%m-%dT%H:%M:%SZ"@))
    } else if chrono_parse_from_str(s, "%Y-%m-%dT%H:%M:%S%.fZ"@) is Some {
        to_ts(chrono_parse_from_str(s, "%Y-%m-%dT%H:%M:%S%.fZ"@))
    } else if chrono_parse_from_str(s, "%Y-%m-%dT%H:%M:%S%z"@) is Some {
        to_ts(chrono_parse_from_str(s, "%Y-%m-%dT%H:%M:%S%z"@))
    } else {
        to_ts(chrono_parse_utc(s))
    }
}

/// Reads an EWS date-time string.
pub fn parse_ews_datetime(s: &str) -> (r: Option<Timestamp>)
    ensures
        r == ews_datetime(s@),
{
    if s.is_empty() {
        return None;
    }
    let a = parse_with_format(s, "%Y-%m-%dT%H:%M:%SZ");
    if a.is_some() {
        return a;
    }
    let b = parse_with_format(s, "%Y-%m-%dT%H:%M:%S%.fZ");
    if b.is_some() {
        return b;
    }
    let c = parse_with_format(s, "%Y-%m-%dT%H:%M:%S%z");
    if c.is_some() {
        return c;
    }
    parse_utc(s)
}

/// The name of a mailbox, empty when absent.
pub open spec fn mailbox_name(m: Option<EmailAddressType>) -> Seq<char> {
    match m {
        Some(a) => match a.name {
            Some(n) => n@,
            None => seq![],
        },
        None => seq![],
    }
}

/// The address of a mailbox, empty when absent.
pub open spec fn mailbox_address(m: Option<EmailAddressType>) -> Seq<char> {
    match m {
        Some(a) => a.email_address@,
        None => seq![],
    }
}

/// The addresses of a list of mailboxes.
pub open spec fn addresses(v: Seq<EmailAddressType>) -> Seq<Seq<char>> {
    v.map_values(|a: EmailAddressType| a.email_address@)
}

/// Views of a list of strings.
pub open spec fn views(v: Seq<String>) -> Seq<Seq<char>> {
    v.map_values(|s: String| s@)
}

fn collect_addresses(v: &Vec<EmailAddressType>) -> (r: Vec<String>)
    ensures
        views(r@) == addresses(v@),
{
    let mut r: Vec<String> = Vec::new();
    let mut i: usize = 0;
    while i < v.len()
        invariant
            i <= v@.len(),
            r@.len() == i,
            forall|k: int| 0 <= k < i ==> #[trigger] r@[k]@ == v@[k].email_address@,
        decreases v.len() - i,
    {
        r.push(v[i].email_address.clone());
        i += 1;
    }
    assert(views(r@) =~= addresses(v@));
    r
}

/// The cache record of an EWS item as of `cached_at`.
pub open spec fn email_record_of(e: CachedEmail, ews: Email, folder_id: Seq<char>, cached_at: Timestamp) -> bool {
    &&& e.id == ews.item_id.id
    &&& e.change_key == Some(ews.item_id.change_key)
    &&& e.folder_id@ == folder_id
    &&& e.subject == ews.subject
    &&& e.sender_name@ == mailbox_name(ews.sender.mailbox)
    &&& e.sender_email@ == mailbox_address(ews.sender.mailbox)
    &&& views(e.to_recipients@) == addresses(ews.to_recipients.mailbox@)
    &&& views(e.cc_recipients@) == addresses(ews.cc_recipients.mailbox@)
    &&& e.body_text@ == body_split(ews).0
    &&& (match e.body_html {
        Some(h) => body_split(ews).1 == Some(h@),
        None => body_split(ews).1 is None,
    })
    &&& e.has_attachments == ews.has_attachments
    &&& e.is_read == ews.is_read
    &&& e.importance == ews.importance
    &&& e.datetime_received == ews_datetime(ews.datetime_received@)
    &&& e.datetime_sent == ews_datetime(ews.datetime_sent@)
    &&& e.cached_at == cached_at
}

impl CachedEmail {
    /// The cache record of an EWS item, stamped with `cached_at`.
    pub fn from_ews_email_at(ews_email: &Email, folder_id: &str, cached_at: Timestamp) -> (r: Self)
        ensures
            email_record_of(r, *ews_email, folder_id@, cached_at),
    {
        let datetime_received = parse_ews_datetime(ews_email.datetime_received.as_str());
        let datetime_sent = parse_ews_datetime(ews_email.datetime_sent.as_str());
        let (body_text, body_html) = split_email_body(ews_email);
        let sender_name = match &ews_email.sender.mailbox {
            Some(m) => match &m.name {
                Some(n) => n.clone(),
                None => String::new(),
            },
            None => String::new(),
        };
        let sender_email = match &ews_email.sender.mailbox {
            Some(m) => m.email_address.clone(),
            None => String::new(),
        };
        CachedEmail {
            id: ews_email.item_id.id.clone(),
            change_key: Some(ews_email.item_id.change_key.clone()),
            folder_id: folder_id.to_owned(),
            subject: ews_email.subject.clone(),
            sender_name,
            sender_email,
            to_recipients: collect_addresses(&ews_email.to_recipients.mailbox),
            cc_recipients: collect_addresses(&ews_email.cc_recipients.mailbox),
            body_text,
            body_html,
            has_attachments: ews_email.has_attachments,
            is_read: ews_email.is_read,
            importance: ews_email.importance.clone(),
            datetime_received,
            datetime_sent,
            cached_at,
        }
    }

    /// The cache record of an EWS item, stamped with the current time.
    pub fn from_ews_email(ews_email: &Email, folder_id: &str) -> (r: Self)
        ensures
            email_record_of(r, *ews_email, folder_id@, r.cached_at),
    {
        let t = now();
        Self::from_ews_email_at(ews_email, folder_id, t)
    }
}

} // verus!
