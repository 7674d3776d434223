//! Decisions of the local mail cache: how a requested email id is matched,
//! which body a saved email keeps, when the cache belongs to another
//! account, and the SQL a search runs.
use vstd::prelude::*;
use crate::models::{views, CachedEmail, CachedFolder};
use crate::text::{chars_of, copy_range, is_blank, string_from_chars, trim, trim_chars};

verus! {

/// `v` is appended unless it is empty or already present.
pub open spec fn push_new(out: Seq<Seq<char>>, v: Seq<char>) -> Seq<Seq<char>> {
    if v.len() > 0 && !out.contains(v) {
        out.push(v)
    } else {
        out
    }
}

/// Quotes, backticks, angle, round and square brackets that enclose an id.
pub open spec fn is_wrap_pair(a: char, b: char) -> bool {
    ||| (a == '"' && b == '"')
    ||| (a == '\'' && b == '\'')
    ||| (a == '`' && b == '`')
    ||| (a == '<' && b == '>')
    ||| (a == '(' && b == ')')
    ||| (a == '[' && b == ']')
}

/// `v` without one enclosing pair of quotes or brackets.
pub open spec fn unwrapped(v: Seq<char>) -> Seq<char> {
    if v.len() >= 2 && is_wrap_pair(v[0], v.last()) {
        v.subrange(1, v.len() - 1)
    } else {
        v
    }
}

/// Every space replaced by `+`.
pub open spec fn spaces_to_plus(v: Seq<char>) -> Seq<char> {
    v.map_values(|c: char| if c == ' ' { '+' } else { c })
}

/// The ids to try for a requested email id, in order: as given, trimmed,
/// unwrapped; and when the trimmed id holds a space (a `+` that a URL
/// decoder turned into one), those with `+` again, plain and unwrapped.
/// Empty and repeated ids are left out.
pub open spec fn id_candidates(raw: Seq<char>) -> Seq<Seq<char>> {
    let t = trim(raw);
    let base = push_new(push_new(push_new(seq![], raw), t), unwrapped(t));
    if t.contains(' ') {
        let p = spaces_to_plus(t);
        push_new(push_new(base, p), unwrapped(p))
    } else {
        base
    }
}

/// Appends `value` unless it is empty or already in `out`.
pub fn push_unique(out: &mut Vec<String>, value: String)
    ensures
        views(final(out)@) == push_new(views(old(out)@), value@),
{
    let ghost before = views(out@);
    if value.as_str().is_empty() {
        return;
    }
    let mut i: usize = 0;
    while i < out.len()
        invariant
            i <= out@.len(),
            before == views(out@),
            forall|k: int| 0 <= k < i ==> out@[k]@ != value@,
        decreases out.len() - i,
    {
        if out[i] == value {
            assert(before[i as int] == value@);
            return;
        }
        i += 1;
    }
    assert(!before.contains(value@)) by {
        if before.contains(value@) {
            let k = choose|k: int| 0 <= k < before.len() && before[k] == value@;
            assert(out@[k]@ == value@);
        }
    }
    out.push(value);
    assert(views(out@) =~= before.push(value@));
}

/// `value` without one enclosing pair of quotes or brackets.
pub fn trim_wrappers(value: &[char]) -> (r: Vec<char>)
    ensures
        r@ == unwrapped(value@),
{
    let n = value.len();
    if n >= 2 {
        let first = value[0];
        let last = value[n - 1];
        let wrapped = (first == '"' && last == '"') || (first == '\'' && last == '\'') || (first
            == '`' && last == '`') || (first == '<' && last == '>') || (first == '(' && last == ')')
            || (first == '[' && last == ']');
        if wrapped {
            return copy_range(value, 1, n - 1);
        }
    }
    copy_range(value, 0, n)
}

fn replace_spaces(v: &[char]) -> (r: Vec<char>)
    ensures
        r@ == spaces_to_plus(v@),
{
    let mut r: Vec<char> = Vec::new();
    let mut i: usize = 0;
    while i < v.len()
        invariant
            i <= v@.len(),
            r@ == spaces_to_plus(v@.subrange(0, i as int)),
        decreases v.len() - i,
    {
        r.push(if v[i] == ' ' {
            '+'
        } else {
            v[i]
        });
        i += 1;
        assert(spaces_to_plus(v@.subrange(0, i as int)) =~= spaces_to_plus(
            v@.subrange(0, i - 1),
        ).push(if v@[i - 1] == ' ' {
            '+'
        } else {
            v@[i - 1]
        }));
    }
    assert(v@.subrange(0, v@.len() as int) == v@);
    r
}

fn has_space(v: &[char]) -> (r: bool)
    ensures
        r == v@.contains(' '),
{
    let mut i: usize = 0;
    while i < v.len()
        invariant
            i <= v@.len(),
            forall|k: int| 0 <= k < i ==> v@[k] != ' ',
        decreases v.len() - i,
    {
        if v[i] == ' ' {
            assert(v@[i as int] == ' ');
            return true;
        }
        i += 1;
    }
    false
}

/// The ids to try, in order, for a requested email id.
pub fn email_id_candidates(raw: &str) -> (r: Vec<String>)
    ensures
        views(r@) == id_candidates(raw@),
{
    let mut out: Vec<String> = Vec::new();
    assert(views(out@) =~= Seq::<Seq<char>>::empty());
    push_unique(&mut out, raw.to_owned());
    let rv = chars_of(raw);
    let t = trim_chars(rv.as_slice());
    push_unique(&mut out, string_from_chars(t.as_slice()));
    let u = trim_wrappers(t.as_slice());
    push_unique(&mut out, string_from_chars(u.as_slice()));
    if has_space(t.as_slice()) {
        let p = replace_spaces(t.as_slice());
        push_unique(&mut out, string_from_chars(p.as_slice()));
        let pu = trim_wrappers(p.as_slice());
        push_unique(&mut out, string_from_chars(pu.as_slice()));
    }
    out
}

/// The view of an optional string, empty when absent.
pub open spec fn opt_view(o: Option<String>) -> Seq<char> {
    match o {
        Some(s) => s@,
        None => seq![],
    }
}

/// A body with neither text nor HTML beyond whitespace.
pub open spec fn body_blank(text: Seq<char>, html: Option<String>) -> bool {
    trim(text).len() == 0 && trim(opt_view(html)).len() == 0
}

/// Whether a body, given as text and optional HTML, is blank.
pub fn is_body_blank(text: &String, html: &Option<String>) -> (r: bool)
    ensures
        r == body_blank(text@, *html),
{
    let html_blank = match html {
        Some(h) => is_blank(h.as_str()),
        None => {
            assert(trim(Seq::<char>::empty()) =~= Seq::<char>::empty());
            true
        },
    };
    is_blank(text.as_str()) && html_blank
}

/// Whether a record may be stored: its id holds more than whitespace.
pub fn is_storable_id(id: &str) -> (r: bool)
    ensures
        r == (trim(id@).len() > 0),
{
    !is_blank(id)
}

/// The record to store when `incoming` replaces what the cache holds
/// (`existing`): an incoming record without a body keeps the cached body,
/// when the cached one has any.
pub fn preserve_existing_body(incoming: CachedEmail, existing: Option<CachedEmail>) -> (r: CachedEmail)
    ensures
        (body_blank(incoming.body_text@, incoming.body_html) && existing is Some && !body_blank(
            existing->0.body_text@,
            existing->0.body_html,
        )) ==> r == (CachedEmail {
            body_text: existing->0.body_text,
            body_html: existing->0.body_html,
            ..incoming
        }),
        !(body_blank(incoming.body_text@, incoming.body_html) && existing is Some && !body_blank(
            existing->0.body_text@,
            existing->0.body_html,
        )) ==> r == incoming,
{
    let mut email = incoming;
    if is_body_blank(&email.body_text, &email.body_html) {
        match existing {
            Some(e) => {
                if !is_body_blank(&e.body_text, &e.body_html) {
                    email.body_text = e.body_text;
                    email.body_html = e.body_html;
                }
            },
            None => {},
        }
    }
    email
}

/// The body a saved record ends with: the cached one when the incoming
/// record has none and the cached one has some.
pub open spec fn keeps_cached_body(incoming: CachedEmail, existing: Option<CachedEmail>) -> bool {
    body_blank(incoming.body_text@, incoming.body_html) && existing is Some && !body_blank(
        existing->0.body_text@,
        existing->0.body_html,
    )
}

/// The record saving `incoming` writes, given the record the cache holds
/// under its id: nothing when the id is blank; else the incoming record,
/// with the cached body where the incoming one is blank.
pub open spec fn saved_record(incoming: CachedEmail, existing: Option<CachedEmail>) -> Option<CachedEmail> {
    if trim(incoming.id@).len() == 0 {
        None
    } else if keeps_cached_body(incoming, existing) {
        Some(
            CachedEmail {
                body_text: existing->0.body_text,
                body_html: existing->0.body_html,
                ..incoming
            },
        )
    } else {
        Some(incoming)
    }
}

/// The record that saving `incoming` writes over `existing`, or `None`
/// when its id is blank and nothing is written.
pub fn save_plan(incoming: CachedEmail, existing: Option<CachedEmail>) -> (r: Option<CachedEmail>)
    ensures
        r == saved_record(incoming, existing),
{
    if !is_storable_id(incoming.id.as_str()) {
        return None;
    }
    Some(preserve_existing_body(incoming, existing))
}

/// Saving writes the incoming record field by field, except that a blank
/// body gives way to the body the cache already holds; a record with a
/// body, or one the cache does not hold yet, is written exactly as given.
pub proof fn saved_record_keeps_fields(incoming: CachedEmail, existing: Option<CachedEmail>)
    ensures
        saved_record(incoming, existing) is None <==> trim(incoming.id@).len() == 0,
        saved_record(incoming, existing) matches Some(e) ==> {
            &&& e.id == incoming.id
            &&& e.change_key == incoming.change_key
            &&& e.folder_id == incoming.folder_id
            &&& e.subject == incoming.subject
            &&& e.sender_name == incoming.sender_name
            &&& e.sender_email == incoming.sender_email
            &&& e.to_recipients == incoming.to_recipients
            &&& e.cc_recipients == incoming.cc_recipients
            &&& e.has_attachments == incoming.has_attachments
            &&& e.is_read == incoming.is_read
            &&& e.importance == incoming.importance
            &&& e.datetime_received == incoming.datetime_received
            &&& e.datetime_sent == incoming.datetime_sent
            &&& e.cached_at == incoming.cached_at
            &&& !body_blank(e.body_text@, e.body_html) || body_blank(incoming.body_text@, incoming.body_html)
        },
        trim(incoming.id@).len() > 0 && (!body_blank(incoming.body_text@, incoming.body_html)
            || existing is None) ==> saved_record(incoming, existing) == Some(incoming),
{
}

/// What opening the cache for an account does to what it holds.
#[derive(Debug, PartialEq, Eq, Structural)]
pub enum ScopeAction {
    /// No account is named: the cache is left as it is.
    Skip,
    /// The cache already belongs to this account, or to none: record it.
    Record,
    /// The cache belongs to another account: drop its mail, then record.
    ClearThenRecord,
}

/// The action for opening the cache as `account`, when the cache records
/// `previous` as its account.
pub open spec fn scope_action(account: Seq<char>, previous: Option<Seq<char>>) -> ScopeAction {
    if trim(account).len() == 0 {
        ScopeAction::Skip
    } else if previous is Some && previous->0 != account {
        ScopeAction::ClearThenRecord
    } else {
        ScopeAction::Record
    }
}

/// Decides how the cache is scoped to `account_email`.
pub fn account_scope_action(account_email: &str, previous: Option<String>) -> (r: ScopeAction)
    ensures
        r == scope_action(
            account_email@,
            match previous {
                Some(p) => Some(p@),
                None => None,
            },
        ),
{
    if is_blank(account_email) {
        return ScopeAction::Skip;
    }
    match previous {
        Some(p) => {
            let a = chars_of(account_email);
            let b = chars_of(p.as_str());
            if crate::text::chars_eq(b.as_slice(), a.as_slice()) {
                ScopeAction::Record
            } else {
                ScopeAction::ClearThenRecord
            }
        },
        None => ScopeAction::Record,
    }
}

} // verus!

verus! {

/// A value bound to a `?` of an SQL statement.
#[derive(Debug)]
pub enum SqlParam {
    Text(String),
    Int(i64),
}

/// The view of a bound value.
pub enum SqlArg {
    Text(Seq<char>),
    Int(int),
}

pub open spec fn arg_view(p: SqlParam) -> SqlArg {
    match p {
        SqlParam::Text(s) => SqlArg::Text(s@),
        SqlParam::Int(i) => SqlArg::Int(i as int),
    }
}

pub open spec fn args_view(v: Seq<SqlParam>) -> Seq<SqlArg> {
    v.map_values(|p: SqlParam| arg_view(p))
}

/// The view of an optional text.
pub open spec fn opt_str(o: Option<&str>) -> Option<Seq<char>> {
    match o {
        Some(s) => Some(s@),
        None => None,
    }
}

/// A filter that is given and holds more than whitespace.
pub open spec fn present(o: Option<Seq<char>>) -> bool {
    o is Some && trim(o->0).len() > 0
}

/// `%v%`: `v` anywhere, for `LIKE`.
pub open spec fn like_pattern(v: Seq<char>) -> Seq<char> {
    seq!['%'] + v + seq!['%']
}

/// The columns of an email row, in the order rows are read.
pub open spec fn email_select() -> Seq<char> {
    "SELECT id, change_key, folder_id, subject, sender_name, sender_email, to_recipients, cc_recipients, body_text, body_html, has_attachments, is_read, importance, datetime_received, datetime_sent, cached_at FROM emails"@
}

/// The text of the search statement: one condition for each filter given.
pub open spec fn search_sql(
    query: Option<Seq<char>>,
    subject: Option<Seq<char>>,
    sender: Option<Seq<char>>,
    date_from: Option<Seq<char>>,
    date_to: Option<Seq<char>>,
    folder_id: Option<Seq<char>>,
    include_body: bool,
) -> Seq<char> {
    email_select() + " WHERE 1=1"@ + (if folder_id is Some {
        " AND folder_id = ?"@
    } else {
        seq![]
    }) + (if present(subject) {
        " AND LOWER(subject) LIKE LOWER(?)"@
    } else {
        seq![]
    }) + (if present(sender) {
        " AND (LOWER(sender_email) LIKE LOWER(?) OR LOWER(sender_name) LIKE LOWER(?))"@
    } else {
        seq![]
    }) + (if present(query) {
        if include_body {
            " AND (LOWER(subject) LIKE LOWER(?) OR LOWER(sender_email) LIKE LOWER(?) OR LOWER(sender_name) LIKE LOWER(?) OR LOWER(body_text) LIKE LOWER(?))"@
        } else {
            " AND (LOWER(subject) LIKE LOWER(?) OR LOWER(sender_email) LIKE LOWER(?) OR LOWER(sender_name) LIKE LOWER(?))"@
        }
    } else {
        seq![]
    }) + (if present(date_from) {
        " AND datetime_received IS NOT NULL AND datetime_received >= ?"@
    } else {
        seq![]
    }) + (if present(date_to) {
        " AND datetime_received IS NOT NULL AND datetime_received <= ?"@
    } else {
        seq![]
    }) + " ORDER BY datetime_received DESC LIMIT ?"@
}

/// The values bound to the search statement, in the order of its `?`s; the
/// limit is at least one.
pub open spec fn search_args(
    query: Option<Seq<char>>,
    subject: Option<Seq<char>>,
    sender: Option<Seq<char>>,
    date_from: Option<Seq<char>>,
    date_to: Option<Seq<char>>,
    folder_id: Option<Seq<char>>,
    limit: int,
    include_body: bool,
) -> Seq<SqlArg> {
    (if folder_id is Some {
        seq![SqlArg::Text(folder_id->0)]
    } else {
        seq![]
    }) + pattern_args(subject, 1) + pattern_args(sender, 2) + pattern_args(
        query,
        if include_body {
            4
        } else {
            3
        },
    ) + text_arg(date_from) + text_arg(date_to) + seq![
        SqlArg::Int(
            if limit < 1 {
                1
            } else {
                limit
            },
        ),
    ]
}

/// `n` copies of the pattern for a filter that is present.
pub open spec fn pattern_args(f: Option<Seq<char>>, n: nat) -> Seq<SqlArg> {
    if present(f) {
        repeat_text(like_pattern(f->0), n)
    } else {
        seq![]
    }
}

/// The value of a filter that is present.
pub open spec fn text_arg(f: Option<Seq<char>>) -> Seq<SqlArg> {
    if present(f) {
        seq![SqlArg::Text(f->0)]
    } else {
        seq![]
    }
}

/// `n` copies of the text argument `v`.
pub open spec fn repeat_text(v: Seq<char>, n: nat) -> Seq<SqlArg>
    decreases n,
{
    if n == 0 {
        seq![]
    } else {
        repeat_text(v, (n - 1) as nat).push(SqlArg::Text(v))
    }
}

fn is_present(o: Option<&str>) -> (r: bool)
    ensures
        r == present(opt_str(o)),
{
    match o {
        Some(s) => !is_blank(s),
        None => false,
    }
}

fn like_of(v: &str) -> (r: String)
    ensures
        r@ == like_pattern(v@),
{
    let mut s = String::new();
    crate::text::push_char(&mut s, '%');
    s.append(v);
    crate::text::push_char(&mut s, '%');
    s
}

fn push_text_times(args: &mut Vec<SqlParam>, v: &str, n: usize)
    ensures
        args_view(final(args)@) == args_view(old(args)@) + repeat_text(v@, n as nat),
{
    let ghost before = args_view(args@);
    let mut i: usize = 0;
    while i < n
        invariant
            i <= n,
            args_view(args@) == before + repeat_text(v@, i as nat),
        decreases n - i,
    {
        let ghost old_args = args@;
        let t = v.to_owned();
        assert(arg_view(SqlParam::Text(t)) == SqlArg::Text(v@));
        args.push(SqlParam::Text(t));
        assert(args_view(args@) =~= args_view(old_args).push(SqlArg::Text(v@)));
        i += 1;
        assert(args_view(args@) =~= before + repeat_text(v@, i as nat));
    }
}

/// Adds `clause` and `n` copies of the pattern of `f` when `f` is present.
fn add_pattern_filter(sql: &mut String, args: &mut Vec<SqlParam>, f: Option<&str>, clause: &str, n: usize)
    ensures
        final(sql)@ == old(sql)@ + (if present(opt_str(f)) {
            clause@
        } else {
            seq![]
        }),
        args_view(final(args)@) == args_view(old(args)@) + pattern_args(opt_str(f), n as nat),
{
    if is_present(f) {
        sql.append(clause);
        let p = like_of(f.unwrap());
        push_text_times(args, p.as_str(), n);
    } else {
        assert(old(sql)@ + seq![] =~= old(sql)@);
        assert(args_view(old(args)@) + seq![] =~= args_view(old(args)@));
    }
}

/// Adds `clause` and the value of `f` when `f` is present.
fn add_text_filter(sql: &mut String, args: &mut Vec<SqlParam>, f: Option<&str>, clause: &str)
    ensures
        final(sql)@ == old(sql)@ + (if present(opt_str(f)) {
            clause@
        } else {
            seq![]
        }),
        args_view(final(args)@) == args_view(old(args)@) + text_arg(opt_str(f)),
{
    if is_present(f) {
        sql.append(clause);
        let t = f.unwrap().to_owned();
        let ghost old_args = args@;
        args.push(SqlParam::Text(t));
        assert(args_view(args@) =~= args_view(old_args).push(SqlArg::Text(f.unwrap()@)));
    } else {
        assert(old(sql)@ + seq![] =~= old(sql)@);
        assert(args_view(old(args)@) + seq![] =~= args_view(old(args)@));
    }
}

/// The statement and arguments of a cache search.  `folder_id` restricts
/// the search when given; the other filters count when they hold more than
/// whitespace; `query` matches subject, sender address or name, and with
/// `include_body` the body text; newest first, at most `max(limit, 1)` rows.
pub fn build_search_query(
    query: Option<&str>,
    subject: Option<&str>,
    sender: Option<&str>,
    date_from: Option<&str>,
    date_to: Option<&str>,
    folder_id: Option<&str>,
    limit: i32,
    include_body: bool,
) -> (r: (String, Vec<SqlParam>))
    ensures
        r.0@ == search_sql(
            opt_str(query),
            opt_str(subject),
            opt_str(sender),
            opt_str(date_from),
            opt_str(date_to),
            opt_str(folder_id),
            include_body,
        ),
        args_view(r.1@) == search_args(
            opt_str(query),
            opt_str(subject),
            opt_str(sender),
            opt_str(date_from),
            opt_str(date_to),
            opt_str(folder_id),
            limit as int,
            include_body,
        ),
{
    let mut sql = String::from_str(
        "SELECT id, change_key, folder_id, subject, sender_name, sender_email, to_recipients, cc_recipients, body_text, body_html, has_attachments, is_read, importance, datetime_received, datetime_sent, cached_at FROM emails",
    );
    sql.append(" WHERE 1=1");
    let mut args: Vec<SqlParam> = Vec::new();
    match folder_id {
        Some(f) => {
            sql.append(" AND folder_id = ?");
            let t = f.to_owned();
            args.push(SqlParam::Text(t));
            assert(args_view(args@) =~= seq![SqlArg::Text(f@)]);
        },
        None => {
            assert(args_view(args@) =~= Seq::<SqlArg>::empty());
        },
    }
    add_pattern_filter(&mut sql, &mut args, subject, " AND LOWER(subject) LIKE LOWER(?)", 1);
    add_pattern_filter(
        &mut sql,
        &mut args,
        sender,
        " AND (LOWER(sender_email) LIKE LOWER(?) OR LOWER(sender_name) LIKE LOWER(?))",
        2,
    );
    if include_body {
        add_pattern_filter(
            &mut sql,
            &mut args,
            query,
            " AND (LOWER(subject) LIKE LOWER(?) OR LOWER(sender_email) LIKE LOWER(?) OR LOWER(sender_name) LIKE LOWER(?) OR LOWER(body_text) LIKE LOWER(?))",
            4,
        );
    } else {
        add_pattern_filter(
            &mut sql,
            &mut args,
            query,
            " AND (LOWER(subject) LIKE LOWER(?) OR LOWER(sender_email) LIKE LOWER(?) OR LOWER(sender_name) LIKE LOWER(?))",
            3,
        );
    }
    add_text_filter(
        &mut sql,
        &mut args,
        date_from,
        " AND datetime_received IS NOT NULL AND datetime_received >= ?",
    );
    add_text_filter(
        &mut sql,
        &mut args,
        date_to,
        " AND datetime_received IS NOT NULL AND datetime_received <= ?",
    );
    sql.append(" ORDER BY datetime_received DESC LIMIT ?");
    let lim: i64 = if limit < 1 {
        1
    } else {
        limit as i64
    };
    let ghost old_args = args@;
    args.push(SqlParam::Int(lim));
    assert(args_view(args@) =~= args_view(old_args).push(SqlArg::Int(lim as int)));
    assert(sql@ =~= search_sql(
        opt_str(query),
        opt_str(subject),
        opt_str(sender),
        opt_str(date_from),
        opt_str(date_to),
        opt_str(folder_id),
        include_body,
    ));
    assert(args_view(args@) =~= search_args(
        opt_str(query),
        opt_str(subject),
        opt_str(sender),
        opt_str(date_from),
        opt_str(date_to),
        opt_str(folder_id),
        limit as int,
        include_body,
    ));
    (sql, args)
}

/// The statement listing a folder's emails, newest first, optionally only
/// the unread ones; its arguments are the folder id and the limit.
pub fn list_emails_sql(unread_only: bool) -> (r: String)
    ensures
        r@ == email_select() + (if unread_only {
            " WHERE folder_id = ?1 AND is_read = 0 ORDER BY datetime_received DESC LIMIT ?2"@
        } else {
            " WHERE folder_id = ?1 ORDER BY datetime_received DESC LIMIT ?2"@
        }),
{
    let mut sql = String::from_str(
        "SELECT id, change_key, folder_id, subject, sender_name, sender_email, to_recipients, cc_recipients, body_text, body_html, has_attachments, is_read, importance, datetime_received, datetime_sent, cached_at FROM emails",
    );
    if unread_only {
        sql.append(" WHERE folder_id = ?1 AND is_read = 0 ORDER BY datetime_received DESC LIMIT ?2");
    } else {
        sql.append(" WHERE folder_id = ?1 ORDER BY datetime_received DESC LIMIT ?2");
    }
    sql
}

/// The ids among `existing` that `keep` does not hold, in their order.
pub fn ids_not_in(existing: &Vec<String>, keep: &Vec<String>) -> (r: Vec<String>)
    ensures
        views(r@) == views(existing@).filter(|id: Seq<char>| !views(keep@).contains(id)),
{
    let ghost kv = views(keep@);
    let ghost pred = |id: Seq<char>| !kv.contains(id);
    let mut r: Vec<String> = Vec::new();
    let mut i: usize = 0;
    while i < existing.len()
        invariant
            i <= existing@.len(),
            kv == views(keep@),
            pred == (|id: Seq<char>| !kv.contains(id)),
            views(r@) == views(existing@.subrange(0, i as int)).filter(pred),
        decreases existing.len() - i,
    {
        let mut found = false;
        let mut j: usize = 0;
        while j < keep.len()
            invariant
                j <= keep@.len(),
                i < existing@.len(),
                kv == views(keep@),
                found == exists|k: int| 0 <= k < j && keep@[k]@ == existing@[i as int]@,
            decreases keep.len() - j,
        {
            if keep[j] == existing[i] {
                found = true;
            }
            j += 1;
        }
        assert(found == kv.contains(existing@[i as int]@)) by {
            if found {
                let k = choose|k: int| 0 <= k < keep@.len() && keep@[k]@ == existing@[i as int]@;
                assert(kv[k] == existing@[i as int]@);
            }
            if kv.contains(existing@[i as int]@) {
                let k = choose|k: int| 0 <= k < kv.len() && kv[k] == existing@[i as int]@;
                assert(keep@[k]@ == existing@[i as int]@);
            }
        }
        let ghost prev = existing@.subrange(0, i as int);
        assert(existing@.subrange(0, i + 1) == prev.push(existing@[i as int]));
        assert(views(prev.push(existing@[i as int])) =~= views(prev).push(existing@[i as int]@));
        assert(views(prev).push(existing@[i as int]@).drop_last() =~= views(prev));
        proof {
            reveal_with_fuel(Seq::<_>::filter, 1);
        }
        if !found {
            r.push(existing[i].clone());
        }
        i += 1;
        assert(views(r@) =~= views(existing@.subrange(0, i as int)).filter(pred));
    }
    assert(existing@.subrange(0, existing@.len() as int) == existing@);
    r
}

/// The folders that carry an id beyond whitespace, in their order.
pub fn folders_with_ids(folders: Vec<CachedFolder>) -> (r: Vec<CachedFolder>)
    ensures
        r@ == folders@.filter(|f: CachedFolder| trim(f.id@).len() > 0),
{
    let ghost pred = |f: CachedFolder| trim(f.id@).len() > 0;
    let mut r: Vec<CachedFolder> = Vec::new();
    let mut i: usize = 0;
    while i < folders.len()
        invariant
            i <= folders@.len(),
            pred == (|f: CachedFolder| trim(f.id@).len() > 0),
            r@ == folders@.subrange(0, i as int).filter(pred),
        decreases folders.len() - i,
    {
        let ghost prev = folders@.subrange(0, i as int);
        assert(folders@.subrange(0, i + 1) == prev.push(folders@[i as int]));
        assert(prev.push(folders@[i as int]).drop_last() =~= prev);
        proof {
            reveal_with_fuel(Seq::<_>::filter, 1);
        }
        if !is_blank(folders[i].id.as_str()) {
            r.push(folders[i].clone());
        }
        i += 1;
        assert(r@ =~= folders@.subrange(0, i as int).filter(pred));
    }
    assert(folders@.subrange(0, folders@.len() as int) == folders@);
    r
}


proof fn lemma_push_new(out: Seq<Seq<char>>, v: Seq<char>)
    requires
        out.no_duplicates(),
        forall|i: int| 0 <= i < out.len() ==> (#[trigger] out[i]).len() > 0,
    ensures
        push_new(out, v).no_duplicates(),
        forall|i: int| 0 <= i < push_new(out, v).len() ==> (#[trigger] push_new(out, v)[i]).len() > 0,
        v.len() > 0 ==> push_new(out, v).contains(v),
        forall|i: int| 0 <= i < out.len() ==> push_new(out, v)[i] == out[i],
        push_new(out, v).len() >= out.len(),
{
    let n = push_new(out, v);
    if v.len() > 0 && !out.contains(v) {
        assert(n[out.len() as int] == v);
        assert forall|i: int, j: int| 0 <= i < n.len() && 0 <= j < n.len() && i != j implies n[i] != n[j] by {
            if i < out.len() && j < out.len() {
            } else if i < out.len() {
                assert(n[i] == out[i]);
            } else if j < out.len() {
                assert(n[j] == out[j]);
            }
        }
    } else if v.len() > 0 {
    }
}

/// The ids tried for a requested email id are distinct and non-empty; a
/// non-empty request is tried first as given, and its trimmed and unwrapped
/// forms are tried too.
pub proof fn id_candidates_are_distinct(raw: Seq<char>)
    ensures
        id_candidates(raw).no_duplicates(),
        forall|i: int| 0 <= i < id_candidates(raw).len() ==> (#[trigger] id_candidates(raw)[i]).len() > 0,
        raw.len() > 0 ==> id_candidates(raw).len() > 0 && id_candidates(raw)[0] == raw,
        trim(raw).len() > 0 ==> id_candidates(raw).contains(trim(raw)),
        unwrapped(trim(raw)).len() > 0 ==> id_candidates(raw).contains(unwrapped(trim(raw))),
{
    let t = trim(raw);
    let e: Seq<Seq<char>> = seq![];
    lemma_push_new(e, raw);
    let a = push_new(e, raw);
    lemma_push_new(a, t);
    let b = push_new(a, t);
    lemma_push_new(b, unwrapped(t));
    let base = push_new(b, unwrapped(t));
    if t.len() > 0 {
        let w = choose|k: int| 0 <= k < b.len() && b[k] == t;
        assert(base[w] == t);
    }
    if raw.len() > 0 {
        assert(a[0] == raw);
        assert(b[0] == raw);
        assert(base[0] == raw);
    }
    if t.contains(' ') {
        let p = spaces_to_plus(t);
        lemma_push_new(base, p);
        let c = push_new(base, p);
        lemma_push_new(c, unwrapped(p));
        let d = push_new(c, unwrapped(p));
        if raw.len() > 0 {
            assert(c[0] == raw);
            assert(d[0] == raw);
        }
        if t.len() > 0 {
            let w = choose|k: int| 0 <= k < base.len() && base[k] == t;
            assert(c[w] == t);
            assert(d[w] == t);
        }
        if unwrapped(t).len() > 0 {
            let w = choose|k: int| 0 <= k < base.len() && base[k] == unwrapped(t);
            assert(c[w] == unwrapped(t));
            assert(d[w] == unwrapped(t));
        }
    }
}

/// The condition of the lower end of a date window: received at or after.
pub open spec fn received_from_clause() -> Seq<char> {
    " AND datetime_received IS NOT NULL AND datetime_received >= ?"@
}

/// The condition of the upper end of a date window: received at or before.
pub open spec fn received_to_clause() -> Seq<char> {
    " AND datetime_received IS NOT NULL AND datetime_received <= ?"@
}

/// The end of the search statement: the date window's conditions, then the
/// ordering and limit.
pub open spec fn window_tail(date_from: Option<Seq<char>>, date_to: Option<Seq<char>>) -> Seq<char> {
    (if present(date_from) {
        received_from_clause()
    } else {
        seq![]
    }) + (if present(date_to) {
        received_to_clause()
    } else {
        seq![]
    }) + " ORDER BY datetime_received DESC LIMIT ?"@
}

/// The values the end of the search statement binds: `date_from`, then
/// `date_to`, each when given, then the limit (at least one).
pub open spec fn window_values(date_from: Option<Seq<char>>, date_to: Option<Seq<char>>, limit: int) -> Seq<SqlArg> {
    (if present(date_from) {
        seq![SqlArg::Text(date_from->0)]
    } else {
        seq![]
    }) + (if present(date_to) {
        seq![SqlArg::Text(date_to->0)]
    } else {
        seq![]
    }) + seq![SqlArg::Int(if limit < 1 { 1 } else { limit })]
}

proof fn lemma_sql_tail(
    query: Option<Seq<char>>,
    subject: Option<Seq<char>>,
    sender: Option<Seq<char>>,
    date_from: Option<Seq<char>>,
    date_to: Option<Seq<char>>,
    folder_id: Option<Seq<char>>,
    include_body: bool,
)
    ensures
        ({
            let sql = search_sql(query, subject, sender, date_from, date_to, folder_id, include_body);
            let w = window_tail(date_from, date_to);
            w.len() <= sql.len() && sql.subrange(sql.len() - w.len(), sql.len() as int) == w
        }),
{
    let x = email_select() + " WHERE 1=1"@ + (if folder_id is Some {
        " AND folder_id = ?"@
    } else {
        seq![]
    }) + (if present(subject) {
        " AND LOWER(subject) LIKE LOWER(?)"@
    } else {
        seq![]
    }) + (if present(sender) {
        " AND (LOWER(sender_email) LIKE LOWER(?) OR LOWER(sender_name) LIKE LOWER(?))"@
    } else {
        seq![]
    }) + (if present(query) {
        if include_body {
            " AND (LOWER(subject) LIKE LOWER(?) OR LOWER(sender_email) LIKE LOWER(?) OR LOWER(sender_name) LIKE LOWER(?) OR LOWER(body_text) LIKE LOWER(?))"@
        } else {
            " AND (LOWER(subject) LIKE LOWER(?) OR LOWER(sender_email) LIKE LOWER(?) OR LOWER(sender_name) LIKE LOWER(?))"@
        }
    } else {
        seq![]
    });
    let fa = if present(date_from) { received_from_clause() } else { seq![] };
    let fb = if present(date_to) { received_to_clause() } else { seq![] };
    let fc = " ORDER BY datetime_received DESC LIMIT ?"@;
    assert(search_sql(query, subject, sender, date_from, date_to, folder_id, include_body) == x + fa + fb + fc);
    assert(window_tail(date_from, date_to) == fa + fb + fc);
    vstd::seq_lib::lemma_concat_associative(x, fa, fb);
    vstd::seq_lib::lemma_concat_associative(x, fa + fb, fc);
    lemma_tail(x, fa + fb + fc);
}

proof fn lemma_args_tail(
    query: Option<Seq<char>>,
    subject: Option<Seq<char>>,
    sender: Option<Seq<char>>,
    date_from: Option<Seq<char>>,
    date_to: Option<Seq<char>>,
    folder_id: Option<Seq<char>>,
    limit: int,
    include_body: bool,
)
    ensures
        ({
            let args = search_args(query, subject, sender, date_from, date_to, folder_id, limit, include_body);
            let v = window_values(date_from, date_to, limit);
            v.len() <= args.len() && args.subrange(args.len() - v.len(), args.len() as int) == v
        }),
{
    let y = (if folder_id is Some {
        seq![SqlArg::Text(folder_id->0)]
    } else {
        seq![]
    }) + pattern_args(subject, 1) + pattern_args(sender, 2) + pattern_args(
        query,
        if include_body {
            4
        } else {
            3
        },
    );
    let va = text_arg(date_from);
    let vb = text_arg(date_to);
    let vc = seq![SqlArg::Int(if limit < 1 { 1 } else { limit })];
    assert(search_args(query, subject, sender, date_from, date_to, folder_id, limit, include_body) == y + va + vb + vc);
    assert(window_values(date_from, date_to, limit) == va + vb + vc);
    vstd::seq_lib::lemma_concat_associative(y, va, vb);
    vstd::seq_lib::lemma_concat_associative(y, va + vb, vc);
    lemma_tail(y, va + vb + vc);
}

/// The date window of a search binds as it reads: the statement ends with
/// the at-or-after condition when `date_from` is given, then the
/// at-or-before condition when `date_to` is given, then the ordering and
/// limit; and its values end with `date_from`, then `date_to`, then the
/// limit, so `date_from` is the lower bound and `date_to` the upper one.
pub proof fn search_date_window_binds_in_order(
    query: Option<Seq<char>>,
    subject: Option<Seq<char>>,
    sender: Option<Seq<char>>,
    date_from: Option<Seq<char>>,
    date_to: Option<Seq<char>>,
    folder_id: Option<Seq<char>>,
    limit: int,
    include_body: bool,
)
    ensures
        ({
            let sql = search_sql(query, subject, sender, date_from, date_to, folder_id, include_body);
            let w = window_tail(date_from, date_to);
            w.len() <= sql.len() && sql.subrange(sql.len() - w.len(), sql.len() as int) == w
        }),
        ({
            let args = search_args(query, subject, sender, date_from, date_to, folder_id, limit, include_body);
            let v = window_values(date_from, date_to, limit);
            v.len() <= args.len() && args.subrange(args.len() - v.len(), args.len() as int) == v
        }),
{
    lemma_sql_tail(query, subject, sender, date_from, date_to, folder_id, include_body);
    lemma_args_tail(query, subject, sender, date_from, date_to, folder_id, limit, include_body);
}

proof fn lemma_tail<A>(x: Seq<A>, w: Seq<A>)
    ensures
        (x + w).subrange(x.len() as int, (x + w).len() as int) == w,
{
    assert((x + w).subrange(x.len() as int, (x + w).len() as int) =~= w);
}

} // verus!