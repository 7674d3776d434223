//! The decisions of the skill front end that sit between the tools and the
//! two backends: which backend answers, the Graph-mode defaults and limits,
//! how cached folders are matched, how a Graph search is checked, and the
//! bookkeeping of a Graph sync run.
use vstd::prelude::*;
use crate::graph::{clamp_i32, contains_ci_spec, given, GraphSearchOptions};
use crate::models::{CachedFolder, SyncState};
use crate::text::{
    chars_of, decimal, eq_ignore_ascii_case, format_u64, is_blank, opt_string_view, parse_i32,
    parse_i32_spec, str_eq_ignore_ascii_case, trim, trim_str, string_from_chars,
};
use crate::time::{chrono_parse_rfc3339, read_rfc3339, Timestamp};
use crate::xml::{str_lowercase, to_lowercase};

verus! {

/// The polling interval of Graph mode: none outside Graph mode, and none
/// when the interval is zero.
pub open spec fn graph_poll_interval(graph_mode: bool, interval_secs: u64) -> Option<u64> {
    if !graph_mode || interval_secs == 0 {
        None
    } else {
        Some(interval_secs)
    }
}

/// How often Graph mode polls in the background, if it does.
pub fn graph_poll_interval_seconds(graph_mode: bool, interval_secs: u64) -> (r: Option<u64>)
    ensures
        r == graph_poll_interval(graph_mode, interval_secs),
        interval_secs == 0 ==> r is None,
{
    if !graph_mode {
        return None;
    }
    if interval_secs == 0 {
        None
    } else {
        Some(interval_secs)
    }
}

/// Whether Graph mode is signed in: in Graph mode, with an auth config, and
/// a token to be had.
pub fn graph_auth_ready(graph_mode: bool, token: Option<(bool, Option<String>)>) -> (r: bool)
    ensures
        r == (graph_mode && match token {
            Some((ok, _)) => ok,
            None => false,
        }),
{
    if !graph_mode {
        return false;
    }
    match token {
        Some((ok, _)) => ok,
        None => false,
    }
}

/// The per-folder cap of a Graph sync: the configured number when it reads
/// as an `i32`, clamped to 1..=200; 200 otherwise.
pub open spec fn max_per_folder(configured: Option<Seq<char>>) -> i32 {
    match configured {
        Some(v) => match parse_i32_spec(v) {
            Some(n) => clamp_i32(n as i32, 1, 200),
            None => 200,
        },
        None => 200,
    }
}

/// The per-folder cap, from the value of `GRAPH_SYNC_MAX_PER_FOLDER`.
pub fn graph_sync_max_per_folder(configured: Option<String>) -> (r: i32)
    ensures
        r == max_per_folder(opt_string_view(configured)),
        1 <= r <= 200,
{
    match configured {
        Some(v) => {
            let c = chars_of(v.as_str());
            match parse_i32(c.as_slice()) {
                Some(n) => {
                    if n < 1 {
                        1
                    } else if n > 200 {
                        200
                    } else {
                        n
                    }
                },
                None => 200,
            }
        },
        None => 200,
    }
}

/// The folder and limits of a listing: the inbox when no folder is named,
/// `default_limit` when no limit is given, all messages unless only unread
/// ones are asked for.
pub fn listing_request(folder_name: Option<String>, limit: Option<i32>, unread_only: Option<bool>, default_limit: i32) -> (r: (String, i32, bool))
    ensures
        r.0@ == match opt_string_view(folder_name) {
            Some(f) => f,
            None => "inbox"@,
        },
        r.1 == match limit {
            Some(l) => l,
            None => default_limit,
        },
        r.2 == match unread_only {
            Some(u) => u,
            None => false,
        },
{
    let folder = match folder_name {
        Some(f) => f,
        None => String::from_str("inbox"),
    };
    let l = match limit {
        Some(l) => l,
        None => default_limit,
    };
    let u = match unread_only {
        Some(u) => u,
        None => false,
    };
    (folder, l, u)
}

/// The folder spec to look up in the cache: trimmed, none when blank.
pub fn cache_folder_spec(folder_spec: &str) -> (r: Option<String>)
    ensures
        match r {
            Some(s) => trim(folder_spec@).len() > 0 && s@ == trim(folder_spec@),
            None => trim(folder_spec@).len() == 0,
        },
{
    let t = trim_str(folder_spec);
    if t.as_str().is_empty() {
        None
    } else {
        Some(t)
    }
}

/// A cached folder answers to a spec by its id or display name, without
/// regard to ASCII case, or by its display name lower-cased.
pub open spec fn folder_answers_to(f: CachedFolder, spec: Seq<char>) -> bool {
    eq_ignore_ascii_case(f.id@, spec) || eq_ignore_ascii_case(f.display_name@, spec)
        || str_lowercase(f.display_name@) == str_lowercase(spec)
}

/// The first cached folder that answers to the spec, from position `i` on.
pub open spec fn first_answering(folders: Seq<CachedFolder>, spec: Seq<char>, i: int) -> Option<int>
    decreases folders.len() - i,
{
    if i < 0 || i >= folders.len() {
        None
    } else if folder_answers_to(folders[i], spec) {
        Some(i)
    } else {
        first_answering(folders, spec, i + 1)
    }
}

/// The id of the first cached folder that answers to a (trimmed) spec.
pub fn cache_folder_match(folders: &Vec<CachedFolder>, spec: &str) -> (r: Option<String>)
    ensures
        match first_answering(folders@, spec@, 0) {
            Some(i) => opt_string_view(r) == Some(folders@[i].id@),
            None => r is None,
        },
{
    let spec_norm = to_lowercase(spec);
    let mut i: usize = 0;
    while i < folders.len()
        invariant
            i <= folders@.len(),
            spec_norm@ == str_lowercase(spec@),
            first_answering(folders@, spec@, 0) == first_answering(folders@, spec@, i as int),
        decreases folders@.len() - i,
    {
        let f = &folders[i];
        let lower = to_lowercase(f.display_name.as_str());
        if str_eq_ignore_ascii_case(f.id.as_str(), spec) || str_eq_ignore_ascii_case(
            f.display_name.as_str(),
            spec,
        ) || lower == spec_norm {
            return Some(f.id.clone());
        }
        i += 1;
    }
    None
}

/// A Graph search needs at least one non-blank filter.
pub open spec fn has_search_filter(
    query: Option<Seq<char>>,
    subject: Option<Seq<char>>,
    sender: Option<Seq<char>>,
    date_from: Option<Seq<char>>,
    date_to: Option<Seq<char>>,
    folder_name: Option<Seq<char>>,
) -> bool {
    given(query) || given(subject) || given(sender) || given(date_from) || given(date_to) || given(
        folder_name,
    )
}

/// The limit of a search: 50 unless given, clamped to 1..=200.
pub open spec fn search_limit(limit: Option<i32>) -> i32 {
    clamp_i32(
        match limit {
            Some(l) => l,
            None => 50,
        },
        1,
        200,
    )
}

/// The limit a search runs with.
pub fn effective_search_limit(limit: Option<i32>) -> (r: i32)
    ensures
        r == search_limit(limit),
        1 <= r <= 200,
{
    let l = match limit {
        Some(l) => l,
        None => 50,
    };
    if l < 1 {
        1
    } else if l > 200 {
        200
    } else {
        l
    }
}

/// A date bound as read: absent, an instant, or the parse error.
pub open spec fn date_bound(v: Option<Seq<char>>) -> Result<Option<Timestamp>, Seq<char>> {
    match v {
        Some(s) => match chrono_parse_rfc3339(s) {
            Ok((secs, nanos)) => Ok(Some(Timestamp { secs, nanos })),
            Err(e) => Err(e),
        },
        None => Ok(None),
    }
}

fn read_date_bound(v: &Option<String>) -> (r: Result<Option<Timestamp>, String>)
    ensures
        match date_bound(opt_string_view(*v)) {
            Ok(t) => r == Ok::<Option<Timestamp>, String>(t),
            Err(e) => r matches Err(m) && m@ == e,
        },
{
    match v {
        Some(s) => match read_rfc3339(s.as_str()) {
            Ok(t) => Ok(Some(t)),
            Err(e) => Err(e),
        },
        None => Ok(None),
    }
}

/// The options of a Graph search, or why the search is refused: no filter
/// at all, or a date bound that is not RFC 3339.
pub open spec fn search_options_ok(
    r: Result<GraphSearchOptions, String>,
    query: Option<Seq<char>>,
    subject: Option<Seq<char>>,
    sender: Option<Seq<char>>,
    date_from: Option<Seq<char>>,
    date_to: Option<Seq<char>>,
    folder_name: Option<Seq<char>>,
    limit: Option<i32>,
    include_body: Option<bool>,
) -> bool {
    if !has_search_filter(query, subject, sender, date_from, date_to, folder_name) {
        r matches Err(m) && m@
            == "at least one search filter is required (query, subject, sender, date_from, date_to, folder_name)"@
    } else if date_bound(date_from) is Err {
        r matches Err(m) && m@ == "invalid date_from: "@ + date_bound(date_from)->Err_0
    } else if date_bound(date_to) is Err {
        r matches Err(m) && m@ == "invalid date_to: "@ + date_bound(date_to)->Err_0
    } else {
        r matches Ok(o) && opt_string_view(o.query) == query && opt_string_view(o.subject)
            == subject && opt_string_view(o.sender) == sender && o.date_from == date_bound(
            date_from,
        )->Ok_0 && o.date_to == date_bound(date_to)->Ok_0 && opt_string_view(o.folder_name)
            == folder_name && o.limit == search_limit(limit) && o.include_body == match include_body {
            Some(b) => b,
            None => true,
        }
    }
}

fn given_text(v: &Option<String>) -> (r: bool)
    ensures
        r == given(opt_string_view(*v)),
{
    match v {
        Some(s) => !is_blank(s.as_str()),
        None => false,
    }
}

/// Checks a Graph search request and gives its options.
pub fn graph_search_options(
    query: Option<String>,
    subject: Option<String>,
    sender: Option<String>,
    date_from: Option<String>,
    date_to: Option<String>,
    folder_name: Option<String>,
    limit: Option<i32>,
    include_body: Option<bool>,
) -> (r: Result<GraphSearchOptions, String>)
    ensures
        search_options_ok(
            r,
            opt_string_view(query),
            opt_string_view(subject),
            opt_string_view(sender),
            opt_string_view(date_from),
            opt_string_view(date_to),
            opt_string_view(folder_name),
            limit,
            include_body,
        ),
{
    let has_filter = given_text(&query) || given_text(&subject) || given_text(&sender) || given_text(
        &date_from,
    ) || given_text(&date_to) || given_text(&folder_name);
    if !has_filter {
        return Err(
            String::from_str(
                "at least one search filter is required (query, subject, sender, date_from, date_to, folder_name)",
            ),
        );
    }
    let from = match read_date_bound(&date_from) {
        Ok(v) => v,
        Err(e) => {
            let mut m = String::from_str("invalid date_from: ");
            m.append(e.as_str());
            return Err(m);
        },
    };
    let to = match read_date_bound(&date_to) {
        Ok(v) => v,
        Err(e) => {
            let mut m = String::from_str("invalid date_to: ");
            m.append(e.as_str());
            return Err(m);
        },
    };
    Ok(
        GraphSearchOptions {
            query,
            subject,
            sender,
            date_from: from,
            date_to: to,
            folder_name,
            limit: effective_search_limit(limit),
            include_body: match include_body {
                Some(b) => b,
                None => true,
            },
        },
    )
}

/// A folder a Graph sync goes through: the spec it was named by, and its id.
#[derive(Debug)]
pub struct GraphSyncFolder {
    pub spec: String,
    pub folder_id: String,
}

/// The ids of the selected folders.
pub open spec fn selected_ids(v: Seq<GraphSyncFolder>) -> Seq<Seq<char>> {
    v.map_values(|f: GraphSyncFolder| f.folder_id@)
}

/// The record of a Graph sync run: the folders it goes through, the errors
/// it met, the specs that failed, and what it synced.
#[derive(Debug)]
pub struct GraphSyncReport {
    pub selected: Vec<GraphSyncFolder>,
    pub errors: Vec<String>,
    pub failed_specs: Vec<String>,
    pub folders_synced: usize,
    pub emails_synced: usize,
}

fn selected_contains(v: &Vec<GraphSyncFolder>, id: &str) -> (r: bool)
    ensures
        r == selected_ids(v@).contains(id@),
{
    let mut i: usize = 0;
    while i < v.len()
        invariant
            i <= v@.len(),
            forall|k: int| 0 <= k < i ==> #[trigger] selected_ids(v@)[k] != id@,
        decreases v@.len() - i,
    {
        if crate::text::str_eq(v[i].folder_id.as_str(), id) {
            assert(selected_ids(v@)[i as int] == id@);
            return true;
        }
        i += 1;
    }
    false
}

fn texts_contain(v: &Vec<String>, s: &str) -> (r: bool)
    ensures
        r == v@.map_values(|x: String| x@).contains(s@),
{
    let ghost w = v@.map_values(|x: String| x@);
    let mut i: usize = 0;
    while i < v.len()
        invariant
            i <= v@.len(),
            w == v@.map_values(|x: String| x@),
            forall|k: int| 0 <= k < i ==> #[trigger] w[k] != s@,
        decreases v@.len() - i,
    {
        if crate::text::str_eq(v[i].as_str(), s) {
            assert(w[i as int] == s@);
            return true;
        }
        i += 1;
    }
    false
}

proof fn lemma_push_keeps_distinct(s: Seq<Seq<char>>, x: Seq<char>)
    requires
        s.no_duplicates(),
        !s.contains(x),
    ensures
        s.push(x).no_duplicates(),
{
    let t = s.push(x);
    assert forall|i: int, j: int| 0 <= i < t.len() && 0 <= j < t.len() && i != j implies t[i] != t[j] by {
        if i < s.len() && j < s.len() {
            assert(t[i] == s[i] && t[j] == s[j]);
        } else if i < s.len() {
            assert(t[i] == s[i]);
        } else if j < s.len() {
            assert(t[j] == s[j]);
        }
    }
}

impl GraphSyncReport {
    /// A folder is selected once; a spec fails at most once; every failed
    /// spec came with an error.
    pub open spec fn wf(&self) -> bool {
        &&& selected_ids(self.selected@).no_duplicates()
        &&& self.failed_specs@.map_values(|s: String| s@).no_duplicates()
        &&& self.failed_specs@.len() <= self.errors@.len()
    }

    /// A run that has not started.
    pub fn new() -> (r: Self)
        ensures
            r.wf(),
            r.selected@.len() == 0,
            r.errors@.len() == 0,
            r.failed_specs@.len() == 0,
            r.folders_synced == 0,
            r.emails_synced == 0,
    {
        let r = GraphSyncReport {
            selected: Vec::new(),
            errors: Vec::new(),
            failed_specs: Vec::new(),
            folders_synced: 0,
            emails_synced: 0,
        };
        assert(selected_ids(r.selected@) =~= Seq::<Seq<char>>::empty());
        assert(r.failed_specs@.map_values(|s: String| s@) =~= Seq::<Seq<char>>::empty());
        r
    }

    /// Selects a folder unless its id is already selected.  Returns whether
    /// it was new.
    pub fn select(&mut self, spec: String, folder_id: String) -> (added: bool)
        requires
            old(self).wf(),
        ensures
            final(self).wf(),
            added == !selected_ids(old(self).selected@).contains(folder_id@),
            added ==> final(self).selected@ == old(self).selected@.push(
                (GraphSyncFolder { spec, folder_id }),
            ),
            !added ==> final(self).selected@ == old(self).selected@,
            final(self).errors@ == old(self).errors@,
            final(self).failed_specs@ == old(self).failed_specs@,
            final(self).folders_synced == old(self).folders_synced,
            final(self).emails_synced == old(self).emails_synced,
    {
        if selected_contains(&self.selected, folder_id.as_str()) {
            return false;
        }
        let ghost before = self.selected@;
        let ghost id = folder_id@;
        self.selected.push(GraphSyncFolder { spec, folder_id });
        assert(selected_ids(self.selected@) =~= selected_ids(before).push(id));
        proof {
            lemma_push_keeps_distinct(selected_ids(before), id);
        }
        true
    }

    /// Records a folder that could not be resolved or listed.
    pub fn fail(&mut self, spec: &str, error: &str)
        requires
            old(self).wf(),
        ensures
            final(self).wf(),
            final(self).errors@.map_values(|s: String| s@) == old(self).errors@.map_values(
                |s: String| s@,
            ).push(spec@ + ": "@ + error@),
            old(self).failed_specs@.map_values(|s: String| s@).contains(spec@) ==> final(self).failed_specs@
                == old(self).failed_specs@,
            !old(self).failed_specs@.map_values(|s: String| s@).contains(spec@) ==> final(self).failed_specs@.map_values(
                |s: String| s@,
            ) == old(self).failed_specs@.map_values(|s: String| s@).push(spec@),
            final(self).selected@ == old(self).selected@,
            final(self).folders_synced == old(self).folders_synced,
            final(self).emails_synced == old(self).emails_synced,
    {
        let ghost old_errors = self.errors@;
        let ghost old_failed = self.failed_specs@;
        let mut m = String::from_str(spec);
        m.append(": ");
        m.append(error);
        self.errors.push(m);
        assert(self.errors@.map_values(|s: String| s@) =~= old_errors.map_values(|s: String| s@).push(
            spec@ + ": "@ + error@,
        ));
        if !texts_contain(&self.failed_specs, spec) {
            self.failed_specs.push(String::from_str(spec));
            assert(self.failed_specs@.map_values(|s: String| s@) =~= old_failed.map_values(
                |s: String| s@,
            ).push(spec@));
            proof {
                lemma_push_keeps_distinct(old_failed.map_values(|s: String| s@), spec@);
            }
        }
    }

    /// Records a folder synced with `count` emails.
    pub fn synced(&mut self, count: usize)
        requires
            old(self).wf(),
            old(self).folders_synced < usize::MAX,
            old(self).emails_synced + count <= usize::MAX,
        ensures
            final(self).wf(),
            final(self).folders_synced == old(self).folders_synced + 1,
            final(self).emails_synced == old(self).emails_synced + count,
            final(self).selected@ == old(self).selected@,
            final(self).errors@ == old(self).errors@,
            final(self).failed_specs@ == old(self).failed_specs@,
    {
        self.folders_synced = self.folders_synced + 1;
        self.emails_synced = self.emails_synced + count;
    }

    /// The message of the run's result.
    pub fn message(&self) -> (r: String)
        ensures
            r@ == if self.errors@.len() == 0 {
                "Sync completed"@
            } else {
                "Sync completed with errors"@
            },
    {
        if self.errors.len() == 0 {
            String::from_str("Sync completed")
        } else {
            String::from_str("Sync completed with errors")
        }
    }
}

/// Every selected folder is an enrolled one, under its display name.
pub open spec fn drawn_from(sel: Seq<GraphSyncFolder>, enrolled: Seq<CachedFolder>) -> bool {
    forall|k: int|
        0 <= k < sel.len() ==> exists|j: int|
            0 <= j < enrolled.len() && enrolled[j].id@ == (#[trigger] sel[k]).folder_id@
                && enrolled[j].display_name@ == sel[k].spec@
}

/// The selected folders as (display name, id) pairs.
pub open spec fn selection_view(v: Seq<GraphSyncFolder>) -> Seq<(Seq<char>, Seq<char>)> {
    v.map_values(|f: GraphSyncFolder| (f.spec@, f.folder_id@))
}

/// The selection `base` extended by the first `n` enrolled folders: each
/// id not yet selected is added once, in the order of its first occurrence
/// and under the display name it first came with.
pub open spec fn enrolled_selection_from(base: Seq<(Seq<char>, Seq<char>)>, e: Seq<CachedFolder>, n: nat) -> Seq<(Seq<char>, Seq<char>)>
    decreases n,
{
    if n == 0 || n > e.len() {
        base
    } else {
        let p = enrolled_selection_from(base, e, (n - 1) as nat);
        let f = e[n - 1];
        if p.map_values(|x: (Seq<char>, Seq<char>)| x.1).contains(f.id@) {
            p
        } else {
            p.push((f.display_name@, f.id@))
        }
    }
}

/// The first `n` enrolled folders, each id once, in the order of its first
/// occurrence and under the display name it first came with.
pub open spec fn enrolled_selection(e: Seq<CachedFolder>, n: nat) -> Seq<(Seq<char>, Seq<char>)> {
    enrolled_selection_from(seq![], e, n)
}

/// The folders a Graph sync goes through when folders are already enrolled:
/// each enrolled folder once, by its display name.
pub fn select_enrolled(enrolled: Vec<CachedFolder>) -> (r: GraphSyncReport)
    ensures
        selection_view(r.selected@) == enrolled_selection(enrolled@, enrolled@.len()),
        r.wf(),
        r.errors@.len() == 0,
        r.failed_specs@.len() == 0,
        r.folders_synced == 0,
        r.emails_synced == 0,
        forall|k: int|
            0 <= k < enrolled@.len() ==> selected_ids(r.selected@).contains(#[trigger] enrolled@[k].id@),
        drawn_from(r.selected@, enrolled@),
{
    let mut report = GraphSyncReport::new();
    let mut i: usize = 0;
    while i < enrolled.len()
        invariant
            i <= enrolled@.len(),
            report.wf(),
            report.errors@.len() == 0,
            report.failed_specs@.len() == 0,
            report.folders_synced == 0,
            report.emails_synced == 0,
            forall|k: int| 0 <= k < i ==> selected_ids(report.selected@).contains(#[trigger] enrolled@[k].id@),
            drawn_from(report.selected@, enrolled@),
            selection_view(report.selected@) == enrolled_selection(enrolled@, i as nat),
        decreases enrolled@.len() - i,
    {
        let f = &enrolled[i];
        let ghost before = report.selected@;
        assert(selected_ids(before) =~= enrolled_selection(enrolled@, i as nat).map_values(
            |x: (Seq<char>, Seq<char>)| x.1,
        ));
        let added = report.select(f.display_name.clone(), f.id.clone());
        assert(selection_view(report.selected@) =~= enrolled_selection(enrolled@, (i + 1) as nat));
        proof {
            if added {
                assert(selected_ids(report.selected@)[before.len() as int] == enrolled@[i as int].id@);
                assert forall|k: int| 0 <= k < i + 1 implies selected_ids(report.selected@).contains(
                    #[trigger] enrolled@[k].id@,
                ) by {
                    if k < i {
                        let w = choose|w: int| 0 <= w < selected_ids(before).len() && selected_ids(before)[w] == enrolled@[k].id@;
                        assert(selected_ids(report.selected@)[w] == enrolled@[k].id@);
                    }
                }
                assert forall|k: int| 0 <= k < report.selected@.len() implies exists|j: int|
                    0 <= j < enrolled@.len() && enrolled@[j].id@ == (#[trigger] report.selected@[k]).folder_id@
                        && enrolled@[j].display_name@ == report.selected@[k].spec@ by {
                    if k < before.len() {
                        assert(report.selected@[k] == before[k]);
                        assert(exists|j: int|
                            0 <= j < enrolled@.len() && enrolled@[j].id@ == (#[trigger] before[k]).folder_id@
                                && enrolled@[j].display_name@ == before[k].spec@);
                    } else {
                        assert(enrolled@[i as int].id@ == report.selected@[k].folder_id@);
                    }
                }
            }
        }
        i += 1;
    }
    report
}

/// The health summary of Graph mode: `ready` or `auth_required`, and the
/// progress as `synced/total folders`.
pub open spec fn graph_health_view(token_ok: bool, synced: nat, total: nat) -> (Seq<char>, Seq<char>) {
    (
        if token_ok {
            "ready"@
        } else {
            "auth_required"@
        },
        decimal(synced) + "/"@ + decimal(total) + " folders"@,
    )
}

/// The status and progress Graph mode reports.
pub fn graph_health_summary(token_ok: bool, synced_folders: u64, total_folders: u64) -> (r: (String, String))
    ensures
        (r.0@, r.1@) == graph_health_view(token_ok, synced_folders as nat, total_folders as nat),
{
    let status = if token_ok {
        String::from_str("ready")
    } else {
        String::from_str("auth_required")
    };
    let mut progress = format_u64(synced_folders);
    progress.append("/");
    progress.append(format_u64(total_folders).as_str());
    progress.append(" folders");
    (status, progress)
}

/// The sync state recorded for a folder that Graph mode has synced: Graph
/// keeps no server-side state, only that the latest messages were fetched.
pub fn graph_folder_synced(folder_id: String, at: Timestamp) -> (r: SyncState)
    ensures
        r.folder_id == folder_id,
        r.sync_state@ == "graph_latest"@,
        r.last_sync_at == at,
{
    SyncState { folder_id, sync_state: String::from_str("graph_latest"), last_sync_at: at }
}

/// A configured folder and what resolving it on the server gave: its id,
/// or the error.
pub type ResolvedView = (Seq<char>, Result<Seq<char>, Seq<char>>);

pub open spec fn resolved_view(v: Seq<(String, Result<String, String>)>) -> Seq<ResolvedView> {
    v.map_values(
        |p: (String, Result<String, String>)|
            (
                p.0@,
                match p.1 {
                    Ok(id) => Ok(id@),
                    Err(e) => Err(e@),
                },
            ),
    )
}

/// The ids of a selection.
pub open spec fn selection_ids(sel: Seq<(Seq<char>, Seq<char>)>) -> Seq<Seq<char>> {
    sel.map_values(|x: (Seq<char>, Seq<char>)| x.1)
}

/// A sync run after the first `n` configured folders: the folders selected
/// (a resolved folder once per id, under its configured name), the errors
/// met (`spec: error`), and the configured names that failed (each once).
pub open spec fn resolve_run(res: Seq<ResolvedView>, n: nat) -> (Seq<(Seq<char>, Seq<char>)>, Seq<Seq<char>>, Seq<Seq<char>>)
    decreases n,
{
    if n == 0 || n > res.len() {
        (seq![], seq![], seq![])
    } else {
        let p = resolve_run(res, (n - 1) as nat);
        let spec = res[n - 1].0;
        match res[n - 1].1 {
            Ok(id) => if selection_ids(p.0).contains(id) {
                p
            } else {
                (p.0.push((spec, id)), p.1, p.2)
            },
            Err(e) => (
                p.0,
                p.1.push(spec + ": "@ + e),
                if p.2.contains(spec) {
                    p.2
                } else {
                    p.2.push(spec)
                },
            ),
        }
    }
}

fn add_enrolled(report: &mut GraphSyncReport, enrolled: &Vec<CachedFolder>)
    requires
        old(report).wf(),
    ensures
        final(report).wf(),
        selection_view(final(report).selected@) == enrolled_selection_from(
            selection_view(old(report).selected@),
            enrolled@,
            enrolled@.len(),
        ),
        final(report).errors@ == old(report).errors@,
        final(report).failed_specs@ == old(report).failed_specs@,
        final(report).folders_synced == old(report).folders_synced,
        final(report).emails_synced == old(report).emails_synced,
{
    let ghost base = selection_view(report.selected@);
    let ghost errors0 = report.errors@;
    let ghost failed0 = report.failed_specs@;
    let mut i: usize = 0;
    while i < enrolled.len()
        invariant
            i <= enrolled@.len(),
            report.wf(),
            selection_view(report.selected@) == enrolled_selection_from(base, enrolled@, i as nat),
            report.errors@ == errors0,
            report.failed_specs@ == failed0,
            report.folders_synced == old(report).folders_synced,
            report.emails_synced == old(report).emails_synced,
        decreases enrolled@.len() - i,
    {
        let f = &enrolled[i];
        let ghost before = report.selected@;
        assert(selected_ids(before) =~= selection_ids(enrolled_selection_from(base, enrolled@, i as nat)));
        report.select(f.display_name.clone(), f.id.clone());
        assert(selection_view(report.selected@) =~= enrolled_selection_from(base, enrolled@, (i + 1) as nat));
        i += 1;
    }
}

/// The folders a Graph sync run goes through: the configured folders, each
/// as resolving it on the server gave (`resolved`, in configured order),
/// then the enrolled folders not already among them.  A configured folder
/// that could not be resolved is recorded as failed.
pub fn plan_graph_sync(resolved: &Vec<(String, Result<String, String>)>, enrolled: &Vec<CachedFolder>) -> (r: GraphSyncReport)
    ensures
        r.wf(),
        selection_view(r.selected@) == enrolled_selection_from(
            resolve_run(resolved_view(resolved@), resolved@.len()).0,
            enrolled@,
            enrolled@.len(),
        ),
        r.errors@.map_values(|s: String| s@) == resolve_run(resolved_view(resolved@), resolved@.len()).1,
        r.failed_specs@.map_values(|s: String| s@) == resolve_run(resolved_view(resolved@), resolved@.len()).2,
        r.folders_synced == 0,
        r.emails_synced == 0,
{
    let ghost rv = resolved_view(resolved@);
    let mut report = GraphSyncReport::new();
    let mut i: usize = 0;
    assert(selection_view(report.selected@) =~= Seq::<(Seq<char>, Seq<char>)>::empty());
    assert(report.errors@.map_values(|s: String| s@) =~= Seq::<Seq<char>>::empty());
    assert(report.failed_specs@.map_values(|s: String| s@) =~= Seq::<Seq<char>>::empty());
    while i < resolved.len()
        invariant
            i <= resolved@.len(),
            rv == resolved_view(resolved@),
            report.wf(),
            selection_view(report.selected@) == resolve_run(rv, i as nat).0,
            report.errors@.map_values(|s: String| s@) == resolve_run(rv, i as nat).1,
            report.failed_specs@.map_values(|s: String| s@) == resolve_run(rv, i as nat).2,
            report.folders_synced == 0,
            report.emails_synced == 0,
        decreases resolved@.len() - i,
    {
        let ghost before = report.selected@;
        assert(rv[i as int] == (resolved@[i as int].0@, match resolved@[i as int].1 {
            Ok(id) => Ok::<Seq<char>, Seq<char>>(id@),
            Err(e) => Err::<Seq<char>, Seq<char>>(e@),
        }));
        let spec = &resolved[i].0;
        match &resolved[i].1 {
            Ok(id) => {
                assert(selected_ids(before) =~= selection_ids(resolve_run(rv, i as nat).0));
                report.select(spec.clone(), id.clone());
                assert(selection_view(report.selected@) =~= resolve_run(rv, (i + 1) as nat).0);
            },
            Err(e) => {
                report.fail(spec.as_str(), e.as_str());
                assert(selection_view(report.selected@) =~= resolve_run(rv, (i + 1) as nat).0);
            },
        }
        i += 1;
    }
    add_enrolled(&mut report, enrolled);
    report
}

proof fn lemma_selection_push(p: Seq<(Seq<char>, Seq<char>)>, x: (Seq<char>, Seq<char>))
    ensures
        selection_ids(p.push(x)) == selection_ids(p).push(x.1),
{
    assert(selection_ids(p.push(x)) =~= selection_ids(p).push(x.1));
}

/// The configured folders after `n` steps: every folder that resolved is
/// selected, every one that did not is recorded as failed, and no id is
/// selected twice.
proof fn lemma_run_covers(res: Seq<ResolvedView>, n: nat)
    requires
        n <= res.len(),
    ensures
        selection_ids(resolve_run(res, n).0).no_duplicates(),
        forall|i: int|
            0 <= i < n && (#[trigger] res[i]).1 is Ok ==> selection_ids(resolve_run(res, n).0).contains(
                res[i].1->Ok_0,
            ),
        forall|i: int| 0 <= i < n && (#[trigger] res[i]).1 is Err ==> resolve_run(res, n).2.contains(res[i].0),
    decreases n,
{
    if n > 0 {
        lemma_run_covers(res, (n - 1) as nat);
        let p = resolve_run(res, (n - 1) as nat);
        let q = resolve_run(res, n);
        match res[n - 1].1 {
            Ok(id) => {
                if !selection_ids(p.0).contains(id) {
                    lemma_selection_push(p.0, (res[n - 1].0, id));
                    lemma_push_keeps_distinct(selection_ids(p.0), id);
                    assert(selection_ids(q.0)[selection_ids(p.0).len() as int] == id);
                }
                assert forall|i: int| 0 <= i < n && (#[trigger] res[i]).1 is Ok implies selection_ids(
                    q.0,
                ).contains(res[i].1->Ok_0) by {
                    if i < n - 1 {
                        let w = choose|w: int| 0 <= w < selection_ids(p.0).len() && selection_ids(p.0)[w] == res[i].1->Ok_0;
                        assert(selection_ids(q.0)[w] == res[i].1->Ok_0);
                    }
                }
            },
            Err(e) => {
                let spec = res[n - 1].0;
                if !p.2.contains(spec) {
                    assert(q.2[p.2.len() as int] == spec);
                }
                assert forall|i: int| 0 <= i < n && (#[trigger] res[i]).1 is Err implies q.2.contains(res[i].0) by {
                    if i < n - 1 {
                        let w = choose|w: int| 0 <= w < p.2.len() && p.2[w] == res[i].0;
                        assert(q.2[w] == res[i].0);
                    }
                }
            },
        }
    }
}

/// Extending a selection by enrolled folders keeps what it held, adds every
/// enrolled id, and selects no id twice.
proof fn lemma_enrolled_covers(base: Seq<(Seq<char>, Seq<char>)>, e: Seq<CachedFolder>, n: nat)
    requires
        n <= e.len(),
        selection_ids(base).no_duplicates(),
    ensures
        selection_ids(enrolled_selection_from(base, e, n)).no_duplicates(),
        forall|x: Seq<char>| selection_ids(base).contains(x) ==> #[trigger] selection_ids(
            enrolled_selection_from(base, e, n),
        ).contains(x),
        forall|k: int| 0 <= k < n ==> selection_ids(enrolled_selection_from(base, e, n)).contains(
            (#[trigger] e[k]).id@,
        ),
    decreases n,
{
    if n > 0 {
        lemma_enrolled_covers(base, e, (n - 1) as nat);
        let p = enrolled_selection_from(base, e, (n - 1) as nat);
        let q = enrolled_selection_from(base, e, n);
        let f = e[n - 1];
        if !selection_ids(p).contains(f.id@) {
            lemma_selection_push(p, (f.display_name@, f.id@));
            lemma_push_keeps_distinct(selection_ids(p), f.id@);
            assert(selection_ids(q)[selection_ids(p).len() as int] == f.id@);
            assert forall|x: Seq<char>| selection_ids(p).contains(x) implies selection_ids(q).contains(x) by {
                let w = choose|w: int| 0 <= w < selection_ids(p).len() && selection_ids(p)[w] == x;
                assert(selection_ids(q)[w] == x);
            }
        }
        assert forall|k: int| 0 <= k < n implies selection_ids(q).contains((#[trigger] e[k]).id@) by {
            if k < n - 1 {
                assert(selection_ids(p).contains(e[k].id@));
            }
        }
    }
}

/// A Graph sync run goes through every configured folder that resolved and
/// every enrolled folder, each id once; every configured folder that did
/// not resolve is reported as failed.
pub proof fn graph_sync_covers_configured_and_enrolled(res: Seq<ResolvedView>, enrolled: Seq<CachedFolder>)
    ensures
        selection_ids(
            enrolled_selection_from(resolve_run(res, res.len()).0, enrolled, enrolled.len()),
        ).no_duplicates(),
        forall|i: int|
            0 <= i < res.len() && (#[trigger] res[i]).1 is Ok ==> selection_ids(
                enrolled_selection_from(resolve_run(res, res.len()).0, enrolled, enrolled.len()),
            ).contains(res[i].1->Ok_0),
        forall|i: int|
            0 <= i < res.len() && (#[trigger] res[i]).1 is Err ==> resolve_run(res, res.len()).2.contains(
                res[i].0,
            ),
        forall|k: int|
            0 <= k < enrolled.len() ==> selection_ids(
                enrolled_selection_from(resolve_run(res, res.len()).0, enrolled, enrolled.len()),
            ).contains((#[trigger] enrolled[k]).id@),
{
    lemma_run_covers(res, res.len());
    lemma_enrolled_covers(resolve_run(res, res.len()).0, enrolled, enrolled.len());
    let base = resolve_run(res, res.len()).0;
    let sel = enrolled_selection_from(base, enrolled, enrolled.len());
    assert forall|i: int| 0 <= i < res.len() && (#[trigger] res[i]).1 is Ok implies selection_ids(sel).contains(
        res[i].1->Ok_0,
    ) by {
        assert(selection_ids(base).contains(res[i].1->Ok_0));
    }
}

/// Where a Graph-mode read is answered from.
#[derive(Debug, PartialEq, Eq, Structural)]
pub enum GraphReadStep {
    /// The cache holds matches: answer with them.
    FromCache,
    /// Ask the server, and store what it answers in the cache.
    FromServer,
}

/// Graph-mode reads go to the cache first: `cache_hits` is how many
/// matches the cache holds, or `None` when the cache cannot be asked (no
/// cache, or the folder is not known to it).  The server is asked only
/// when the cache has no match.
pub fn graph_read_step(cache_hits: Option<usize>) -> (r: GraphReadStep)
    ensures
        r == (if cache_hits matches Some(n) && n > 0 {
            GraphReadStep::FromCache
        } else {
            GraphReadStep::FromServer
        }),
{
    match cache_hits {
        Some(n) => if n > 0 {
            GraphReadStep::FromCache
        } else {
            GraphReadStep::FromServer
        },
        None => GraphReadStep::FromServer,
    }
}

} // verus!
