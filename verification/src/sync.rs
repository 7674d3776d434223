//! The decisions of the EWS sync engine: what a `SyncFolderItems` answer
//! asks the cache to do, which items are fetched in full first, and how a
//! found folder is recorded.
use vstd::prelude::*;
use crate::ews::distinguished_id;
use crate::ews_types::{lacks_details, needs_enrichment, DeleteType, Email, EmailChange, Folder, SyncFolderItemsResponse};
use crate::models::CachedFolder;
use crate::text::{is_blank, opt_string_view, trim};
use crate::time::Timestamp;

verus! {

/// The messages of a list of changes, in order.
pub open spec fn messages_of(changes: Seq<EmailChange>) -> Seq<Email>
    decreases changes.len(),
{
    if changes.len() == 0 {
        seq![]
    } else {
        messages_of(changes.drop_last()) + changes.last().messages@
    }
}

/// The messages of an optional list of changes.
pub open spec fn changed_messages(changes: Option<Vec<EmailChange>>) -> Seq<Email> {
    match changes {
        Some(v) => messages_of(v@),
        None => seq![],
    }
}

/// The ids of deleted items, in order.
pub open spec fn deleted_ids(deletes: Option<Vec<DeleteType>>) -> Seq<Seq<char>> {
    match deletes {
        Some(v) => v@.map_values(|d: DeleteType| d.item_id.id@),
        None => seq![],
    }
}

/// Whether an item is fetched in full before it is cached: it lacks
/// details and has an id to fetch it by.
pub open spec fn wants_full_item(e: Email) -> bool {
    lacks_details(e) && trim(e.item_id.id@).len() > 0
}

/// What a sync answer asks of the cache: the new sync state (if any), the
/// created and then the updated items to store, whether each is to be
/// fetched in full first, and the ids of deleted items.
#[derive(Debug)]
pub struct SyncPlan {
    pub sync_state: Option<String>,
    pub upserts: Vec<Email>,
    pub fetch_full: Vec<bool>,
    pub deletes: Vec<String>,
}

fn flatten_changes(changes: Option<Vec<EmailChange>>, out: &mut Vec<Email>)
    ensures
        final(out)@ == old(out)@ + changed_messages(changes),
{
    match changes {
        Some(v) => {
            let ghost all = v@;
            let ghost start = out@;
            let mut v = v;
            let n = v.len();
            let mut taken: Vec<EmailChange> = Vec::new();
            taken.append(&mut v);
            let mut k: usize = 0;
            while taken.len() > 0
                invariant
                    n == all.len(),
                    k as int + taken@.len() == all.len(),
                    taken@ == all.subrange(k as int, all.len() as int),
                    out@ == start + messages_of(all.subrange(0, k as int)),
                decreases taken@.len(),
            {
                let change = taken.remove(0);
                assert(change == all[k as int]);
                let mut m = change.messages;
                out.append(&mut m);
                assert(all.subrange(0, k + 1).drop_last() =~= all.subrange(0, k as int));
                assert(all.subrange(0, k + 1).last() == all[k as int]);
                k += 1;
                assert(taken@ =~= all.subrange(k as int, all.len() as int));
            }
            assert(all.subrange(0, all.len() as int) =~= all);
        },
        None => {
            assert(out@ =~= out@ + Seq::<Email>::empty());
        },
    }
}

/// The plan of a sync answer.
pub fn sync_plan(response: SyncFolderItemsResponse) -> (r: SyncPlan)
    ensures
        opt_string_view(r.sync_state) == opt_string_view(
            response.response_messages.sync_folder_items.sync_state,
        ),
        r.upserts@ == changed_messages(response.response_messages.sync_folder_items.changes.create)
            + changed_messages(response.response_messages.sync_folder_items.changes.update),
        r.fetch_full@.len() == r.upserts@.len(),
        forall|i: int| 0 <= i < r.upserts@.len() ==> r.fetch_full@[i] == wants_full_item(#[trigger] r.upserts@[i]),
        forall|i: int|
            0 <= i < r.upserts@.len() && trim((#[trigger] r.upserts@[i]).item_id.id@).len() > 0 && trim(
                r.upserts@[i].body.value@,
            ).len() == 0 && trim(r.upserts@[i].text_body.value@).len() == 0 ==> r.fetch_full@[i],
        r.deletes@.map_values(|s: String| s@) == deleted_ids(
            response.response_messages.sync_folder_items.changes.delete,
        ),
{
    let msg = response.response_messages.sync_folder_items;
    let mut upserts: Vec<Email> = Vec::new();
    flatten_changes(msg.changes.create, &mut upserts);
    flatten_changes(msg.changes.update, &mut upserts);
    let mut fetch_full: Vec<bool> = Vec::new();
    let mut i: usize = 0;
    while i < upserts.len()
        invariant
            i <= upserts@.len(),
            fetch_full@.len() == i,
            forall|j: int| 0 <= j < i ==> fetch_full@[j] == wants_full_item(#[trigger] upserts@[j]),
        decreases upserts@.len() - i,
    {
        let e = &upserts[i];
        let full = needs_enrichment(e) && !is_blank(e.item_id.id.as_str());
        fetch_full.push(full);
        i += 1;
    }
    let mut deletes: Vec<String> = Vec::new();
    match &msg.changes.delete {
        Some(ds) => {
            let mut j: usize = 0;
            while j < ds.len()
                invariant
                    j <= ds@.len(),
                    deletes@.map_values(|s: String| s@) == ds@.subrange(0, j as int).map_values(
                        |d: DeleteType| d.item_id.id@,
                    ),
                decreases ds@.len() - j,
            {
                let id = ds[j].item_id.id.clone();
                assert(id@ == ds@[j as int].item_id.id@);
                let ghost before = deletes@;
                deletes.push(id);
                assert(deletes@.map_values(|s: String| s@) =~= before.map_values(|s: String| s@).push(
                    ds@[j as int].item_id.id@,
                ));
                assert(ds@.subrange(0, j + 1).map_values(|d: DeleteType| d.item_id.id@) =~= ds@.subrange(
                    0,
                    j as int,
                ).map_values(|d: DeleteType| d.item_id.id@).push(ds@[j as int].item_id.id@));
                j += 1;
                assert(deletes@.map_values(|s: String| s@) =~= ds@.subrange(0, j as int).map_values(
                    |d: DeleteType| d.item_id.id@,
                ));
            }
            assert(ds@.subrange(0, ds@.len() as int) =~= ds@);
        },
        None => {
            assert(deletes@.map_values(|s: String| s@) =~= Seq::<Seq<char>>::empty());
        },
    }
    SyncPlan { sync_state: msg.sync_state, upserts, fetch_full, deletes }
}

/// The name a found folder is cached under: its distinguished id when the
/// configured name stands for one, else the name as configured.
pub open spec fn canonical_folder_name(name: Seq<char>) -> Seq<char> {
    match distinguished_id(name) {
        Some(d) => d,
        None => name,
    }
}

/// The cache record of a folder found under a configured name, at `now`.
pub fn cached_folder_for(found: Folder, name: &str, now: Timestamp) -> (r: CachedFolder)
    ensures
        r.id@ == found.folder_id.id@,
        opt_string_view(r.change_key) == Some(found.folder_id.change_key@),
        r.parent_id is None,
        r.display_name@ == canonical_folder_name(name@),
        r.unread_count == found.unread_count,
        r.total_count == found.total_count,
        r.synced_at == now,
{
    let display_name = match crate::ews::distinguished_folder_id_from_spec(name) {
        Some(d) => String::from_str(d),
        None => String::from_str(name),
    };
    CachedFolder {
        id: found.folder_id.id,
        change_key: Some(found.folder_id.change_key),
        parent_id: None,
        display_name,
        unread_count: found.unread_count,
        total_count: found.total_count,
        synced_at: now,
    }
}

/// The number of changes asked for per `SyncFolderItems` request.
pub const SYNC_BATCH_SIZE: i32 = 512;

/// The message of a folder that could not be found.
pub fn folder_not_found(name: &str) -> (r: String)
    ensures
        r@ == "Folder not found: "@ + name@,
{
    let mut m = String::from_str("Folder not found: ");
    m.append(name);
    m
}

/// The message of an email that could not be found.
pub fn email_not_found(id: &str) -> (r: String)
    ensures
        r@ == "Email not found: "@ + id@,
{
    let mut m = String::from_str("Email not found: ");
    m.append(id);
    m
}

/// What looking up the inbox says of the connection: signed in when the
/// lookup answered at all, the inbox found when it answered with a folder.
pub fn inbox_health(lookup: Result<bool, String>) -> (r: (bool, bool))
    ensures
        r.0 == lookup is Ok,
        r.1 == (lookup matches Ok(found) && found),
{
    match lookup {
        Ok(found) => (true, found),
        Err(_) => (false, false),
    }
}

/// A change made to the cache before the server confirms it: the value to
/// write now, and the one to write back if the server refuses.
#[derive(Debug)]
pub struct CacheChange<T> {
    pub apply: T,
    pub undo: T,
}

/// Marking an email read or unread: the cache is marked at once and marked
/// back if the server refuses.
pub fn mark_read_plan(is_read: bool) -> (r: CacheChange<bool>)
    ensures
        r.apply == is_read,
        r.undo == !is_read,
{
    CacheChange { apply: is_read, undo: !is_read }
}

/// Moving an email: the destination folder must be cached (`destination_id`
/// is its id) and the email too (`current_folder` is the folder it is in).
/// The cache moves it to the destination at once and back if the server
/// refuses.
pub fn move_plan(email_id: &str, destination_folder: &str, destination_id: Option<String>, current_folder: Option<String>) -> (r: Result<CacheChange<String>, String>)
    ensures
        match (destination_id, current_folder) {
            (None, _) => r matches Err(m) && m@ == "Folder not found: "@ + destination_folder@,
            (Some(_), None) => r matches Err(m) && m@ == "Email not found: "@ + email_id@,
            (Some(d), Some(c)) => r matches Ok(ch) && ch.apply == d && ch.undo == c,
        },
{
    let d = match destination_id {
        Some(d) => d,
        None => return Err(folder_not_found(destination_folder)),
    };
    let c = match current_folder {
        Some(c) => c,
        None => return Err(email_not_found(email_id)),
    };
    Ok(CacheChange { apply: d, undo: c })
}

} // verus!

verus! {

/// A listed item with an id is fetched in full before it is cached exactly
/// when the listing left something out: it has neither a body nor a text
/// body, or no sender, no receipt time or no importance.  An item without
/// an id is never fetched.
pub proof fn incomplete_items_are_fetched_in_full(e: Email)
    ensures
        trim(e.item_id.id@).len() > 0 && trim(e.body.value@).len() == 0 && trim(e.text_body.value@).len()
            == 0 ==> wants_full_item(e),
        trim(e.item_id.id@).len() > 0 && e.sender.mailbox is None ==> wants_full_item(e),
        trim(e.item_id.id@).len() > 0 && trim(e.datetime_received@).len() == 0 ==> wants_full_item(e),
        trim(e.item_id.id@).len() > 0 && trim(e.importance@).len() == 0 ==> wants_full_item(e),
        trim(e.item_id.id@).len() == 0 ==> !wants_full_item(e),
        e.sender.mailbox is Some && trim(e.datetime_received@).len() > 0 && trim(e.importance@).len() > 0
            && (trim(e.body.value@).len() > 0 || trim(e.text_body.value@).len() > 0) ==> !wants_full_item(e),
{
}

} // verus!
