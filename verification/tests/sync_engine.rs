use ews_skill::ews_types::{
    BodyType, ChangesType, DeleteType, Email, EmailAddressType, EmailChange, Folder, FolderId,
    ItemId, MailboxContainer, SyncFolderItemsResponse, SyncFolderItemsResponseMessage,
    SyncFolderItemsResponseMessages,
};
use ews_skill::sync::{cached_folder_for, email_not_found, folder_not_found, inbox_health, sync_plan};
use ews_skill::time::Timestamp;

fn email(id: &str, complete: bool) -> Email {
    let mut e = Email { item_id: ItemId { id: id.to_string(), change_key: String::new() }, ..Default::default() };
    if complete {
        e.sender = MailboxContainer {
            mailbox: Some(EmailAddressType { name: None, email_address: "a@x".to_string() }),
        };
        e.datetime_received = "2024-01-01T00:00:00Z".to_string();
        e.body = BodyType { body_type: "Text".to_string(), value: "b".to_string() };
    }
    e
}

#[test]
fn sync_answers_become_plans() {
    let response = SyncFolderItemsResponse {
        response_messages: SyncFolderItemsResponseMessages {
            sync_folder_items: SyncFolderItemsResponseMessage {
                response_code: "NoError".to_string(),
                sync_state: Some("state-2".to_string()),
                changes: ChangesType {
                    create: Some(vec![
                        EmailChange { messages: vec![email("c1", true), email("c2", false)] },
                        EmailChange { messages: vec![email("  ", false)] },
                    ]),
                    update: Some(vec![EmailChange { messages: vec![email("u1", true)] }]),
                    delete: Some(vec![DeleteType { item_id: ItemId { id: "d1".to_string(), change_key: String::new() } }]),
                },
            },
        },
    };
    let plan = sync_plan(response);
    assert_eq!(plan.sync_state.as_deref(), Some("state-2"));
    let ids: Vec<&str> = plan.upserts.iter().map(|e| e.item_id.id.as_str()).collect();
    assert_eq!(ids, vec!["c1", "c2", "  ", "u1"]);
    assert_eq!(plan.fetch_full, vec![false, true, false, false]);
    assert_eq!(plan.deletes, vec!["d1".to_string()]);
}

#[test]
fn found_folders_are_cached_under_their_canonical_name() {
    let found = Folder {
        folder_id: FolderId { id: "F".to_string(), change_key: "K".to_string() },
        display_name: "Sent Items".to_string(),
        total_count: 4,
        unread_count: 1,
    };
    let c = cached_folder_for(found, "Sent", Timestamp { secs: 5, nanos: 0 });
    assert_eq!(c.id, "F");
    assert_eq!(c.change_key.as_deref(), Some("K"));
    assert_eq!(c.display_name, "sentitems");
    assert_eq!((c.unread_count, c.total_count, c.synced_at.secs), (1, 4, 5));
    let other = Folder { folder_id: FolderId { id: "G".to_string(), change_key: String::new() }, display_name: String::new(), total_count: 0, unread_count: 0 };
    assert_eq!(cached_folder_for(other, "Projects", Timestamp { secs: 0, nanos: 0 }).display_name, "Projects");
}

#[test]
fn service_messages_and_health_flags() {
    assert_eq!(folder_not_found("X"), "Folder not found: X");
    assert_eq!(email_not_found("1"), "Email not found: 1");
    assert_eq!(inbox_health(Ok(true)), (true, true));
    assert_eq!(inbox_health(Ok(false)), (true, false));
    assert_eq!(inbox_health(Err("x".to_string())), (false, false));
}
