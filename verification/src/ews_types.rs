//! The shapes of the EWS SOAP responses this library reads.  Their XML
//! decoding happens where the wire is handled; here they are plain data.
use vstd::prelude::*;
use crate::text::trim;

verus! {

/// A SOAP envelope around a response.
#[derive(Debug)]
pub struct Envelope<T> {
    pub body: Body<T>,
}

/// The body of a SOAP envelope.
#[derive(Debug)]
pub struct Body<T> {
    pub response: T,
}

#[derive(Debug)]
pub struct SyncFolderItemsResponse {
    pub response_messages: SyncFolderItemsResponseMessages,
}

#[derive(Debug)]
pub struct SyncFolderItemsResponseMessages {
    pub sync_folder_items: SyncFolderItemsResponseMessage,
}

#[derive(Debug)]
pub struct SyncFolderItemsResponseMessage {
    pub response_code: String,
    pub sync_state: Option<String>,
    pub changes: ChangesType,
}

#[derive(Debug, Default)]
pub struct ChangesType {
    pub create: Option<Vec<EmailChange>>,
    pub update: Option<Vec<EmailChange>>,
    pub delete: Option<Vec<DeleteType>>,
}

#[derive(Debug, Default)]
pub struct EmailChange {
    pub messages: Vec<Email>,
}

#[derive(Debug, Default)]
pub struct DeleteType {
    pub item_id: ItemId,
}

#[derive(Debug)]
pub struct GetFolderResponse {
    pub response_messages: GetFolderResponseMessages,
}

#[derive(Debug)]
pub struct GetFolderResponseMessages {
    pub get_folder: GetFolderResponseMessage,
}

#[derive(Debug)]
pub struct GetFolderResponseMessage {
    pub folders: FoldersResponse,
}

#[derive(Debug)]
pub struct FoldersResponse {
    pub folder: Folder,
}

#[derive(Debug)]
pub struct FindFolderResponse {
    pub response_messages: FindFolderResponseMessages,
}

#[derive(Debug)]
pub struct FindFolderResponseMessages {
    pub find_folder: FindFolderResponseMessage,
}

#[derive(Debug)]
pub struct FindFolderResponseMessage {
    pub root_folder: RootFolder,
}

#[derive(Debug)]
pub struct RootFolder {
    pub folders: FolderCollection,
}

#[derive(Debug, Default)]
pub struct FolderCollection {
    pub folder: Vec<Folder>,
}

#[derive(Debug)]
pub struct GetItemResponse {
    pub response_messages: GetItemResponseMessages,
}

#[derive(Debug)]
pub struct GetItemResponseMessages {
    pub get_item: GetItemResponseMessage,
}

#[derive(Debug)]
pub struct GetItemResponseMessage {
    pub items: ItemsResponse,
}

#[derive(Debug)]
pub struct FindItemResponse {
    pub response_messages: FindItemResponseMessages,
}

#[derive(Debug)]
pub struct FindItemResponseMessages {
    pub find_item: FindItemResponseMessage,
}

#[derive(Debug)]
pub struct FindItemResponseMessage {
    pub root_folder: RootFolderData,
}

#[derive(Debug)]
pub struct RootFolderData {
    pub items: ItemsResponse,
}

/// Items of a response, given either as `Message` or as `Item` elements.
#[derive(Debug)]
pub struct ItemsResponse {
    pub messages: Vec<Email>,
    pub items: Vec<Email>,
}

impl ItemsResponse {
    /// The messages when there are any, else the items.
    pub fn into_vec(self) -> (r: Vec<Email>)
        ensures
            r@ == (if self.messages@.len() == 0 {
                self.items@
            } else {
                self.messages@
            }),
    {
        if self.messages.len() == 0 {
            self.items
        } else {
            self.messages
        }
    }
}

#[derive(Debug)]
pub struct CreateItemResponse {
    pub response_messages: CreateItemResponseMessages,
}

#[derive(Debug)]
pub struct CreateItemResponseMessages {
    pub create_item: CreateItemResponseMessage,
}

#[derive(Debug)]
pub struct CreateItemResponseMessage {
    pub items: ItemsResponse,
}

#[derive(Debug)]
pub struct MoveItemResponse {
    pub response_messages: MoveItemResponseMessages,
}

#[derive(Debug)]
pub struct MoveItemResponseMessages {
    pub move_item: MoveItemResponseMessage,
}

#[derive(Debug)]
pub struct MoveItemResponseMessage {
    pub items: MovedItems,
}

#[derive(Debug, Default)]
pub struct MovedItems {
    pub messages: Vec<Email>,
    pub items: Vec<Email>,
    pub item_id: Option<ItemId>,
}

/// A mail folder as EWS describes it.
#[derive(Debug, Default)]
pub struct Folder {
    pub folder_id: FolderId,
    pub display_name: String,
    pub total_count: i32,
    pub unread_count: i32,
}

impl Folder {
    /// A folder with empty id, name and counts.
    pub fn empty() -> (r: Folder)
        ensures
            r.folder_id.id@ == Seq::<char>::empty(),
            r.folder_id.change_key@ == Seq::<char>::empty(),
            r.display_name@ == Seq::<char>::empty(),
            r.total_count == 0,
            r.unread_count == 0,
    {
        Folder {
            folder_id: FolderId { id: String::new(), change_key: String::new() },
            display_name: String::new(),
            total_count: 0,
            unread_count: 0,
        }
    }
}

#[derive(Debug, Default)]
pub struct FolderId {
    pub id: String,
    pub change_key: String,
}

/// A mail item as EWS describes it.
#[derive(Debug)]
pub struct Email {
    pub item_id: ItemId,
    pub subject: String,
    pub sender: MailboxContainer,
    pub to_recipients: RecipientCollection,
    pub cc_recipients: RecipientCollection,
    pub datetime_received: String,
    pub datetime_sent: String,
    pub body: BodyType,
    pub text_body: BodyType,
    pub has_attachments: bool,
    pub is_read: bool,
    pub importance: String,
    pub from: MailboxContainer,
}

impl Default for Email {
    /// Every text empty, every flag false, importance `Normal`.
    fn default() -> (r: Email)
        ensures
            r.item_id.id@ == Seq::<char>::empty(),
            r.item_id.change_key@ == Seq::<char>::empty(),
            r.subject@ == Seq::<char>::empty(),
            r.sender.mailbox is None,
            r.to_recipients.mailbox@ == Seq::<EmailAddressType>::empty(),
            r.cc_recipients.mailbox@ == Seq::<EmailAddressType>::empty(),
            r.datetime_received@ == Seq::<char>::empty(),
            r.datetime_sent@ == Seq::<char>::empty(),
            r.body.body_type@ == Seq::<char>::empty(),
            r.body.value@ == Seq::<char>::empty(),
            r.text_body.body_type@ == Seq::<char>::empty(),
            r.text_body.value@ == Seq::<char>::empty(),
            !r.has_attachments,
            !r.is_read,
            r.importance@ == "Normal"@,
            r.from.mailbox is None,
    {
        Email {
            item_id: ItemId { id: String::new(), change_key: String::new() },
            subject: String::new(),
            sender: MailboxContainer { mailbox: None },
            to_recipients: RecipientCollection { mailbox: Vec::new() },
            cc_recipients: RecipientCollection { mailbox: Vec::new() },
            datetime_received: String::new(),
            datetime_sent: String::new(),
            body: BodyType { body_type: String::new(), value: String::new() },
            text_body: BodyType { body_type: String::new(), value: String::new() },
            has_attachments: false,
            is_read: false,
            importance: "Normal".to_owned(),
            from: MailboxContainer { mailbox: None },
        }
    }
}

#[derive(Debug, Default)]
pub struct MailboxContainer {
    pub mailbox: Option<EmailAddressType>,
}

#[derive(Debug, Default)]
pub struct RecipientCollection {
    pub mailbox: Vec<EmailAddressType>,
}

/// A body and the type (`HTML` or `Text`) it is given in.
#[derive(Debug, Default)]
pub struct BodyType {
    pub body_type: String,
    pub value: String,
}

#[derive(Debug, Default)]
pub struct EmailAddressType {
    pub name: Option<String>,
    pub email_address: String,
}

#[derive(Debug, Default)]
pub struct ItemId {
    pub id: String,
    pub change_key: String,
}

/// An item lacks what a listing may leave out: a sender, a receipt time, an
/// importance, or any body.
pub open spec fn lacks_details(e: Email) -> bool {
    ||| e.sender.mailbox is None
    ||| trim(e.datetime_received@).len() == 0
    ||| trim(e.importance@).len() == 0
    ||| (trim(e.body.value@).len() == 0 && trim(e.text_body.value@).len() == 0)
}

/// Whether an item from a sync listing should be fetched in full.
pub fn needs_enrichment(email: &Email) -> (r: bool)
    ensures
        r == lacks_details(*email),
{
    email.sender.mailbox.is_none() || crate::text::is_blank(email.datetime_received.as_str())
        || crate::text::is_blank(email.importance.as_str()) || (crate::text::is_blank(
        email.body.value.as_str(),
    ) && crate::text::is_blank(email.text_body.value.as_str()))
}

} // verus!
