//! The SOAP requests of the EWS client, built from escaped values.  Each
//! request is stated as text: the envelope, the operation element with the
//! escaped arguments in their places.
use vstd::prelude::*;
use crate::ews::{escape_xml, escaped};
use crate::text::{format_i64, opt_string_view, signed_decimal};

verus! {

/// The envelope of every request up to the operation element.
pub open spec fn soap_head() -> Seq<char> {
    "<?xml version=\"1.0\" encoding=\"utf-8\"?>\n            <soap:Envelope xmlns:soap=\"http://schemas.xmlsoap.org/soap/envelope/\"\n                          xmlns:t=\"http://schemas.microsoft.com/exchange/services/2006/types\">\n                <soap:Header>\n                    <t:RequestServerVersion Version=\"Exchange2016\"/>\n                </soap:Header>\n                <soap:Body>"@
}

/// The envelope of every request after the operation element.
pub open spec fn soap_tail() -> Seq<char> {
    "\n                </soap:Body>\n            </soap:Envelope>"@
}

/// A SOAP request around an operation element.
pub open spec fn soap_request(op: Seq<char>) -> Seq<char> {
    soap_head() + op + soap_tail()
}

fn wrap_soap(op: String) -> (r: String)
    ensures
        r@ == soap_request(op@),
{
    let mut r = String::from_str("<?xml version=\"1.0\" encoding=\"utf-8\"?>\n            <soap:Envelope xmlns:soap=\"http://schemas.xmlsoap.org/soap/envelope/\"\n                          xmlns:t=\"http://schemas.microsoft.com/exchange/services/2006/types\">\n                <soap:Header>\n                    <t:RequestServerVersion Version=\"Exchange2016\"/>\n                </soap:Header>\n                <soap:Body>");
    r.append(op.as_str());
    r.append("\n                </soap:Body>\n            </soap:Envelope>");
    r
}

fn append_escaped(out: &mut String, s: &str)
    ensures
        final(out)@ == old(out)@ + escaped(s@),
{
    let e = escape_xml(s);
    out.append(e.as_str());
}

/// The `SyncState` element, or nothing when there is no sync state.
pub open spec fn sync_state_element(sync_state: Option<Seq<char>>) -> Seq<char> {
    match sync_state {
        Some(s) => "<t:SyncState>"@ + escaped(s) + "</t:SyncState>"@,
        None => seq![],
    }
}

fn append_sync_state(out: &mut String, sync_state: &Option<String>)
    ensures
        final(out)@ == old(out)@ + sync_state_element(opt_string_view(*sync_state)),
{
    match sync_state {
        Some(s) => {
            out.append("<t:SyncState>");
            append_escaped(out, s.as_str());
            out.append("</t:SyncState>");
        },
        None => {},
    }
}

/// The `QueryString` element, or nothing for an empty query.
pub open spec fn query_element(query: Seq<char>) -> Seq<char> {
    if query.len() == 0 {
        seq![]
    } else {
        "<t:QueryString>"@ + escaped(query) + "</t:QueryString>"@
    }
}

fn append_query(out: &mut String, query: &str)
    ensures
        final(out)@ == old(out)@ + query_element(query@),
{
    if !query.is_empty() {
        out.append("<t:QueryString>");
        append_escaped(out, query);
        out.append("</t:QueryString>");
    }
}

/// `true` or `false`.
pub open spec fn bool_text(b: bool) -> Seq<char> {
    if b {
        "true"@
    } else {
        "false"@
    }
}

/// The `DeleteType` attribute value.
pub open spec fn delete_type(skip_trash: bool) -> Seq<char> {
    if skip_trash {
        "SoftDelete"@
    } else {
        "MoveToDeletedItems"@
    }
}

/// The `SyncFolderItems` operation: all properties of up to `max_changes` changes in a folder since a sync state.
pub open spec fn sync_folder_items_op(folder_id: Seq<char>, sync_state: Option<Seq<char>>, max_changes: int) -> Seq<char> {
    "\n                    <SyncFolderItems xmlns=\"http://schemas.microsoft.com/exchange/services/2006/messages\">\n                        <ItemShape>\n                            <t:BaseShape>AllProperties</t:BaseShape>\n                        </ItemShape>\n                        <SyncFolderId>\n                            <t:FolderId Id=\""@ + escaped(folder_id) + "\"/>\n                        </SyncFolderId>\n                        "@ + sync_state_element(sync_state) + "\n                        <MaxChangesReturned>"@ + signed_decimal(max_changes) + "</MaxChangesReturned>\n                    </SyncFolderItems>"@
}

/// The request text of the `SyncFolderItems` operation: all properties of up to `max_changes` changes in a folder since a sync state.
pub fn sync_folder_items_request(folder_id: &str, sync_state: &Option<String>, max_changes: i32) -> (r: String)
    ensures
        r@ == soap_request(sync_folder_items_op(folder_id@, opt_string_view(*sync_state), max_changes as int)),
{
    let mut op = String::from_str("\n                    <SyncFolderItems xmlns=\"http://schemas.microsoft.com/exchange/services/2006/messages\">\n                        <ItemShape>\n                            <t:BaseShape>AllProperties</t:BaseShape>\n                        </ItemShape>\n                        <SyncFolderId>\n                            <t:FolderId Id=\"");
    append_escaped(&mut op, folder_id);
    op.append("\"/>\n                        </SyncFolderId>\n                        ");
    append_sync_state(&mut op, sync_state);
    op.append("\n                        <MaxChangesReturned>");
    op.append(format_i64(max_changes as i64).as_str());
    op.append("</MaxChangesReturned>\n                    </SyncFolderItems>");
    wrap_soap(op)
}

/// The `GetFolder` operation for a folder id.
pub open spec fn get_folder_op(folder_id: Seq<char>) -> Seq<char> {
    "\n                    <GetFolder xmlns=\"http://schemas.microsoft.com/exchange/services/2006/messages\">\n                        <FolderShape>\n                            <t:BaseShape>Default</t:BaseShape>\n                        </FolderShape>\n                        <FolderIds>\n                            <t:FolderId Id=\""@ + escaped(folder_id) + "\"/>\n                        </FolderIds>\n                    </GetFolder>"@
}

/// The request text of the `GetFolder` operation for a folder id.
pub fn get_folder_request(folder_id: &str) -> (r: String)
    ensures
        r@ == soap_request(get_folder_op(folder_id@)),
{
    let mut op = String::from_str("\n                    <GetFolder xmlns=\"http://schemas.microsoft.com/exchange/services/2006/messages\">\n                        <FolderShape>\n                            <t:BaseShape>Default</t:BaseShape>\n                        </FolderShape>\n                        <FolderIds>\n                            <t:FolderId Id=\"");
    append_escaped(&mut op, folder_id);
    op.append("\"/>\n                        </FolderIds>\n                    </GetFolder>");
    wrap_soap(op)
}

/// The `GetFolder` operation for a distinguished folder id.
pub open spec fn get_distinguished_folder_op(distinguished_id: Seq<char>) -> Seq<char> {
    "\n                    <GetFolder xmlns=\"http://schemas.microsoft.com/exchange/services/2006/messages\">\n                        <FolderShape>\n                            <t:BaseShape>Default</t:BaseShape>\n                        </FolderShape>\n                        <FolderIds>\n                            <t:DistinguishedFolderId Id=\""@ + escaped(distinguished_id) + "\"/>\n                        </FolderIds>\n                    </GetFolder>"@
}

/// The request text of the `GetFolder` operation for a distinguished folder id.
pub fn get_distinguished_folder_request(distinguished_id: &str) -> (r: String)
    ensures
        r@ == soap_request(get_distinguished_folder_op(distinguished_id@)),
{
    let mut op = String::from_str("\n                    <GetFolder xmlns=\"http://schemas.microsoft.com/exchange/services/2006/messages\">\n                        <FolderShape>\n                            <t:BaseShape>Default</t:BaseShape>\n                        </FolderShape>\n                        <FolderIds>\n                            <t:DistinguishedFolderId Id=\"");
    append_escaped(&mut op, distinguished_id);
    op.append("\"/>\n                        </FolderIds>\n                    </GetFolder>");
    wrap_soap(op)
}

/// The `FindFolder` operation: every folder below the root, deep.
pub open spec fn find_folder_op() -> Seq<char> {
    "\n                    <FindFolder xmlns=\"http://schemas.microsoft.com/exchange/services/2006/messages\" Traversal=\"Deep\">\n                        <FolderShape>\n                            <t:BaseShape>Default</t:BaseShape>\n                        </FolderShape>\n                        <ParentFolderIds>\n                            <t:DistinguishedFolderId Id=\"root\"/>\n                        </ParentFolderIds>\n                    </FindFolder>"@
}

/// The request text of the `FindFolder` operation: every folder below the root, deep.
pub fn find_folder_request() -> (r: String)
    ensures
        r@ == soap_request(find_folder_op()),
{
    let mut op = String::from_str("\n                    <FindFolder xmlns=\"http://schemas.microsoft.com/exchange/services/2006/messages\" Traversal=\"Deep\">\n                        <FolderShape>\n                            <t:BaseShape>Default</t:BaseShape>\n                        </FolderShape>\n                        <ParentFolderIds>\n                            <t:DistinguishedFolderId Id=\"root\"/>\n                        </ParentFolderIds>\n                    </FindFolder>");
    wrap_soap(op)
}

/// The `GetItem` operation: all properties of an item, its HTML and text bodies among them.
pub open spec fn get_item_op(item_id: Seq<char>) -> Seq<char> {
    "\n                    <GetItem xmlns=\"http://schemas.microsoft.com/exchange/services/2006/messages\">\n                        <ItemShape>\n                            <t:BaseShape>AllProperties</t:BaseShape>\n                            <t:BodyType>Best</t:BodyType>\n                            <t:FilterHtmlContent>false</t:FilterHtmlContent>\n                            <t:AdditionalProperties>\n                                <t:FieldURI FieldURI=\"item:Body\"/>\n                                <t:FieldURI FieldURI=\"item:TextBody\"/>\n                            </t:AdditionalProperties>\n                        </ItemShape>\n                        <ItemIds>\n                            <t:ItemId Id=\""@ + escaped(item_id) + "\"/>\n                        </ItemIds>\n                    </GetItem>"@
}

/// The request text of the `GetItem` operation: all properties of an item, its HTML and text bodies among them.
pub fn get_item_request(item_id: &str) -> (r: String)
    ensures
        r@ == soap_request(get_item_op(item_id@)),
{
    let mut op = String::from_str("\n                    <GetItem xmlns=\"http://schemas.microsoft.com/exchange/services/2006/messages\">\n                        <ItemShape>\n                            <t:BaseShape>AllProperties</t:BaseShape>\n                            <t:BodyType>Best</t:BodyType>\n                            <t:FilterHtmlContent>false</t:FilterHtmlContent>\n                            <t:AdditionalProperties>\n                                <t:FieldURI FieldURI=\"item:Body\"/>\n                                <t:FieldURI FieldURI=\"item:TextBody\"/>\n                            </t:AdditionalProperties>\n                        </ItemShape>\n                        <ItemIds>\n                            <t:ItemId Id=\"");
    append_escaped(&mut op, item_id);
    op.append("\"/>\n                        </ItemIds>\n                    </GetItem>");
    wrap_soap(op)
}

/// The `FindItem` operation: up to `max_results` items of a folder, matching a query string when one is given.
pub open spec fn find_item_op(folder_id: Seq<char>, query: Seq<char>, max_results: int) -> Seq<char> {
    "\n                    <FindItem xmlns=\"http://schemas.microsoft.com/exchange/services/2006/messages\" Traversal=\"Shallow\">\n                        <ItemShape>\n                            <t:BaseShape>Default</t:BaseShape>\n                        </ItemShape>\n                        <ParentFolderIds>\n                            <t:FolderId Id=\""@ + escaped(folder_id) + "\"/>\n                        </ParentFolderIds>\n                        "@ + query_element(query) + "\n                        <MaxItemsReturned>"@ + signed_decimal(max_results) + "</MaxItemsReturned>\n                    </FindItem>"@
}

/// The request text of the `FindItem` operation: up to `max_results` items of a folder, matching a query string when one is given.
pub fn find_item_request(folder_id: &str, query: &str, max_results: i32) -> (r: String)
    ensures
        r@ == soap_request(find_item_op(folder_id@, query@, max_results as int)),
{
    let mut op = String::from_str("\n                    <FindItem xmlns=\"http://schemas.microsoft.com/exchange/services/2006/messages\" Traversal=\"Shallow\">\n                        <ItemShape>\n                            <t:BaseShape>Default</t:BaseShape>\n                        </ItemShape>\n                        <ParentFolderIds>\n                            <t:FolderId Id=\"");
    append_escaped(&mut op, folder_id);
    op.append("\"/>\n                        </ParentFolderIds>\n                        ");
    append_query(&mut op, query);
    op.append("\n                        <MaxItemsReturned>");
    op.append(format_i64(max_results as i64).as_str());
    op.append("</MaxItemsReturned>\n                    </FindItem>");
    wrap_soap(op)
}

/// The `CreateItem` operation that sends a plain-text message and keeps a copy in Sent Items.
pub open spec fn send_email_op(to: Seq<char>, subject: Seq<char>, body: Seq<char>) -> Seq<char> {
    "\n                    <CreateItem xmlns=\"http://schemas.microsoft.com/exchange/services/2006/messages\" MessageDisposition=\"SendAndSaveCopy\">\n                        <SavedItemFolderId>\n                            <t:DistinguishedFolderId Id=\"sentitems\"/>\n                        </SavedItemFolderId>\n                        <Items>\n                            <t:Message>\n                                <t:Subject>"@ + escaped(subject) + "</t:Subject>\n                                <t:Body BodyType=\"Text\">"@ + escaped(body) + "</t:Body>\n                                <t:ToRecipients>\n                                    <t:Mailbox>\n                                        <t:EmailAddress>"@ + escaped(to) + "</t:EmailAddress>\n                                    </t:Mailbox>\n                                </t:ToRecipients>\n                            </t:Message>\n                        </Items>\n                    </CreateItem>"@
}

/// The request text of the `CreateItem` operation that sends a plain-text message and keeps a copy in Sent Items.
pub fn send_email_request(to: &str, subject: &str, body: &str) -> (r: String)
    ensures
        r@ == soap_request(send_email_op(to@, subject@, body@)),
{
    let mut op = String::from_str("\n                    <CreateItem xmlns=\"http://schemas.microsoft.com/exchange/services/2006/messages\" MessageDisposition=\"SendAndSaveCopy\">\n                        <SavedItemFolderId>\n                            <t:DistinguishedFolderId Id=\"sentitems\"/>\n                        </SavedItemFolderId>\n                        <Items>\n                            <t:Message>\n                                <t:Subject>");
    append_escaped(&mut op, subject);
    op.append("</t:Subject>\n                                <t:Body BodyType=\"Text\">");
    append_escaped(&mut op, body);
    op.append("</t:Body>\n                                <t:ToRecipients>\n                                    <t:Mailbox>\n                                        <t:EmailAddress>");
    append_escaped(&mut op, to);
    op.append("</t:EmailAddress>\n                                    </t:Mailbox>\n                                </t:ToRecipients>\n                            </t:Message>\n                        </Items>\n                    </CreateItem>");
    wrap_soap(op)
}

/// The `UpdateItem` operation that sets the read flag of an item.
pub open spec fn mark_read_op(item_id: Seq<char>, is_read: bool) -> Seq<char> {
    "\n                    <UpdateItem xmlns=\"http://schemas.microsoft.com/exchange/services/2006/messages\" ConflictResolution=\"AlwaysOverwrite\">\n                        <ItemChanges>\n                            <t:ItemChange>\n                                <t:ItemId Id=\""@ + escaped(item_id) + "\"/>\n                                <t:Updates>\n                                    <t:SetItemField>\n                                        <t:FieldURI FieldURI=\"message:IsRead\"/>\n                                        <t:Message>\n                                            <t:IsRead>"@ + bool_text(is_read) + "</t:IsRead>\n                                        </t:Message>\n                                    </t:SetItemField>\n                                </t:Updates>\n                            </t:ItemChange>\n                        </ItemChanges>\n                    </UpdateItem>"@
}

/// The request text of the `UpdateItem` operation that sets the read flag of an item.
pub fn mark_read_request(item_id: &str, is_read: bool) -> (r: String)
    ensures
        r@ == soap_request(mark_read_op(item_id@, is_read)),
{
    let mut op = String::from_str("\n                    <UpdateItem xmlns=\"http://schemas.microsoft.com/exchange/services/2006/messages\" ConflictResolution=\"AlwaysOverwrite\">\n                        <ItemChanges>\n                            <t:ItemChange>\n                                <t:ItemId Id=\"");
    append_escaped(&mut op, item_id);
    op.append("\"/>\n                                <t:Updates>\n                                    <t:SetItemField>\n                                        <t:FieldURI FieldURI=\"message:IsRead\"/>\n                                        <t:Message>\n                                            <t:IsRead>");
    op.append(if is_read { "true" } else { "false" });
    op.append("</t:IsRead>\n                                        </t:Message>\n                                    </t:SetItemField>\n                                </t:Updates>\n                            </t:ItemChange>\n                        </ItemChanges>\n                    </UpdateItem>");
    wrap_soap(op)
}

/// The `MoveItem` operation that moves an item into a folder.
pub open spec fn move_item_op(item_id: Seq<char>, destination_folder: Seq<char>) -> Seq<char> {
    "\n                    <MoveItem xmlns=\"http://schemas.microsoft.com/exchange/services/2006/messages\">\n                        <ToFolderId>\n                            <t:FolderId Id=\""@ + escaped(destination_folder) + "\"/>\n                        </ToFolderId>\n                        <ItemIds>\n                            <t:ItemId Id=\""@ + escaped(item_id) + "\"/>\n                        </ItemIds>\n                    </MoveItem>"@
}

/// The request text of the `MoveItem` operation that moves an item into a folder.
pub fn move_item_request(item_id: &str, destination_folder: &str) -> (r: String)
    ensures
        r@ == soap_request(move_item_op(item_id@, destination_folder@)),
{
    let mut op = String::from_str("\n                    <MoveItem xmlns=\"http://schemas.microsoft.com/exchange/services/2006/messages\">\n                        <ToFolderId>\n                            <t:FolderId Id=\"");
    append_escaped(&mut op, destination_folder);
    op.append("\"/>\n                        </ToFolderId>\n                        <ItemIds>\n                            <t:ItemId Id=\"");
    append_escaped(&mut op, item_id);
    op.append("\"/>\n                        </ItemIds>\n                    </MoveItem>");
    wrap_soap(op)
}

/// The `DeleteItem` operation: a soft delete when the trash is skipped, else a move to Deleted Items.
pub open spec fn delete_item_op(item_id: Seq<char>, skip_trash: bool) -> Seq<char> {
    "\n                    <DeleteItem xmlns=\"http://schemas.microsoft.com/exchange/services/2006/messages\" DeleteType=\""@ + delete_type(skip_trash) + "\">\n                        <ItemIds>\n                            <t:ItemId Id=\""@ + escaped(item_id) + "\"/>\n                        </ItemIds>\n                    </DeleteItem>"@
}

/// The request text of the `DeleteItem` operation: a soft delete when the trash is skipped, else a move to Deleted Items.
pub fn delete_item_request(item_id: &str, skip_trash: bool) -> (r: String)
    ensures
        r@ == soap_request(delete_item_op(item_id@, skip_trash)),
{
    let mut op = String::from_str("\n                    <DeleteItem xmlns=\"http://schemas.microsoft.com/exchange/services/2006/messages\" DeleteType=\"");
    op.append(if skip_trash { "SoftDelete" } else { "MoveToDeletedItems" });
    op.append("\">\n                        <ItemIds>\n                            <t:ItemId Id=\"");
    append_escaped(&mut op, item_id);
    op.append("\"/>\n                        </ItemIds>\n                    </DeleteItem>");
    wrap_soap(op)
}

/// The Autodiscover request for an email address.
pub open spec fn autodiscover_request(email: Seq<char>) -> Seq<char> {
    "<?xml version=\"1.0\" encoding=\"utf-8\"?>\n<Autodiscover xmlns=\"http://schemas.microsoft.com/exchange/autodiscover/outlook/requestschema/2006\">\n  <Request>\n    <EMailAddress>"@ + escaped(email) + "</EMailAddress>\n    <AcceptableResponseSchema>http://schemas.microsoft.com/exchange/autodiscover/outlook/responseschema/2006a</AcceptableResponseSchema>\n  </Request>\n</Autodiscover>"@
}

/// The text of the Autodiscover request for an email address.
pub fn autodiscover_request_body(email: &str) -> (r: String)
    ensures
        r@ == autodiscover_request(email@),
{
    let mut r = String::from_str("<?xml version=\"1.0\" encoding=\"utf-8\"?>\n<Autodiscover xmlns=\"http://schemas.microsoft.com/exchange/autodiscover/outlook/requestschema/2006\">\n  <Request>\n    <EMailAddress>");
    append_escaped(&mut r, email);
    r.append("</EMailAddress>\n    <AcceptableResponseSchema>http://schemas.microsoft.com/exchange/autodiscover/outlook/responseschema/2006a</AcceptableResponseSchema>\n  </Request>\n</Autodiscover>");
    r
}

} // verus!
