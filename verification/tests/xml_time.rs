use ews_skill::soap::{
    delete_item_request, find_item_request, mark_read_request, sync_folder_items_request,
};
use ews_skill::time::{parse_rfc3339, timestamp_before, Timestamp};
use ews_skill::xml::{
    extract_first_item_id_from_xml, extract_tag_value, local_name, read_xml_events, XmlEvent,
};

#[test]
fn rfc3339_instants_are_read_in_utc() {
    assert_eq!(
        parse_rfc3339("2024-01-02T03:04:05Z"),
        Some(Timestamp { secs: 1_704_164_645, nanos: 0 })
    );
    assert_eq!(
        parse_rfc3339("2024-01-02T05:04:05.5+02:00"),
        Some(Timestamp { secs: 1_704_164_645, nanos: 500_000_000 })
    );
    assert_eq!(parse_rfc3339("2024-01-02 03:04:05"), None);
    assert_eq!(parse_rfc3339(""), None);
}

#[test]
fn instants_are_ordered_by_seconds_then_nanos() {
    let a = Timestamp { secs: 10, nanos: 5 };
    let b = Timestamp { secs: 10, nanos: 6 };
    let c = Timestamp { secs: 11, nanos: 0 };
    assert!(timestamp_before(a, b));
    assert!(timestamp_before(b, c));
    assert!(!timestamp_before(b, a));
    assert!(!timestamp_before(a, a));
}

#[test]
fn local_names_drop_the_prefix() {
    assert_eq!(local_name("t:ItemId"), "ItemId");
    assert_eq!(local_name("a:b:Name"), "Name");
    assert_eq!(local_name("Plain"), "Plain");
    assert_eq!(local_name("t:"), "");
}

#[test]
fn events_are_trimmed_and_unescaped() {
    let events = read_xml_events("<a:Root x=\"1\">  hi &amp; bye  <b/>\n </a:Root>");
    assert_eq!(events.len(), 4);
    match &events[0] {
        XmlEvent::Tag { empty, name, attrs } => {
            assert!(!*empty);
            assert_eq!(name, "a:Root");
            assert_eq!(attrs.len(), 1);
            assert_eq!(attrs[0].key, "x");
            assert_eq!(attrs[0].value, "1");
        }
        other => panic!("unexpected {:?}", other),
    }
    match &events[1] {
        XmlEvent::Text { text } => assert_eq!(text.as_deref(), Some("hi & bye")),
        other => panic!("unexpected {:?}", other),
    }
    match &events[2] {
        XmlEvent::Tag { empty, name, .. } => {
            assert!(*empty);
            assert_eq!(name, "b");
        }
        other => panic!("unexpected {:?}", other),
    }
    match &events[3] {
        XmlEvent::End { name } => assert_eq!(name, "a:Root"),
        other => panic!("unexpected {:?}", other),
    }
}

#[test]
fn tag_values_are_taken_from_the_first_matching_element() {
    let xml = "<r><t:Other>no</t:Other><t:EwsUrl>https://mail.example.com/EWS/Exchange.asmx</t:EwsUrl><EwsUrl>second</EwsUrl></r>";
    assert_eq!(
        extract_tag_value(xml, &vec!["EwsUrl", "Url"]),
        Some("https://mail.example.com/EWS/Exchange.asmx".to_string())
    );
    assert_eq!(extract_tag_value(xml, &vec!["Missing"]), None);
    assert_eq!(extract_tag_value("<r><Url/><x>text</x></r>", &vec!["Url"]), None);
}

#[test]
fn first_item_id_skips_blank_ids() {
    let xml = "<m><t:ItemId Id=\"  \"/><t:ItemId ChangeKey=\"k\" Id=\"AAA=\"/><t:ItemId Id=\"BBB\"/></m>";
    assert_eq!(extract_first_item_id_from_xml(xml), Some("AAA=".to_string()));
    assert_eq!(extract_first_item_id_from_xml("<m><t:FolderId Id=\"F\"/></m>"), None);
}

#[test]
fn delete_requests_name_the_delete_type() {
    let trash = delete_item_request("a<b", false);
    assert!(trash.contains("DeleteType=\"MoveToDeletedItems\""));
    assert!(trash.contains("<t:ItemId Id=\"a&lt;b\"/>"));
    let soft = delete_item_request("x", true);
    assert!(soft.contains("DeleteType=\"SoftDelete\""));
    assert!(soft.starts_with("<?xml version=\"1.0\" encoding=\"utf-8\"?>"));
    assert!(soft.ends_with("</soap:Envelope>"));
}

#[test]
fn mark_read_and_find_item_requests_carry_their_values() {
    assert!(mark_read_request("id1", true).contains("<t:IsRead>true</t:IsRead>"));
    assert!(mark_read_request("id1", false).contains("<t:IsRead>false</t:IsRead>"));
    let plain = find_item_request("inbox", "", 25);
    assert!(!plain.contains("QueryString"));
    assert!(plain.contains("<MaxItemsReturned>25</MaxItemsReturned>"));
    let query = find_item_request("inbox", "a&b", 5);
    assert!(query.contains("<t:QueryString>a&amp;b</t:QueryString>"));
}

#[test]
fn sync_requests_include_the_state_only_when_known() {
    let first = sync_folder_items_request("F1", &None, 100);
    assert!(!first.contains("SyncState"));
    assert!(first.contains("<MaxChangesReturned>100</MaxChangesReturned>"));
    let later = sync_folder_items_request("F1", &Some("S\"1".to_string()), -3);
    assert!(later.contains("<t:SyncState>S&quot;1</t:SyncState>"));
    assert!(later.contains("<MaxChangesReturned>-3</MaxChangesReturned>"));
}
