//! Reading values out of EWS and Autodiscover XML.  `quick_xml` turns the
//! text into a sequence of events; the searches over the events are this
//! library's own.
use vstd::prelude::*;
use quick_xml::events::Event::{Empty, End, Eof, Start, Text};
use quick_xml::Reader;
use vstd::utf8::{decode_utf8, valid_utf8};
use crate::ews_types::{Folder, FolderId};
use crate::text::{
    ascii_lower_seq, chars_eq_str, chars_of, copy_range, parse_i32, parse_i32_spec, string_from_chars, trim,
};

verus! {

/// An attribute as read: its qualified name and its raw value.
#[derive(Debug)]
pub struct XmlAttr {
    pub key: String,
    pub value: String,
}

/// One event of an XML reader that trims text and skips blank text.
#[derive(Debug)]
pub enum XmlEvent {
    /// A start tag (`empty` false) or an empty-element tag (`empty` true).
    Tag { empty: bool, name: String, attrs: Vec<XmlAttr> },
    /// An end tag.
    End { name: String },
    /// Text, unescaped; `None` when it holds an unknown entity.
    Text { text: Option<String> },
    /// A declaration, comment, CDATA section or other event.
    Other,
}

/// The view of an event.
pub enum EventView {
    Tag { empty: bool, name: Seq<char>, attrs: Seq<(Seq<char>, Seq<char>)> },
    End { name: Seq<char> },
    Text { text: Option<Seq<char>> },
    Other,
}

pub open spec fn attrs_view(a: Seq<XmlAttr>) -> Seq<(Seq<char>, Seq<char>)> {
    a.map_values(|x: XmlAttr| (x.key@, x.value@))
}

pub open spec fn event_view(e: XmlEvent) -> EventView {
    match e {
        XmlEvent::Tag { empty, name, attrs } => EventView::Tag {
            empty,
            name: name@,
            attrs: attrs_view(attrs@),
        },
        XmlEvent::End { name } => EventView::End { name: name@ },
        XmlEvent::Text { text } => EventView::Text {
            text: match text {
                Some(t) => Some(t@),
                None => None,
            },
        },
        XmlEvent::Other => EventView::Other,
    }
}

pub open spec fn events_view(v: Seq<XmlEvent>) -> Seq<EventView> {
    v.map_values(|e: XmlEvent| event_view(e))
}

/// An event as the reader hands it out: tag names and attribute names and
/// values as raw bytes, text unescaped.
#[derive(Debug)]
pub enum RawXmlEvent {
    Tag(bool, Vec<u8>, Vec<(Vec<u8>, Vec<u8>)>),
    End(Vec<u8>),
    Text(Option<String>),
    Other,
}

/// The view of a raw event.
pub enum RawEventView {
    Tag(bool, Seq<u8>, Seq<(Seq<u8>, Seq<u8>)>),
    End(Seq<u8>),
    Text(Option<Seq<char>>),
    Other,
}

pub open spec fn raw_attrs_view(a: Seq<(Vec<u8>, Vec<u8>)>) -> Seq<(Seq<u8>, Seq<u8>)> {
    a.map_values(|p: (Vec<u8>, Vec<u8>)| (p.0@, p.1@))
}

pub open spec fn raw_view(e: RawXmlEvent) -> RawEventView {
    match e {
        RawXmlEvent::Tag(empty, name, attrs) => RawEventView::Tag(empty, name@, raw_attrs_view(attrs@)),
        RawXmlEvent::End(name) => RawEventView::End(name@),
        RawXmlEvent::Text(text) => RawEventView::Text(
            match text {
                Some(t) => Some(t@),
                None => None,
            },
        ),
        RawXmlEvent::Other => RawEventView::Other,
    }
}

/// The text `String::from_utf8_lossy` makes of `bytes`.
pub uninterp spec fn lossy_text(bytes: Seq<u8>) -> Seq<char>;

/// `String::from_utf8_lossy(bytes)`: the text of valid UTF-8 as it reads,
/// invalid sequences replaced.  The contract names the replacement; it
/// states the result only for valid UTF-8.
#[verifier::external_body]
fn utf8_lossy(bytes: &[u8]) -> (r: String)
    ensures
        r@ == lossy_text(bytes@),
        valid_utf8(bytes@) ==> r@ == decode_utf8(bytes@),
{
    String::from_utf8_lossy(bytes).into_owned()
}

/// A raw event with its names and values read as text.
pub open spec fn decoded_event(e: RawEventView) -> EventView {
    match e {
        RawEventView::Tag(empty, name, attrs) => EventView::Tag {
            empty,
            name: lossy_text(name),
            attrs: attrs.map_values(|p: (Seq<u8>, Seq<u8>)| (lossy_text(p.0), lossy_text(p.1))),
        },
        RawEventView::End(name) => EventView::End { name: lossy_text(name) },
        RawEventView::Text(text) => EventView::Text { text },
        RawEventView::Other => EventView::Other,
    }
}

/// The events `quick_xml::Reader` yields for `xml` with text trimming on,
/// up to the end of the document or the first error.
pub uninterp spec fn xml_raw_events(xml: Seq<char>) -> Seq<RawEventView>;

/// The events of `xml`, with names and values read as text.
pub open spec fn xml_events(xml: Seq<char>) -> Seq<EventView> {
    xml_raw_events(xml).map_values(|e: RawEventView| decoded_event(e))
}

/// `quick_xml`'s reader over a string, opaque to the proofs.
#[verifier::external_type_specification]
#[verifier::external_body]
#[verifier::reject_recursive_types(R)]
pub struct ExXmlReader<R>(Reader<R>);

/// The events a reader has yet to yield, up to the end of the document or
/// its first error.
pub uninterp spec fn pending_events(reader: Reader<&[u8]>) -> Seq<RawEventView>;

/// `Reader::from_str(xml)` with `trim_text(true)`: a reader whose pending
/// events are those of the whole document.
#[verifier::external_body]
fn new_xml_reader(xml: &str) -> (r: Reader<&[u8]>)
    ensures
        pending_events(r) == xml_raw_events(xml@),
{
    let mut reader = Reader::from_str(xml);
    reader.trim_text(true);
    reader
}

/// `reader.read_event()`, converted: names and attribute values as raw
/// bytes, text unescaped.  `None` at the end of the document or on an
/// error; otherwise the first pending event, which is then consumed.
#[verifier::external_body]
fn next_xml_event(reader: &mut Reader<&[u8]>) -> (r: Option<RawXmlEvent>)
    ensures
        match r {
            Some(e) => pending_events(*old(reader)).len() > 0 && raw_view(e)
                == pending_events(*old(reader))[0] && pending_events(*final(reader))
                == pending_events(*old(reader)).drop_first(),
            None => pending_events(*old(reader)).len() == 0,
        },
{
    let (empty, e) = match reader.read_event() {
        Ok(Start(e)) => (false, e),
        Ok(Empty(e)) => (true, e),
        Ok(End(e)) => return Some(RawXmlEvent::End(e.name().0.to_vec())),
        Ok(Text(e)) => return Some(RawXmlEvent::Text(e.unescape().ok().map(String::from))),
        Ok(Eof) | Err(_) => return None,
        _ => return Some(RawXmlEvent::Other),
    };
    Some(RawXmlEvent::Tag(empty, e.name().0.to_vec(), e.attributes().flatten().map(|a| (a.key.0.to_vec(), a.value.to_vec())).collect()))
}

fn decode_attrs(attrs: &Vec<(Vec<u8>, Vec<u8>)>) -> (r: Vec<XmlAttr>)
    ensures
        attrs_view(r@) == raw_attrs_view(attrs@).map_values(
            |p: (Seq<u8>, Seq<u8>)| (lossy_text(p.0), lossy_text(p.1)),
        ),
{
    let mut out: Vec<XmlAttr> = Vec::new();
    let mut i: usize = 0;
    while i < attrs.len()
        invariant
            i <= attrs@.len(),
            attrs_view(out@) == raw_attrs_view(attrs@.subrange(0, i as int)).map_values(
                |p: (Seq<u8>, Seq<u8>)| (lossy_text(p.0), lossy_text(p.1)),
            ),
        decreases attrs@.len() - i,
    {
        let key = utf8_lossy(attrs[i].0.as_slice());
        let value = utf8_lossy(attrs[i].1.as_slice());
        let ghost before = out@;
        let ghost item = (lossy_text(attrs@[i as int].0@), lossy_text(attrs@[i as int].1@));
        out.push(XmlAttr { key, value });
        assert(attrs_view(out@) =~= attrs_view(before).push(item));
        assert(attrs@.subrange(0, i + 1) =~= attrs@.subrange(0, i as int).push(attrs@[i as int]));
        assert(raw_attrs_view(attrs@.subrange(0, i + 1)) =~= raw_attrs_view(attrs@.subrange(0, i as int)).push(
            (attrs@[i as int].0@, attrs@[i as int].1@),
        ));
        i += 1;
        assert(attrs_view(out@) =~= raw_attrs_view(attrs@.subrange(0, i as int)).map_values(
            |p: (Seq<u8>, Seq<u8>)| (lossy_text(p.0), lossy_text(p.1)),
        ));
    }
    assert(attrs@.subrange(0, attrs@.len() as int) =~= attrs@);
    out
}

fn decode_event(e: RawXmlEvent) -> (r: XmlEvent)
    ensures
        event_view(r) == decoded_event(raw_view(e)),
{
    match e {
        RawXmlEvent::Tag(empty, name, attrs) => {
            let attrs = decode_attrs(&attrs);
            XmlEvent::Tag { empty, name: utf8_lossy(name.as_slice()), attrs }
        },
        RawXmlEvent::End(name) => XmlEvent::End { name: utf8_lossy(name.as_slice()) },
        RawXmlEvent::Text(text) => XmlEvent::Text { text },
        RawXmlEvent::Other => XmlEvent::Other,
    }
}

/// Reads `xml` into its events.
pub fn read_xml_events(xml: &str) -> (r: Vec<XmlEvent>)
    ensures
        events_view(r@) == xml_events(xml@),
{
    let mut reader = new_xml_reader(xml);
    let mut out: Vec<XmlEvent> = Vec::new();
    loop
        invariant
            events_view(out@) + pending_events(reader).map_values(|e: RawEventView| decoded_event(e))
                == xml_events(xml@),
        decreases pending_events(reader).len(),
    {
        let ghost done = events_view(out@);
        let ghost before = pending_events(reader);
        match next_xml_event(&mut reader) {
            Some(raw) => {
                let e = decode_event(raw);
                let ghost ev = event_view(e);
                out.push(e);
                assert(events_view(out@) =~= done.push(ev));
                assert(before.map_values(|e: RawEventView| decoded_event(e)) =~= seq![ev]
                    + before.drop_first().map_values(|e: RawEventView| decoded_event(e)));
                assert(done.push(ev) + before.drop_first().map_values(|e: RawEventView| decoded_event(e))
                    =~= done + before.map_values(|e: RawEventView| decoded_event(e)));
            },
            None => {
                assert(done + before.map_values(|e: RawEventView| decoded_event(e)) =~= done);
                return out;
            },
        }
    }
}

/// Position of the last `c` in `s`.
pub open spec fn last_index_of(s: Seq<char>, c: char) -> Option<int>
    decreases s.len(),
{
    if s.len() == 0 {
        None
    } else if s.last() == c {
        Some(s.len() - 1)
    } else {
        last_index_of(s.drop_last(), c)
    }
}

/// A name without its namespace prefix: what follows the last `:`.
pub open spec fn local(name: Seq<char>) -> Seq<char> {
    match last_index_of(name, ':') {
        Some(k) => name.subrange(k + 1, name.len() as int),
        None => name,
    }
}

fn local_chars(name: &[char]) -> (r: Vec<char>)
    ensures
        r@ == local(name@),
{
    let mut i = name.len();
    assert(name@.subrange(0, name@.len() as int) == name@);
    while i > 0 && name[i - 1] != ':'
        invariant
            i <= name@.len(),
            last_index_of(name@, ':') == last_index_of(name@.subrange(0, i as int), ':'),
        decreases i,
    {
        assert(name@.subrange(0, i as int).drop_last() == name@.subrange(0, i - 1));
        i -= 1;
    }
    assert(name@.subrange(0, name@.len() as int) == name@);
    if i == 0 {
        copy_range(name, 0, name.len())
    } else {
        assert(name@.subrange(0, i as int).last() == ':');
        copy_range(name, i, name.len())
    }
}

/// The name without its namespace prefix.
pub fn local_name(raw_name: &str) -> (r: String)
    ensures
        r@ == local(raw_name@),
{
    let v = chars_of(raw_name);
    let l = local_chars(v.as_slice());
    string_from_chars(l.as_slice())
}

/// The text of the first element among `candidates` (compared without
/// namespace prefix) that has text, scanning from event `i`; `capture`
/// tells whether the last start tag opened such an element.
pub open spec fn tag_value_scan(ev: Seq<EventView>, cands: Seq<Seq<char>>, i: int, capture: bool) -> Option<Seq<char>>
    decreases ev.len() - i,
{
    if i < 0 || i >= ev.len() {
        None
    } else {
        match ev[i] {
            EventView::Tag { empty, name, attrs } => if !empty {
                tag_value_scan(ev, cands, i + 1, cands.contains(local(name)))
            } else {
                tag_value_scan(ev, cands, i + 1, capture)
            },
            EventView::Text { text } => if capture && text is Some {
                text
            } else {
                tag_value_scan(ev, cands, i + 1, capture)
            },
            EventView::End { name } => tag_value_scan(ev, cands, i + 1, false),
            EventView::Other => tag_value_scan(ev, cands, i + 1, capture),
        }
    }
}

/// The text of the first element named like one of `candidates`.
pub open spec fn tag_value(ev: Seq<EventView>, cands: Seq<Seq<char>>) -> Option<Seq<char>> {
    tag_value_scan(ev, cands, 0, false)
}

fn name_in(name: &[char], cands: &Vec<&str>) -> (r: bool)
    ensures
        r == cands@.map_values(|c: &str| c@).contains(name@),
{
    let ghost cv = cands@.map_values(|c: &str| c@);
    let mut j: usize = 0;
    while j < cands.len()
        invariant
            j <= cands@.len(),
            cv == cands@.map_values(|c: &str| c@),
            forall|k: int| 0 <= k < j ==> cv[k] != name@,
        decreases cands.len() - j,
    {
        if chars_eq_str(name, cands[j]) {
            assert(cv[j as int] == name@);
            return true;
        }
        j += 1;
    }
    false
}

/// The text of the first element whose name (without prefix) is one of
/// `candidates`, in the events of an XML document.
pub fn extract_tag_value_from(events: &Vec<XmlEvent>, candidates: &Vec<&str>) -> (r: Option<String>)
    ensures
        match r {
            Some(t) => tag_value(events_view(events@), candidates@.map_values(|c: &str| c@))
                == Some(t@),
            None => tag_value(events_view(events@), candidates@.map_values(|c: &str| c@)) is None,
        },
{
    let ghost ev = events_view(events@);
    let ghost cv = candidates@.map_values(|c: &str| c@);
    let mut capture = false;
    let mut i: usize = 0;
    while i < events.len()
        invariant
            i <= events@.len(),
            ev == events_view(events@),
            cv == candidates@.map_values(|c: &str| c@),
            tag_value_scan(ev, cv, i as int, capture) == tag_value_scan(ev, cv, 0, false),
        decreases events.len() - i,
    {
        assert(ev[i as int] == event_view(events@[i as int]));
        match &events[i] {
            XmlEvent::Tag { empty, name, attrs } => {
                if !*empty {
                    let n = chars_of(name.as_str());
                    let l = local_chars(n.as_slice());
                    capture = name_in(l.as_slice(), candidates);
                }
            },
            XmlEvent::Text { text } => {
                if capture {
                    match text {
                        Some(t) => {
                            return Some(t.clone());
                        },
                        None => {},
                    }
                }
            },
            XmlEvent::End { name } => {
                capture = false;
            },
            XmlEvent::Other => {},
        }
        i += 1;
    }
    None
}

/// The text of the first element whose name (without prefix) is one of
/// `candidates`.
pub fn extract_tag_value(xml: &str, candidates: &Vec<&str>) -> (r: Option<String>)
    ensures
        match r {
            Some(t) => tag_value(xml_events(xml@), candidates@.map_values(|c: &str| c@)) == Some(
                t@,
            ),
            None => tag_value(xml_events(xml@), candidates@.map_values(|c: &str| c@)) is None,
        },
{
    let events = read_xml_events(xml);
    extract_tag_value_from(&events, candidates)
}

/// The first attribute named `Id` (without prefix) whose value holds more
/// than whitespace, from attribute `j` on.
pub open spec fn id_attr(attrs: Seq<(Seq<char>, Seq<char>)>, j: int) -> Option<Seq<char>>
    decreases attrs.len() - j,
{
    if j < 0 || j >= attrs.len() {
        None
    } else if local(attrs[j].0) == "Id"@ && trim(attrs[j].1).len() > 0 {
        Some(attrs[j].1)
    } else {
        id_attr(attrs, j + 1)
    }
}

/// The first usable `Id` of an `ItemId` element, from event `i` on.
pub open spec fn first_item_id_from(ev: Seq<EventView>, i: int) -> Option<Seq<char>>
    decreases ev.len() - i,
{
    if i < 0 || i >= ev.len() {
        None
    } else {
        match ev[i] {
            EventView::Tag { empty, name, attrs } => if local(name) == "ItemId"@ && id_attr(
                attrs,
                0,
            ) is Some {
                id_attr(attrs, 0)
            } else {
                first_item_id_from(ev, i + 1)
            },
            _ => first_item_id_from(ev, i + 1),
        }
    }
}

fn id_attr_exec(attrs: &Vec<XmlAttr>) -> (r: Option<String>)
    ensures
        match r {
            Some(v) => id_attr(attrs_view(attrs@), 0) == Some(v@),
            None => id_attr(attrs_view(attrs@), 0) is None,
        },
{
    let ghost av = attrs_view(attrs@);
    let mut j: usize = 0;
    while j < attrs.len()
        invariant
            j <= attrs@.len(),
            av == attrs_view(attrs@),
            id_attr(av, j as int) == id_attr(av, 0),
        decreases attrs.len() - j,
    {
        let k = chars_of(attrs[j].key.as_str());
        let l = local_chars(k.as_slice());
        if chars_eq_str(l.as_slice(), "Id") && !crate::text::is_blank(attrs[j].value.as_str()) {
            return Some(attrs[j].value.clone());
        }
        j += 1;
    }
    None
}

/// The first usable `Id` of an `ItemId` element among the events.
pub fn first_item_id_from_events(events: &Vec<XmlEvent>) -> (r: Option<String>)
    ensures
        match r {
            Some(v) => first_item_id_from(events_view(events@), 0) == Some(v@),
            None => first_item_id_from(events_view(events@), 0) is None,
        },
{
    let ghost ev = events_view(events@);
    let mut i: usize = 0;
    while i < events.len()
        invariant
            i <= events@.len(),
            ev == events_view(events@),
            first_item_id_from(ev, i as int) == first_item_id_from(ev, 0),
        decreases events.len() - i,
    {
        assert(ev[i as int] == event_view(events@[i as int]));
        match &events[i] {
            XmlEvent::Tag { empty, name, attrs } => {
                let n = chars_of(name.as_str());
                let l = local_chars(n.as_slice());
                if chars_eq_str(l.as_slice(), "ItemId") {
                    match id_attr_exec(attrs) {
                        Some(v) => {
                            return Some(v);
                        },
                        None => {},
                    }
                }
            },
            _ => {},
        }
        i += 1;
    }
    None
}

/// The first usable `Id` of an `ItemId` element in an XML document.
pub fn extract_first_item_id_from_xml(xml: &str) -> (r: Option<String>)
    ensures
        match r {
            Some(v) => first_item_id_from(xml_events(xml@), 0) == Some(v@),
            None => first_item_id_from(xml_events(xml@), 0) is None,
        },
{
    let events = read_xml_events(xml);
    first_item_id_from_events(&events)
}

} // verus!

verus! {

/// The view of a folder.
pub struct FolderView {
    pub id: Seq<char>,
    pub change_key: Seq<char>,
    pub display_name: Seq<char>,
    pub total_count: i32,
    pub unread_count: i32,
}

pub open spec fn folder_view(f: Folder) -> FolderView {
    FolderView {
        id: f.folder_id.id@,
        change_key: f.folder_id.change_key@,
        display_name: f.display_name@,
        total_count: f.total_count,
        unread_count: f.unread_count,
    }
}

pub open spec fn empty_folder() -> FolderView {
    FolderView { id: seq![], change_key: seq![], display_name: seq![], total_count: 0, unread_count: 0 }
}

/// Element names that describe a folder.
pub open spec fn is_folder_name(n: Seq<char>) -> bool {
    ||| n == "Folder"@
    ||| n == "SearchFolder"@
    ||| n == "CalendarFolder"@
    ||| n == "ContactsFolder"@
    ||| n == "TasksFolder"@
}

/// Whether an element name describes a folder.
pub fn is_folder_node(name: &str) -> (r: bool)
    ensures
        r == is_folder_name(name@),
{
    let v = chars_of(name);
    chars_eq_str(v.as_slice(), "Folder") || chars_eq_str(v.as_slice(), "SearchFolder")
        || chars_eq_str(v.as_slice(), "CalendarFolder") || chars_eq_str(v.as_slice(), "ContactsFolder")
        || chars_eq_str(v.as_slice(), "TasksFolder")
}

/// The folder with the `Id` and `ChangeKey` attributes (without prefix) of
/// `attrs` from `j` on taken in order, a later one overriding an earlier.
pub open spec fn with_ids(f: FolderView, attrs: Seq<(Seq<char>, Seq<char>)>, j: int) -> FolderView
    decreases attrs.len() - j,
{
    if j < 0 || j >= attrs.len() {
        f
    } else {
        let k = local(attrs[j].0);
        let g = if k == "Id"@ {
            FolderView { id: attrs[j].1, ..f }
        } else if k == "ChangeKey"@ {
            FolderView { change_key: attrs[j].1, ..f }
        } else {
            f
        };
        with_ids(g, attrs, j + 1)
    }
}

/// A count read as `i32`, zero when it does not parse.
pub open spec fn count_of(t: Seq<char>) -> i32 {
    match parse_i32_spec(t) {
        Some(v) => v as i32,
        None => 0,
    }
}

/// The folder with the text of the element `tag` recorded.
pub open spec fn with_text(f: FolderView, tag: Seq<char>, t: Seq<char>) -> FolderView {
    if tag == "DisplayName"@ {
        FolderView { display_name: t, ..f }
    } else if tag == "TotalCount"@ {
        FolderView { total_count: count_of(t), ..f }
    } else if tag == "UnreadCount"@ {
        FolderView { unread_count: count_of(t), ..f }
    } else {
        f
    }
}

/// The state of the folder search: the last start tag, the folder being
/// read, and whether a folder element is open.
pub struct FolderScan {
    pub tag: Seq<char>,
    pub cur: Option<FolderView>,
    pub in_node: bool,
}

pub open spec fn map_ids(cur: Option<FolderView>, attrs: Seq<(Seq<char>, Seq<char>)>) -> Option<FolderView> {
    match cur {
        Some(f) => Some(with_ids(f, attrs, 0)),
        None => None,
    }
}

/// The state after one event.
pub open spec fn folder_step(st: FolderScan, e: EventView) -> FolderScan {
    match e {
        EventView::Tag { empty, name, attrs } => {
            let n = local(name);
            if !empty {
                if is_folder_name(n) {
                    FolderScan { tag: n, cur: Some(empty_folder()), in_node: true }
                } else if st.in_node && n == "FolderId"@ {
                    FolderScan { tag: n, cur: map_ids(st.cur, attrs), in_node: st.in_node }
                } else {
                    FolderScan { tag: n, ..st }
                }
            } else if st.in_node && n == "FolderId"@ {
                FolderScan { cur: map_ids(st.cur, attrs), ..st }
            } else {
                st
            }
        },
        EventView::Text { text } => if st.in_node && st.cur is Some && text is Some {
            FolderScan { cur: Some(with_text(st.cur->0, st.tag, text->0)), ..st }
        } else {
            st
        },
        EventView::End { name } => if st.in_node && is_folder_name(local(name)) {
            FolderScan { tag: seq![], cur: None, in_node: false }
        } else {
            FolderScan { tag: seq![], ..st }
        },
        EventView::Other => st,
    }
}

/// The first folder, from event `i` on, whose display name lower-cased
/// equals `target`; a folder is judged when its element closes.
pub open spec fn folder_scan(ev: Seq<EventView>, i: int, st: FolderScan, target: Seq<char>) -> Option<FolderView>
    decreases ev.len() - i,
{
    if i < 0 || i >= ev.len() {
        None
    } else {
        match ev[i] {
            EventView::End { name } => if st.in_node && is_folder_name(local(name)) && st.cur is Some
                && str_lowercase(st.cur->0.display_name) == target {
                st.cur
            } else {
                folder_scan(ev, i + 1, folder_step(st, ev[i]), target)
            },
            _ => folder_scan(ev, i + 1, folder_step(st, ev[i]), target),
        }
    }
}

/// The folder named `name` (compared lower-cased) in a folder listing.
pub open spec fn find_folder(ev: Seq<EventView>, name: Seq<char>) -> Option<FolderView> {
    folder_scan(ev, 0, FolderScan { tag: seq![], cur: None, in_node: false }, str_lowercase(name))
}

/// What `str::to_lowercase` gives: the Unicode lower case mapping.
pub uninterp spec fn str_lowercase(s: Seq<char>) -> Seq<char>;

/// Every character of `s` is ASCII.
pub open spec fn all_ascii(s: Seq<char>) -> bool {
    forall|i: int| 0 <= i < s.len() ==> (#[trigger] s[i] as u32) < 128
}

/// `s.to_lowercase()`.  The contract names the Unicode mapping std applies,
/// and states what std documents of it on ASCII text: there the Unicode
/// lower case mapping is the ASCII one (`A`-`Z` to `a`-`z`, all else kept).
#[verifier::external_body]
pub(crate) fn to_lowercase(s: &str) -> (r: String)
    ensures
        r@ == str_lowercase(s@),
        all_ascii(s@) ==> r@ == ascii_lower_seq(s@),
{
    s.to_lowercase()
}

fn set_ids(f: &mut Folder, attrs: &Vec<XmlAttr>)
    ensures
        folder_view(*final(f)) == with_ids(folder_view(*old(f)), attrs_view(attrs@), 0),
{
    let ghost av = attrs_view(attrs@);
    let mut j: usize = 0;
    while j < attrs.len()
        invariant
            j <= attrs@.len(),
            av == attrs_view(attrs@),
            with_ids(folder_view(*f), av, j as int) == with_ids(folder_view(*old(f)), av, 0),
        decreases attrs.len() - j,
    {
        let k = chars_of(attrs[j].key.as_str());
        let l = local_chars(k.as_slice());
        if chars_eq_str(l.as_slice(), "Id") {
            f.folder_id.id = attrs[j].value.clone();
        } else if chars_eq_str(l.as_slice(), "ChangeKey") {
            f.folder_id.change_key = attrs[j].value.clone();
        }
        j += 1;
    }
}

fn set_text(f: &mut Folder, tag: &Vec<char>, t: &String)
    ensures
        folder_view(*final(f)) == with_text(folder_view(*old(f)), tag@, t@),
{
    if chars_eq_str(tag.as_slice(), "DisplayName") {
        f.display_name = t.clone();
    } else if chars_eq_str(tag.as_slice(), "TotalCount") {
        let v = chars_of(t.as_str());
        f.total_count = match parse_i32(v.as_slice()) {
            Some(x) => x,
            None => 0,
        };
    } else if chars_eq_str(tag.as_slice(), "UnreadCount") {
        let v = chars_of(t.as_str());
        f.unread_count = match parse_i32(v.as_slice()) {
            Some(x) => x,
            None => 0,
        };
    }
}

fn is_folder_chars(n: &[char]) -> (r: bool)
    ensures
        r == is_folder_name(n@),
{
    chars_eq_str(n, "Folder") || chars_eq_str(n, "SearchFolder") || chars_eq_str(n, "CalendarFolder")
        || chars_eq_str(n, "ContactsFolder") || chars_eq_str(n, "TasksFolder")
}

pub open spec fn opt_folder_view(o: Option<Folder>) -> Option<FolderView> {
    match o {
        Some(f) => Some(folder_view(f)),
        None => None,
    }
}

/// The folder named `folder_name` (compared lower-cased) among the events
/// of a folder listing.
pub fn find_folder_in_events(events: &Vec<XmlEvent>, folder_name: &str) -> (r: Option<Folder>)
    ensures
        opt_folder_view(r) == find_folder(events_view(events@), folder_name@),
{
    let ghost ev = events_view(events@);
    let target = to_lowercase(folder_name);
    let mut tag: Vec<char> = Vec::new();
    let mut cur: Option<Folder> = None;
    let mut in_node = false;
    let mut i: usize = 0;
    assert(tag@ =~= Seq::<char>::empty());
    while i < events.len()
        invariant
            i <= events@.len(),
            ev == events_view(events@),
            target@ == str_lowercase(folder_name@),
            folder_scan(ev, i as int, FolderScan { tag: tag@, cur: opt_folder_view(cur), in_node }, target@)
                == find_folder(ev, folder_name@),
        decreases events.len() - i,
    {
        let ghost st = FolderScan { tag: tag@, cur: opt_folder_view(cur), in_node };
        assert(ev[i as int] == event_view(events@[i as int]));
        match &events[i] {
            XmlEvent::Tag { empty, name, attrs } => {
                let nv = chars_of(name.as_str());
                let n = local_chars(nv.as_slice());
                let is_fid = chars_eq_str(n.as_slice(), "FolderId");
                if !*empty {
                    if is_folder_chars(n.as_slice()) {
                        in_node = true;
                        cur = Some(Folder::empty());
                    } else if in_node && is_fid {
                        match cur {
                            Some(mut f) => {
                                set_ids(&mut f, attrs);
                                cur = Some(f);
                            },
                            None => {},
                        }
                    }
                    tag = n;
                } else if in_node && is_fid {
                    match cur {
                        Some(mut f) => {
                            set_ids(&mut f, attrs);
                            cur = Some(f);
                        },
                        None => {},
                    }
                }
            },
            XmlEvent::Text { text } => {
                if in_node {
                    match (cur, text) {
                        (Some(mut f), Some(t)) => {
                            set_text(&mut f, &tag, t);
                            cur = Some(f);
                        },
                        (c, _) => {
                            cur = c;
                        },
                    }
                }
            },
            XmlEvent::End { name } => {
                let nv = chars_of(name.as_str());
                let n = local_chars(nv.as_slice());
                if in_node && is_folder_chars(n.as_slice()) {
                    match cur {
                        Some(f) => {
                            let lower = to_lowercase(f.display_name.as_str());
                            if lower == target {
                                return Some(f);
                            }
                        },
                        None => {},
                    }
                    cur = None;
                    in_node = false;
                }
                tag = Vec::new();
                assert(tag@ =~= Seq::<char>::empty());
            },
            XmlEvent::Other => {},
        }
        assert(FolderScan { tag: tag@, cur: opt_folder_view(cur), in_node } == folder_step(st, ev[i as int]));
        i += 1;
    }
    None
}

/// The folder named `folder_name` (compared lower-cased) in a folder
/// listing document.
pub fn find_folder_in_xml(xml: &str, folder_name: &str) -> (r: Option<Folder>)
    ensures
        opt_folder_view(r) == find_folder(xml_events(xml@), folder_name@),
{
    let events = read_xml_events(xml);
    find_folder_in_events(&events, folder_name)
}

} // verus!

verus! {

proof fn lemma_no_colon_last_index(s: Seq<char>)
    requires
        forall|i: int| 0 <= i < s.len() ==> #[trigger] s[i] != ':',
    ensures
        last_index_of(s, ':') is None,
    decreases s.len(),
{
    if s.len() > 0 {
        assert(s.last() == s[s.len() - 1]);
        lemma_no_colon_last_index(s.drop_last());
    }
}

proof fn lemma_local_plain(s: Seq<char>)
    requires
        forall|i: int| 0 <= i < s.len() ==> #[trigger] s[i] != ':',
    ensures
        local(s) == s,
{
    lemma_no_colon_last_index(s);
}

/// Folders are looked up without regard to case: two names that lower-case
/// alike find the same folder in every listing.
pub proof fn find_folder_ignores_case(ev: Seq<EventView>, n: Seq<char>, m: Seq<char>)
    requires
        str_lowercase(n) == str_lowercase(m),
    ensures
        find_folder(ev, n) == find_folder(ev, m),
{
}

/// A listing of one folder: its id and change key, and its display name.
pub open spec fn one_folder_listing(id: Seq<char>, change_key: Seq<char>, name: Seq<char>) -> Seq<EventView> {
    seq![
        EventView::Tag { empty: false, name: "Folder"@, attrs: seq![] },
        EventView::Tag { empty: true, name: "FolderId"@, attrs: seq![("Id"@, id), ("ChangeKey"@, change_key)] },
        EventView::Tag { empty: false, name: "DisplayName"@, attrs: seq![] },
        EventView::Text { text: Some(name) },
        EventView::End { name: "DisplayName"@ },
        EventView::End { name: "Folder"@ },
    ]
}

/// A folder is found when asked for by its own display name, with the id
/// and change key it is listed with.
pub proof fn find_folder_finds_its_own_name(id: Seq<char>, change_key: Seq<char>, name: Seq<char>)
    ensures
        find_folder(one_folder_listing(id, change_key, name), name) == Some(
            FolderView { id, change_key, display_name: name, total_count: 0, unread_count: 0 },
        ),
{
    reveal_strlit("Folder");
    reveal_strlit("FolderId");
    reveal_strlit("DisplayName");
    reveal_strlit("Id");
    reveal_strlit("ChangeKey");
    reveal_strlit("SearchFolder");
    reveal_strlit("CalendarFolder");
    reveal_strlit("ContactsFolder");
    reveal_strlit("TasksFolder");
    reveal_strlit("TotalCount");
    reveal_strlit("UnreadCount");
    let ev = one_folder_listing(id, change_key, name);
    let t = str_lowercase(name);
    lemma_local_plain("Folder"@);
    lemma_local_plain("FolderId"@);
    lemma_local_plain("DisplayName"@);
    lemma_local_plain("Id"@);
    lemma_local_plain("ChangeKey"@);
    assert("DisplayName"@ != "TasksFolder"@) by {
        assert("DisplayName"@[0] != "TasksFolder"@[0]);
    }
    assert("DisplayName"@ != "TotalCount"@);
    assert("ChangeKey"@ != "Id"@);
    let attrs = seq![("Id"@, id), ("ChangeKey"@, change_key)];
    let st0 = FolderScan { tag: seq![], cur: None, in_node: false };
    let st1 = FolderScan { tag: "Folder"@, cur: Some(empty_folder()), in_node: true };
    let f1 = FolderView { id, ..empty_folder() };
    let f2 = FolderView { id, change_key, ..empty_folder() };
    assert(with_ids(f2, attrs, 2) == f2);
    assert(with_ids(f1, attrs, 1) == f2);
    assert(with_ids(empty_folder(), attrs, 0) == f2);
    let st2 = FolderScan { cur: Some(f2), ..st1 };
    let st3 = FolderScan { tag: "DisplayName"@, ..st2 };
    let f4 = FolderView { display_name: name, ..f2 };
    let st4 = FolderScan { cur: Some(f4), ..st3 };
    let st5 = FolderScan { tag: seq![], ..st4 };
    assert(folder_step(st0, ev[0]) == st1);
    assert(folder_step(st1, ev[1]) == st2);
    assert(folder_step(st2, ev[2]) == st3);
    assert(folder_step(st3, ev[3]) == st4);
    assert(folder_step(st4, ev[4]) == st5);
    assert(folder_scan(ev, 5, st5, t) == Some(f4));
    assert(folder_scan(ev, 4, st4, t) == Some(f4));
    assert(folder_scan(ev, 3, st3, t) == Some(f4));
    assert(folder_scan(ev, 2, st2, t) == Some(f4));
    assert(folder_scan(ev, 1, st1, t) == Some(f4));
    assert(folder_scan(ev, 0, st0, t) == Some(f4));
}

} // verus!
