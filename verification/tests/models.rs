use ews_skill::ews_types::{BodyType, Email, EmailAddressType, MailboxContainer};
use ews_skill::html::{decode_html_entity, html_to_text, normalize_whitespace};
use ews_skill::models::{parse_ews_datetime, split_email_body, CachedEmail};
use ews_skill::time::Timestamp;

#[test]
fn split_html_body_into_html_and_plaintext() {
    let email = Email {
        body: BodyType {
            body_type: "HTML".to_string(),
            value: "<p>Hello&nbsp;<b>World</b></p><div>Line 2</div>".to_string(),
        },
        ..Default::default()
    };

    let (text, html) = split_email_body(&email);
    assert_eq!(
        html.as_deref(),
        Some("<p>Hello&nbsp;<b>World</b></p><div>Line 2</div>")
    );
    assert_eq!(text, "Hello World\nLine 2");
}

#[test]
fn split_email_body_falls_back_to_text_body() {
    let email = Email {
        text_body: BodyType {
            body_type: "Text".to_string(),
            value: "fallback text".to_string(),
        },
        ..Default::default()
    };

    let (text, html) = split_email_body(&email);
    assert_eq!(text, "fallback text");
    assert_eq!(html, None);
}

#[test]
fn html_to_text_decodes_entities() {
    assert_eq!(html_to_text("A &amp; B &lt; C"), "A & B < C");
}

#[test]
fn html_to_text_breaks_lines_at_block_tags() {
    assert_eq!(html_to_text("<div>a</div><br/>b"), "a\nb");
    assert_eq!(html_to_text("x &#65;&#x42; &quot;y&quot;"), "x AB \"y\"");
}

#[test]
fn decode_html_entity_reads_named_and_numeric() {
    assert_eq!(decode_html_entity("&amp;"), Some('&'));
    assert_eq!(decode_html_entity("&#65;"), Some('A'));
    assert_eq!(decode_html_entity("&#x41;"), Some('A'));
    assert_eq!(decode_html_entity("&bogus;"), None);
}

#[test]
fn normalize_whitespace_collapses_runs() {
    assert_eq!(normalize_whitespace("  a \t b  \n\n\n c  "), "a b \nc");
}

#[test]
fn parse_ews_datetime_reads_utc_instants() {
    let t = parse_ews_datetime("2024-01-02T03:04:05Z").unwrap();
    assert_eq!(t.secs, 1704164645);
    assert!(parse_ews_datetime("not a date").is_none());
}

#[test]
fn cached_email_from_ews_email_keeps_fields() {
    let email = Email {
        subject: "Hi".to_string(),
        sender: MailboxContainer {
            mailbox: Some(EmailAddressType {
                name: Some("Alice".to_string()),
                email_address: "alice@example.com".to_string(),
            }),
        },
        datetime_received: "2024-01-02T03:04:05Z".to_string(),
        text_body: BodyType { body_type: "Text".to_string(), value: "body".to_string() },
        ..Default::default()
    };
    let at = Timestamp { secs: 10, nanos: 0 };
    let c = CachedEmail::from_ews_email_at(&email, "inbox", at);
    assert_eq!(c.subject, "Hi");
    assert_eq!(c.sender_name, "Alice");
    assert_eq!(c.sender_email, "alice@example.com");
    assert_eq!(c.folder_id, "inbox");
    assert_eq!(c.body_text, "body");
    assert_eq!(c.importance, "Normal");
    assert_eq!(c.datetime_received.unwrap().secs, 1704164645);
    assert_eq!(c.cached_at.secs, 10);
}
