use outlook_cli::builders::{DraftMessage, NewCalendarEvent, NewContact, NewMessage};
use outlook_cli::domain::{BodyKind, DateTimeTimeZone};

#[test]
fn new_message_text_keeps_fields() {
    let m = NewMessage::text("to@example.com", "Hi", "Hello");
    assert_eq!(m.to, "to@example.com".to_string());
    assert_eq!(m.subject, "Hi".to_string());
    assert_eq!(m.body.content, "Hello".to_string());
    assert!(m.body.content_type == BodyKind::Text);
}

#[test]
fn new_message_html_marks_body() {
    let m = NewMessage::html("a@b.c", "s", "<b>x</b>");
    assert!(m.body.content_type == BodyKind::Html);
    assert_eq!(m.body.content, "<b>x</b>".to_string());
}

#[test]
fn draft_setter_last_write_wins() {
    let d = DraftMessage::new()
        .subject("first".to_string())
        .subject("second".to_string());
    assert_eq!(d.subject, Some("second".to_string()));
    let d = DraftMessage::new()
        .body_text("plain".to_string())
        .body_html("<p>rich</p>".to_string());
    let body = d.body.unwrap();
    assert!(body.content_type == BodyKind::Html);
    assert_eq!(body.content, "<p>rich</p>".to_string());
}

#[test]
fn draft_setter_order_does_not_matter() {
    let d1 = DraftMessage::new()
        .subject("s".to_string())
        .body_text("b".to_string());
    let d2 = DraftMessage::new()
        .body_text("b".to_string())
        .subject("s".to_string());
    assert_eq!(d1.subject, d2.subject);
    let b1 = d1.body.unwrap();
    let b2 = d2.body.unwrap();
    assert!(b1.content_type == b2.content_type);
    assert_eq!(b1.content, b2.content);
    assert_eq!(d1.recipients, d2.recipients);
}

#[test]
fn empty_draft_is_valid() {
    let d = DraftMessage::new();
    assert_eq!(d.subject, None);
    assert!(d.body.is_none());
    assert_eq!(d.recipients, None);
}

#[test]
fn event_builder_amendments() {
    let e = NewCalendarEvent::new(
        "Standup",
        DateTimeTimeZone::new("2024-01-01T09:00:00", "UTC"),
        DateTimeTimeZone::new("2024-01-01T09:15:00", "UTC"),
    );
    assert!(!e.is_all_day);
    assert!(!e.is_online_meeting);
    assert_eq!(e.location, None);
    let e = e
        .location("Room 1".to_string())
        .location("Room 2".to_string())
        .all_day()
        .online_meeting();
    assert_eq!(e.location, Some("Room 2".to_string()));
    assert!(e.is_all_day);
    assert!(e.is_online_meeting);
    assert_eq!(e.subject, "Standup".to_string());
    assert_eq!(e.start.date_time, "2024-01-01T09:00:00".to_string());
    assert_eq!(e.end.time_zone, "UTC".to_string());
}

#[test]
fn contact_builder_last_write_and_order() {
    let c1 = NewContact::new("Jane", "Doe")
        .email("a@x.com".to_string())
        .mobile("111".to_string());
    let c2 = NewContact::new("Jane", "Doe")
        .mobile("111".to_string())
        .email("old@x.com".to_string())
        .email("a@x.com".to_string());
    assert_eq!(c1.given_name, c2.given_name);
    assert_eq!(c1.surname, c2.surname);
    assert_eq!(c1.email, c2.email);
    assert_eq!(c1.mobile, c2.mobile);
    assert_eq!(c1.company, None);
    assert_eq!(c1.job_title, None);
}
