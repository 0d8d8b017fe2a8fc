use outlook_cli::domain::{
    Attachment, BodyKind, CalendarEvent, Contact, DateTimeTimeZone, EmailAddress, EmailEntry,
    Folder, ItemBody, Location, Message, Recipient, User,
};
use outlook_cli::domain::Attendee;
use outlook_cli::render::{
    render_attachments, render_contact_detail, render_contacts, render_event_detail,
    render_events, render_folders, render_me, render_message_detail, render_messages,
};

fn msg(id: &str, from: Option<&str>, subject: Option<&str>, is_read: Option<bool>) -> Message {
    Message {
        id: id.to_string(),
        subject: subject.map(|s| s.to_string()),
        from: from.map(|a| Recipient { email_address: EmailAddress { address: a.to_string() } }),
        body: None,
        received_date_time: None,
        is_read,
    }
}

#[test]
fn empty_message_list_renders_fixed_sentence_only() {
    let out = render_messages(&vec![]);
    assert_eq!(out, vec!["(no messages)".to_string()]);
}

#[test]
fn message_list_marks_and_legend() {
    let msgs = vec![
        msg("id-1", Some("a@x.com"), Some("Hello"), Some(false)),
        msg("id-2", Some("b@x.com"), Some("World"), Some(true)),
    ];
    let out = render_messages(&msgs);
    assert_eq!(
        out,
        vec![
            " 1.* a@x.com - Hello".to_string(),
            "      ID: id-1".to_string(),
            " 2.  b@x.com - World".to_string(),
            "      ID: id-2".to_string(),
            "".to_string(),
            "* = unread".to_string(),
        ]
    );
}

#[test]
fn message_list_fallbacks_and_missing_read_flag() {
    let msgs = vec![msg("x", None, None, None)];
    let out = render_messages(&msgs);
    assert_eq!(out[0], " 1.* unknown - (no subject)".to_string());
}

#[test]
fn message_list_indexes_follow_input_order() {
    let msgs = vec![
        msg("a", Some("p@x.com"), Some("s1"), Some(true)),
        msg("b", Some("q@x.com"), Some("s2"), Some(false)),
        msg("c", Some("r@x.com"), Some("s3"), Some(true)),
    ];
    let out = render_messages(&msgs);
    assert!(out[0].starts_with(" 1."));
    assert!(out[2].starts_with(" 2."));
    assert!(out[4].starts_with(" 3."));
}

#[test]
fn two_digit_indexes_are_not_padded() {
    let msgs: Vec<Message> = (0..10)
        .map(|i| msg(&format!("id{}", i), Some("a@x.com"), Some("s"), Some(true)))
        .collect();
    let out = render_messages(&msgs);
    assert!(out[18].starts_with("10. "));
}

#[test]
fn folders_render_counts_and_unread_note() {
    let fs = vec![
        Folder {
            display_name: "Inbox".to_string(),
            total_item_count: Some(12),
            unread_item_count: Some(3),
        },
        Folder {
            display_name: "Archive".to_string(),
            total_item_count: None,
            unread_item_count: Some(0),
        },
    ];
    let out = render_folders(&fs);
    assert_eq!(
        out,
        vec![
            "Mail Folders:".to_string(),
            "".to_string(),
            "  Inbox - 12 items (3 unread)".to_string(),
            "  Archive - 0 items".to_string(),
        ]
    );
}

#[test]
fn me_renders_empty_fallbacks() {
    let out = render_me(&User { display_name: None, mail: Some("me@x.com".to_string()) });
    assert_eq!(out, vec!["User: ".to_string(), "Email: me@x.com".to_string()]);
}

#[test]
fn message_detail_renders_fallbacks_and_body() {
    let mut m = msg("id", None, None, None);
    m.body = Some(ItemBody { content_type: BodyKind::Text, content: "line one".to_string() });
    m.received_date_time = Some("2024-05-01T10:00:00Z".to_string());
    let out = render_message_detail(&m);
    assert_eq!(
        out,
        vec![
            "Subject: (no subject)".to_string(),
            "From: unknown".to_string(),
            "Date: 2024-05-01T10:00:00Z".to_string(),
            "Read: No".to_string(),
            "".to_string(),
            "line one".to_string(),
        ]
    );
}

#[test]
fn message_detail_absent_body_has_no_line() {
    let m = msg("id", Some("a@x.com"), Some("s"), Some(true));
    let out = render_message_detail(&m);
    assert_eq!(out.len(), 5);
    assert_eq!(out[3], "Read: Yes".to_string());
}

#[test]
fn attachments_empty_and_sizes() {
    let out = render_attachments(&vec![]);
    assert_eq!(out, vec!["No attachments".to_string()]);
    let ats = vec![
        Attachment { id: "a1".to_string(), name: "r.pdf".to_string(), size: Some(2048) },
        Attachment { id: "a2".to_string(), name: "x.txt".to_string(), size: None },
    ];
    let out = render_attachments(&ats);
    assert_eq!(
        out,
        vec![
            "Attachments:".to_string(),
            "  a1 - r.pdf (2048 bytes)".to_string(),
            "  a2 - x.txt".to_string(),
        ]
    );
}

#[test]
fn events_list_empty_and_missing_start() {
    let out = render_events(&vec![]);
    assert_eq!(out, vec!["No events".to_string()]);
    let es = vec![CalendarEvent {
        id: "e1".to_string(),
        subject: None,
        start: None,
        end: None,
        location: None,
        attendees: None,
    }];
    let out = render_events(&es);
    assert_eq!(
        out,
        vec![
            "Calendar Events:".to_string(),
            "  ? - (no subject)".to_string(),
            "    ID: e1".to_string(),
        ]
    );
}

#[test]
fn event_detail_absent_fields_render_no_lines() {
    let e = CalendarEvent {
        id: "e1".to_string(),
        subject: Some("Sync".to_string()),
        start: None,
        end: None,
        location: Some(Location { display_name: None }),
        attendees: None,
    };
    let out = render_event_detail(&e);
    assert_eq!(out, vec!["Subject: Sync".to_string()]);
}

#[test]
fn event_detail_full_render() {
    let e = CalendarEvent {
        id: "e1".to_string(),
        subject: None,
        start: Some(DateTimeTimeZone::new("2024-01-01T09:00:00", "UTC")),
        end: Some(DateTimeTimeZone::new("2024-01-01T10:00:00", "UTC")),
        location: Some(Location { display_name: Some("Room 5".to_string()) }),
        attendees: Some(vec![
            Attendee { email_address: EmailAddress { address: "p@x.com".to_string() } },
            Attendee { email_address: EmailAddress { address: "q@x.com".to_string() } },
        ]),
    };
    let out = render_event_detail(&e);
    assert_eq!(
        out,
        vec![
            "Subject: (no subject)".to_string(),
            "Start: 2024-01-01T09:00:00 (UTC)".to_string(),
            "End: 2024-01-01T10:00:00 (UTC)".to_string(),
            "Location: Room 5".to_string(),
            "Attendees:".to_string(),
            "  - p@x.com".to_string(),
            "  - q@x.com".to_string(),
        ]
    );
}

fn bare_contact(id: &str) -> Contact {
    Contact {
        id: id.to_string(),
        display_name: None,
        given_name: None,
        surname: None,
        email_addresses: None,
        mobile_phone: None,
        company_name: None,
        job_title: None,
    }
}

#[test]
fn contacts_list_empty_and_fallbacks() {
    let out = render_contacts(&vec![]);
    assert_eq!(out, vec!["No contacts".to_string()]);
    let mut c = bare_contact("c1");
    c.email_addresses = Some(vec![EmailEntry { address: None }]);
    let out = render_contacts(&vec![c]);
    assert_eq!(
        out,
        vec![
            "Contacts:".to_string(),
            "  (no name) - ".to_string(),
            "    ID: c1".to_string(),
        ]
    );
}

#[test]
fn contacts_list_shows_first_email() {
    let mut c = bare_contact("c2");
    c.display_name = Some("Jane Doe".to_string());
    c.email_addresses = Some(vec![
        EmailEntry { address: Some("jane@x.com".to_string()) },
        EmailEntry { address: Some("second@x.com".to_string()) },
    ]);
    let out = render_contacts(&vec![c]);
    assert_eq!(out[1], "  Jane Doe - jane@x.com".to_string());
}

#[test]
fn contact_detail_skips_absent_fields_and_addressless_entries() {
    let mut c = bare_contact("c1");
    c.given_name = Some("Jane".to_string());
    c.email_addresses = Some(vec![
        EmailEntry { address: None },
        EmailEntry { address: Some("jane@x.com".to_string()) },
    ]);
    c.company_name = Some("Acme".to_string());
    let out = render_contact_detail(&c);
    assert_eq!(
        out,
        vec![
            "Name: Jane ".to_string(),
            "Email: jane@x.com".to_string(),
            "Company: Acme".to_string(),
        ]
    );
}
