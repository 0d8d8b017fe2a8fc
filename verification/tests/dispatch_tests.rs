use outlook_cli::dispatch::{plan, render_output, Command, Request, Response};
use outlook_cli::domain::{BodyKind, EmailAddress, Message, Recipient};
use outlook_cli::{DEFAULT_CONTACT_LIMIT, DEFAULT_LIST_LIMIT};

fn msg(id: &str, from: &str, subject: &str, is_read: bool) -> Message {
    Message {
        id: id.to_string(),
        subject: Some(subject.to_string()),
        from: Some(Recipient { email_address: EmailAddress { address: from.to_string() } }),
        body: None,
        received_date_time: None,
        is_read: Some(is_read),
    }
}

#[test]
fn inbox_scenario_marks_unread_and_appends_legend() {
    let cmd = Command::Inbox { limit: 2 };
    match plan(Command::Inbox { limit: 2 }) {
        Request::Inbox { limit } => assert_eq!(limit, 2),
        _ => panic!("wrong operation"),
    }
    let resp = Response::Messages(vec![
        msg("m1", "a@x.com", "First", false),
        msg("m2", "b@x.com", "Second", true),
    ]);
    let out = render_output(&cmd, &resp).unwrap();
    assert_eq!(
        out,
        vec![
            " 1.* a@x.com - First".to_string(),
            "      ID: m1".to_string(),
            " 2.  b@x.com - Second".to_string(),
            "      ID: m2".to_string(),
            "".to_string(),
            "* = unread".to_string(),
        ]
    );
}

#[test]
fn send_scenario_builds_plain_text_payload_and_echoes_recipient() {
    let cmd = Command::Send {
        to: "to@example.com".to_string(),
        subject: "Hi".to_string(),
        body: "Hello".to_string(),
        html: false,
    };
    match plan(Command::Send {
        to: "to@example.com".to_string(),
        subject: "Hi".to_string(),
        body: "Hello".to_string(),
        html: false,
    }) {
        Request::SendMail { message } => {
            assert_eq!(message.to, "to@example.com".to_string());
            assert_eq!(message.subject, "Hi".to_string());
            assert_eq!(message.body.content, "Hello".to_string());
            assert!(message.body.content_type == BodyKind::Text);
        },
        _ => panic!("wrong operation"),
    }
    let out = render_output(&cmd, &Response::Done).unwrap();
    assert_eq!(out, vec!["Email sent to: to@example.com".to_string()]);
}

#[test]
fn send_with_html_flag_builds_html_payload() {
    match plan(Command::Send {
        to: "t@x.com".to_string(),
        subject: "s".to_string(),
        body: "<i>b</i>".to_string(),
        html: true,
    }) {
        Request::SendMail { message } => assert!(message.body.content_type == BodyKind::Html),
        _ => panic!("wrong operation"),
    }
}

#[test]
fn events_with_both_bounds_selects_ranged_listing() {
    match plan(Command::Events {
        limit: 5,
        start: Some("2024-01-01".to_string()),
        end: Some("2024-01-31".to_string()),
    }) {
        Request::ListEventsRange { start, end, limit } => {
            assert_eq!(start, "2024-01-01".to_string());
            assert_eq!(end, "2024-01-31".to_string());
            assert_eq!(limit, 5);
        },
        _ => panic!("ranged listing expected"),
    }
}

#[test]
fn events_with_one_bound_selects_plain_listing() {
    match plan(Command::Events {
        limit: DEFAULT_LIST_LIMIT,
        start: Some("2024-01-01".to_string()),
        end: None,
    }) {
        Request::ListEvents { limit } => assert_eq!(limit, 10),
        _ => panic!("plain listing expected"),
    }
}

#[test]
fn contacts_with_search_selects_search_operation() {
    match plan(Command::Contacts { limit: 20, search: Some("Jane".to_string()) }) {
        Request::SearchContacts { query, limit } => {
            assert_eq!(query, "Jane".to_string());
            assert_eq!(limit, 20);
        },
        _ => panic!("search expected"),
    }
    match plan(Command::Contacts { limit: DEFAULT_CONTACT_LIMIT, search: None }) {
        Request::ListContacts { limit } => assert_eq!(limit, 20),
        _ => panic!("plain listing expected"),
    }
}

#[test]
fn reply_all_flag_selects_reply_all() {
    match plan(Command::Reply { id: "m1".to_string(), message: "ok".to_string(), all: true }) {
        Request::ReplyAll { id, message } => {
            assert_eq!(id, "m1".to_string());
            assert_eq!(message, "ok".to_string());
        },
        _ => panic!("reply-all expected"),
    }
    match plan(Command::Reply { id: "m1".to_string(), message: "ok".to_string(), all: false }) {
        Request::Reply { .. } => {},
        _ => panic!("reply expected"),
    }
}

#[test]
fn forward_splits_recipients_but_echoes_raw_string() {
    let cmd = Command::Forward {
        id: "m9".to_string(),
        to: "a@x.com, b@x.com,c@x.com".to_string(),
        comment: None,
    };
    match plan(Command::Forward {
        id: "m9".to_string(),
        to: "a@x.com, b@x.com,c@x.com".to_string(),
        comment: None,
    }) {
        Request::Forward { id, recipients, comment } => {
            assert_eq!(id, "m9".to_string());
            assert_eq!(
                recipients,
                vec!["a@x.com".to_string(), "b@x.com".to_string(), "c@x.com".to_string()]
            );
            assert_eq!(comment, None);
        },
        _ => panic!("forward expected"),
    }
    let out = render_output(&cmd, &Response::Done).unwrap();
    assert_eq!(out, vec!["Forwarded to: a@x.com, b@x.com,c@x.com".to_string()]);
}

#[test]
fn create_draft_applies_only_supplied_fields() {
    match plan(Command::CreateDraft {
        subject: Some("s".to_string()),
        body: Some("b".to_string()),
        to: Some("x@y.z, w@y.z".to_string()),
        html: false,
    }) {
        Request::CreateDraft { draft } => {
            assert_eq!(draft.subject, Some("s".to_string()));
            let body = draft.body.unwrap();
            assert!(body.content_type == BodyKind::Text);
            assert_eq!(body.content, "b".to_string());
            assert_eq!(
                draft.recipients,
                Some(vec!["x@y.z".to_string(), "w@y.z".to_string()])
            );
        },
        _ => panic!("draft creation expected"),
    }
    match plan(Command::CreateDraft { subject: None, body: None, to: None, html: true }) {
        Request::CreateDraft { draft } => {
            assert_eq!(draft.subject, None);
            assert!(draft.body.is_none());
            assert_eq!(draft.recipients, None);
        },
        _ => panic!("draft creation expected"),
    }
}

#[test]
fn create_event_pairs_bounds_with_timezone_and_splits_attendees() {
    match plan(Command::CreateEvent {
        subject: "Review".to_string(),
        start: "2024-02-01T09:00:00".to_string(),
        end: "2024-02-01T10:00:00".to_string(),
        timezone: "Europe/Berlin".to_string(),
        location: Some("HQ".to_string()),
        attendees: Some("a@x.com ,b@x.com".to_string()),
        all_day: false,
        online: true,
    }) {
        Request::CreateEvent { event } => {
            assert_eq!(event.subject, "Review".to_string());
            assert_eq!(event.start.date_time, "2024-02-01T09:00:00".to_string());
            assert_eq!(event.start.time_zone, "Europe/Berlin".to_string());
            assert_eq!(event.end.time_zone, "Europe/Berlin".to_string());
            assert_eq!(event.location, Some("HQ".to_string()));
            assert_eq!(
                event.attendees,
                Some(vec!["a@x.com".to_string(), "b@x.com".to_string()])
            );
            assert!(!event.is_all_day);
            assert!(event.is_online_meeting);
        },
        _ => panic!("event creation expected"),
    }
}

#[test]
fn confirmation_lines_echo_supplied_ids() {
    let cases: Vec<(Command, &str)> = vec![
        (Command::MarkRead { id: "i1".to_string() }, "Marked as read: i1"),
        (Command::Delete { id: "i2".to_string() }, "Deleted: i2"),
        (Command::SendDraft { id: "i3".to_string() }, "Draft sent: i3"),
        (Command::DeleteEvent { id: "i4".to_string() }, "Event deleted: i4"),
        (Command::AcceptEvent { id: "i5".to_string(), comment: None }, "Event accepted: i5"),
        (
            Command::DeclineEvent { id: "i6".to_string(), comment: Some("busy".to_string()) },
            "Event declined: i6",
        ),
        (Command::DeleteContact { id: "i7".to_string() }, "Contact deleted: i7"),
    ];
    for (cmd, expected) in cases {
        let out = render_output(&cmd, &Response::Done).unwrap();
        assert_eq!(out, vec![expected.to_string()]);
    }
}

#[test]
fn created_ids_come_from_the_response() {
    let cmd = Command::CreateDraft { subject: None, body: None, to: None, html: false };
    let out = render_output(&cmd, &Response::Created("d-77".to_string())).unwrap();
    assert_eq!(out, vec!["Draft created: d-77".to_string()]);
}

#[test]
fn download_line_reports_bytes_and_path() {
    let cmd = Command::Download {
        email_id: "m".to_string(),
        attachment_id: "a".to_string(),
        output: "out.bin".to_string(),
    };
    let out = render_output(&cmd, &Response::Downloaded(2048)).unwrap();
    assert_eq!(out, vec!["Downloaded 2048 bytes to: out.bin".to_string()]);
}

#[test]
fn unread_count_line() {
    let out = render_output(&Command::UnreadCount, &Response::Count(3)).unwrap();
    assert_eq!(out, vec!["Unread messages: 3".to_string()]);
}

#[test]
fn empty_list_commands_render_their_sentences() {
    let empty = Response::Messages(vec![]);
    let out = render_output(&Command::Unread { limit: 10 }, &empty).unwrap();
    assert_eq!(out, vec!["No unread messages".to_string()]);
    let out = render_output(
        &Command::Search { query: "boots".to_string(), limit: 10 },
        &Response::Messages(vec![]),
    )
    .unwrap();
    assert_eq!(out, vec!["No messages found for: boots".to_string()]);
    let out = render_output(
        &Command::Poll { since: "2024-01-01T00:00:00Z".to_string(), limit: 10 },
        &Response::Messages(vec![]),
    )
    .unwrap();
    assert_eq!(out, vec!["No new messages since 2024-01-01T00:00:00Z".to_string()]);
    let out = render_output(&Command::Drafts { limit: 10 }, &Response::Messages(vec![])).unwrap();
    assert_eq!(out, vec!["No drafts".to_string()]);
    let out = render_output(&Command::Events { limit: 10, start: None, end: None }, &Response::Events(vec![])).unwrap();
    assert_eq!(out, vec!["No events".to_string()]);
    let out = render_output(&Command::Contacts { limit: 20, search: None }, &Response::Contacts(vec![])).unwrap();
    assert_eq!(out, vec!["No contacts".to_string()]);
    let out = render_output(&Command::Inbox { limit: 10 }, &Response::Messages(vec![])).unwrap();
    assert_eq!(out, vec!["(no messages)".to_string()]);
}

#[test]
fn poll_and_drafts_prepend_headers_when_nonempty() {
    let msgs = vec![msg("m1", "a@x.com", "s", true)];
    let out = render_output(
        &Command::Poll { since: "2024-01-01".to_string(), limit: 10 },
        &Response::Messages(msgs),
    )
    .unwrap();
    assert_eq!(out[0], "New messages since 2024-01-01:".to_string());
    assert_eq!(out[1], " 1.  a@x.com - s".to_string());
    let msgs = vec![msg("m1", "a@x.com", "s", true)];
    let out = render_output(&Command::Drafts { limit: 10 }, &Response::Messages(msgs)).unwrap();
    assert_eq!(out[0], "Drafts:".to_string());
}

#[test]
fn mismatched_response_shape_yields_none() {
    assert!(render_output(&Command::Inbox { limit: 1 }, &Response::Done).is_none());
    assert!(render_output(&Command::UnreadCount, &Response::Messages(vec![])).is_none());
}
