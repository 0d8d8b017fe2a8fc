//! Deterministic text projection of response values. Every function returns
//! the exact list of output lines; an absent optional field either yields no
//! line at all or the documented fallback token, and a list with zero items
//! yields the fixed empty-state sentence of its command and nothing else.

use vstd::prelude::*;

use crate::domain::{
    Attachment, AttachmentView, CalendarEvent, CalendarEventView, Contact, ContactView, Folder,
    FolderView, Message, MessageView, User, UserView,
};
use crate::text::{dec_digits, u64_to_string};

verus! {

/// An optional field, or its fallback token where it is absent.
pub open spec fn opt_or(o: Option<Seq<char>>, fallback: Seq<char>) -> Seq<char> {
    match o {
        Some(s) => s,
        None => fallback,
    }
}

fn opt_str<'a>(o: &'a Option<String>, fallback: &'a str) -> (r: &'a str)
    ensures
        r@ == opt_or(o.deep_view(), fallback@),
{
    match o {
        Some(s) => s.as_str(),
        None => fallback,
    }
}

/// An index as the message list shows it: right-aligned to two columns.
pub open spec fn pad2(n: nat) -> Seq<char> {
    if n < 10 {
        " "@ + dec_digits(n)
    } else {
        dec_digits(n)
    }
}

fn pad2_exec(n: u64) -> (s: String)
    ensures
        s@ == pad2(n as nat),
{
    if n < 10 {
        let mut s = String::from_str(" ");
        s.append(u64_to_string(n).as_str());
        proof {
            assert(s@ =~= pad2(n as nat));
        }
        s
    } else {
        u64_to_string(n)
    }
}

// ---------------------------------------------------------------------------
// Message lists
// ---------------------------------------------------------------------------
/// The unread-marker column: a space for a read message, `*` otherwise
/// (an absent read flag counts as unread).
pub open spec fn message_mark(m: MessageView) -> Seq<char> {
    if m.is_read == Some(true) {
        " "@
    } else {
        "*"@
    }
}

/// The sender column: the address, or "unknown".
pub open spec fn message_from(m: MessageView) -> Seq<char> {
    opt_or(m.from, "unknown"@)
}

/// The subject column: the subject, or "(no subject)".
pub open spec fn message_subject(m: MessageView) -> Seq<char> {
    opt_or(m.subject, "(no subject)"@)
}

/// The headline of the list entry at zero-based position `i`.
pub open spec fn message_line(i: nat, m: MessageView) -> Seq<char> {
    pad2(i + 1) + "."@ + message_mark(m) + " "@ + message_from(m) + " - "@ + message_subject(m)
}

/// The indented id line under a list entry.
pub open spec fn message_id_line(m: MessageView) -> Seq<char> {
    "      ID: "@ + m.id
}

/// The first `n` entries of a message list, two lines each.
pub open spec fn message_lines_upto(msgs: Seq<MessageView>, n: int) -> Seq<Seq<char>>
    decreases n,
{
    if n <= 0 {
        Seq::<Seq<char>>::empty()
    } else {
        message_lines_upto(msgs, n - 1) + seq![
            message_line((n - 1) as nat, msgs[n - 1]),
            message_id_line(msgs[n - 1]),
        ]
    }
}

/// A rendered message list: "(no messages)" alone when empty, otherwise two
/// lines per entry followed by a blank line and one "* = unread" legend.
pub open spec fn render_messages_spec(msgs: Seq<MessageView>) -> Seq<Seq<char>> {
    if msgs.len() == 0 {
        seq!["(no messages)"@]
    } else {
        message_lines_upto(msgs, msgs.len() as int) + seq![""@, "* = unread"@]
    }
}

fn message_line_exec(i: usize, m: &Message) -> (s: String)
    requires
        i < usize::MAX,
    ensures
        s@ == message_line(i as nat, m@),
{
    let mut s = pad2_exec((i + 1) as u64);
    s.append(".");
    let read = match m.is_read {
        Some(b) => b,
        None => false,
    };
    s.append(if read { " " } else { "*" });
    s.append(" ");
    let from = match &m.from {
        Some(r) => r.email_address.address.as_str(),
        None => "unknown",
    };
    s.append(from);
    s.append(" - ");
    s.append(opt_str(&m.subject, "(no subject)"));
    proof {
        assert(s@ =~= message_line(i as nat, m@));
    }
    s
}

fn message_id_line_exec(m: &Message) -> (s: String)
    ensures
        s@ == message_id_line(m@),
{
    let mut s = String::from_str("      ID: ");
    s.append(m.id.as_str());
    proof {
        assert(s@ =~= message_id_line(m@));
    }
    s
}

/// Renders a message list exactly as the terminal shows it.
pub fn render_messages(msgs: &Vec<Message>) -> (out: Vec<String>)
    ensures
        out.deep_view() == render_messages_spec(msgs.deep_view()),
{
    let mut out: Vec<String> = Vec::new();
    if msgs.len() == 0 {
        out.push(String::from_str("(no messages)"));
        proof {
            assert(out.deep_view() =~= render_messages_spec(msgs.deep_view()));
        }
        return out;
    }
    let mut i: usize = 0;
    while i < msgs.len()
        invariant
            0 <= i <= msgs@.len(),
            out.deep_view() =~= message_lines_upto(msgs.deep_view(), i as int),
        decreases msgs@.len() - i,
    {
        out.push(message_line_exec(i, &msgs[i]));
        out.push(message_id_line_exec(&msgs[i]));
        proof {
            assert(out.deep_view() =~= message_lines_upto(msgs.deep_view(), i + 1));
        }
        i = i + 1;
    }
    out.push(String::from_str(""));
    out.push(String::from_str("* = unread"));
    proof {
        assert(out.deep_view() =~= render_messages_spec(msgs.deep_view()));
    }
    out
}

proof fn lemma_message_lines_upto_len(msgs: Seq<MessageView>, n: int)
    requires
        0 <= n,
    ensures
        message_lines_upto(msgs, n).len() == 2 * n,
    decreases n,
{
    if n > 0 {
        lemma_message_lines_upto_len(msgs, n - 1);
    }
}

proof fn lemma_message_lines_upto_index(msgs: Seq<MessageView>, n: int, i: int)
    requires
        0 <= i < n,
    ensures
        message_lines_upto(msgs, n)[2 * i] == message_line(i as nat, msgs[i]),
        message_lines_upto(msgs, n)[2 * i + 1] == message_id_line(msgs[i]),
    decreases n,
{
    lemma_message_lines_upto_len(msgs, n - 1);
    if i < n - 1 {
        lemma_message_lines_upto_index(msgs, n - 1, i);
    }
}

/// Index numbering of a rendered message list is strictly 1..N in input
/// order: entry `i` stands at lines `2i` and `2i+1`, and its headline
/// begins with the index `i + 1` and a dot, whatever the read/unread mix
/// or any other optional field holds.
pub proof fn lemma_message_list_indexing(msgs: Seq<MessageView>, i: int)
    requires
        0 <= i < msgs.len(),
    ensures
        render_messages_spec(msgs)[2 * i] == message_line(i as nat, msgs[i]),
        render_messages_spec(msgs)[2 * i + 1] == message_id_line(msgs[i]),
        (pad2((i + 1) as nat) + "."@).is_prefix_of(render_messages_spec(msgs)[2 * i]),
{
    lemma_message_lines_upto_len(msgs, msgs.len() as int);
    lemma_message_lines_upto_index(msgs, msgs.len() as int, i);
    let full = message_lines_upto(msgs, msgs.len() as int);
    assert(render_messages_spec(msgs)[2 * i] == full[2 * i]);
    assert(render_messages_spec(msgs)[2 * i + 1] == full[2 * i + 1]);
    let p = pad2((i + 1) as nat) + "."@;
    let line = message_line(i as nat, msgs[i]);
    assert(p.is_prefix_of(line)) by {
        assert(p =~= line.subrange(0, p.len() as int));
    }
}

// ---------------------------------------------------------------------------
// Folders
// ---------------------------------------------------------------------------
/// The parenthesised unread note of a folder line; empty when the unread
/// count is absent or zero.
pub open spec fn folder_unread_part(f: FolderView) -> Seq<char> {
    match f.unread_item_count {
        Some(u) => if u > 0 {
            " ("@ + dec_digits(u as nat) + " unread)"@
        } else {
            ""@
        },
        None => ""@,
    }
}

/// One folder line: name, total item count (absent counts as 0), unread note.
pub open spec fn folder_line(f: FolderView) -> Seq<char> {
    "  "@ + f.display_name + " - "@ + dec_digits(
        match f.total_item_count {
            Some(t) => t as nat,
            None => 0,
        },
    ) + " items"@ + folder_unread_part(f)
}

/// The first `n` folder lines.
pub open spec fn folder_lines_upto(fs: Seq<FolderView>, n: int) -> Seq<Seq<char>>
    decreases n,
{
    if n <= 0 {
        Seq::<Seq<char>>::empty()
    } else {
        folder_lines_upto(fs, n - 1) + seq![folder_line(fs[n - 1])]
    }
}

/// A rendered folder list: a fixed header, a blank line, then one line per
/// folder (no empty-state special case).
pub open spec fn render_folders_spec(fs: Seq<FolderView>) -> Seq<Seq<char>> {
    seq!["Mail Folders:"@, ""@] + folder_lines_upto(fs, fs.len() as int)
}

fn folder_line_exec(f: &Folder) -> (s: String)
    ensures
        s@ == folder_line(f@),
{
    let mut s = String::from_str("  ");
    s.append(f.display_name.as_str());
    s.append(" - ");
    let total = match f.total_item_count {
        Some(t) => t,
        None => 0,
    };
    s.append(u64_to_string(total).as_str());
    s.append(" items");
    let unread = match f.unread_item_count {
        Some(u) => u,
        None => 0,
    };
    if f.unread_item_count.is_some() && unread > 0 {
        s.append(" (");
        s.append(u64_to_string(unread).as_str());
        s.append(" unread)");
    }
    proof {
        reveal_strlit("");
        assert(s@ =~= folder_line(f@));
    }
    s
}

/// Renders the folder list exactly as the terminal shows it.
pub fn render_folders(fs: &Vec<Folder>) -> (out: Vec<String>)
    ensures
        out.deep_view() == render_folders_spec(fs.deep_view()),
{
    let mut out: Vec<String> = Vec::new();
    out.push(String::from_str("Mail Folders:"));
    out.push(String::from_str(""));
    let mut i: usize = 0;
    while i < fs.len()
        invariant
            0 <= i <= fs@.len(),
            out.deep_view() =~= seq!["Mail Folders:"@, ""@] + folder_lines_upto(
                fs.deep_view(),
                i as int,
            ),
        decreases fs@.len() - i,
    {
        let ghost pre = out.deep_view();
        out.push(folder_line_exec(&fs[i]));
        proof {
            assert(out.deep_view() =~= pre.push(folder_line(fs.deep_view()[i as int])));
            assert(folder_lines_upto(fs.deep_view(), i + 1) =~= folder_lines_upto(
                fs.deep_view(),
                i as int,
            ) + seq![folder_line(fs.deep_view()[i as int])]);
            assert(out.deep_view() =~= seq!["Mail Folders:"@, ""@] + folder_lines_upto(
                fs.deep_view(),
                i + 1,
            ));
        }
        i = i + 1;
    }
    out
}

// ---------------------------------------------------------------------------
// Account profile
// ---------------------------------------------------------------------------
/// A rendered account profile: name and mail, absent fields as empty text.
pub open spec fn render_me_spec(u: UserView) -> Seq<Seq<char>> {
    seq!["User: "@ + opt_or(u.display_name, ""@), "Email: "@ + opt_or(u.mail, ""@)]
}

/// Renders the account profile exactly as the terminal shows it.
pub fn render_me(u: &User) -> (out: Vec<String>)
    ensures
        out.deep_view() == render_me_spec(u@),
{
    let mut out: Vec<String> = Vec::new();
    let mut l1 = String::from_str("User: ");
    l1.append(opt_str(&u.display_name, ""));
    out.push(l1);
    let mut l2 = String::from_str("Email: ");
    l2.append(opt_str(&u.mail, ""));
    out.push(l2);
    proof {
        assert(out.deep_view() =~= render_me_spec(u@));
    }
    out
}

// ---------------------------------------------------------------------------
// Message detail
// ---------------------------------------------------------------------------
/// A rendered message detail: subject, sender, date and read-state lines
/// with their fallback tokens, a blank line, then the body content if and
/// only if a body is present.
pub open spec fn render_message_detail_spec(m: MessageView) -> Seq<Seq<char>> {
    seq![
        "Subject: "@ + message_subject(m),
        "From: "@ + message_from(m),
        "Date: "@ + opt_or(m.received_date_time, ""@),
        "Read: "@ + if m.is_read == Some(true) {
            "Yes"@
        } else {
            "No"@
        },
        ""@,
    ] + match m.body {
        Some(b) => seq![b.content],
        None => Seq::<Seq<char>>::empty(),
    }
}

/// Renders one message's details exactly as the terminal shows them.
pub fn render_message_detail(m: &Message) -> (out: Vec<String>)
    ensures
        out.deep_view() == render_message_detail_spec(m@),
{
    let mut out: Vec<String> = Vec::new();
    let mut l1 = String::from_str("Subject: ");
    l1.append(opt_str(&m.subject, "(no subject)"));
    out.push(l1);
    let mut l2 = String::from_str("From: ");
    let from = match &m.from {
        Some(r) => r.email_address.address.as_str(),
        None => "unknown",
    };
    l2.append(from);
    out.push(l2);
    let mut l3 = String::from_str("Date: ");
    l3.append(opt_str(&m.received_date_time, ""));
    out.push(l3);
    let read = match m.is_read {
        Some(b) => b,
        None => false,
    };
    let mut l4 = String::from_str("Read: ");
    l4.append(if read { "Yes" } else { "No" });
    out.push(l4);
    out.push(String::from_str(""));
    match &m.body {
        Some(b) => {
            out.push(b.content.clone());
        },
        None => {},
    }
    proof {
        assert(out.deep_view() =~= render_message_detail_spec(m@));
    }
    out
}

// ---------------------------------------------------------------------------
// Attachments
// ---------------------------------------------------------------------------
/// The parenthesised size note of an attachment line; empty when the size
/// is absent.
pub open spec fn attachment_size_part(a: AttachmentView) -> Seq<char> {
    match a.size {
        Some(s) => " ("@ + dec_digits(s as nat) + " bytes)"@,
        None => ""@,
    }
}

/// One attachment line: id, name and optional size note.
pub open spec fn attachment_line(a: AttachmentView) -> Seq<char> {
    "  "@ + a.id + " - "@ + a.name + attachment_size_part(a)
}

/// The first `n` attachment lines.
pub open spec fn attachment_lines_upto(ats: Seq<AttachmentView>, n: int) -> Seq<Seq<char>>
    decreases n,
{
    if n <= 0 {
        Seq::<Seq<char>>::empty()
    } else {
        attachment_lines_upto(ats, n - 1) + seq![attachment_line(ats[n - 1])]
    }
}

/// A rendered attachment list: "No attachments" alone when empty, otherwise
/// a header and one line per attachment.
pub open spec fn render_attachments_spec(ats: Seq<AttachmentView>) -> Seq<Seq<char>> {
    if ats.len() == 0 {
        seq!["No attachments"@]
    } else {
        seq!["Attachments:"@] + attachment_lines_upto(ats, ats.len() as int)
    }
}

fn attachment_line_exec(a: &Attachment) -> (s: String)
    ensures
        s@ == attachment_line(a@),
{
    let mut s = String::from_str("  ");
    s.append(a.id.as_str());
    s.append(" - ");
    s.append(a.name.as_str());
    match a.size {
        Some(sz) => {
            s.append(" (");
            s.append(u64_to_string(sz).as_str());
            s.append(" bytes)");
        },
        None => {},
    }
    proof {
        reveal_strlit("");
        assert(s@ =~= attachment_line(a@));
    }
    s
}

/// Renders an attachment list exactly as the terminal shows it.
pub fn render_attachments(ats: &Vec<Attachment>) -> (out: Vec<String>)
    ensures
        out.deep_view() == render_attachments_spec(ats.deep_view()),
{
    let mut out: Vec<String> = Vec::new();
    if ats.len() == 0 {
        out.push(String::from_str("No attachments"));
        proof {
            assert(out.deep_view() =~= render_attachments_spec(ats.deep_view()));
        }
        return out;
    }
    out.push(String::from_str("Attachments:"));
    let mut i: usize = 0;
    while i < ats.len()
        invariant
            0 <= i <= ats@.len(),
            out.deep_view() =~= seq!["Attachments:"@] + attachment_lines_upto(
                ats.deep_view(),
                i as int,
            ),
        decreases ats@.len() - i,
    {
        let ghost pre = out.deep_view();
        out.push(attachment_line_exec(&ats[i]));
        proof {
            assert(out.deep_view() =~= pre.push(attachment_line(ats.deep_view()[i as int])));
            assert(attachment_lines_upto(ats.deep_view(), i + 1) =~= attachment_lines_upto(
                ats.deep_view(),
                i as int,
            ) + seq![attachment_line(ats.deep_view()[i as int])]);
            assert(out.deep_view() =~= seq!["Attachments:"@] + attachment_lines_upto(
                ats.deep_view(),
                i + 1,
            ));
        }
        i = i + 1;
    }
    proof {
        assert(out.deep_view() =~= render_attachments_spec(ats.deep_view()));
    }
    out
}

// ---------------------------------------------------------------------------
// Event lists
// ---------------------------------------------------------------------------
/// One event list entry's headline: start timestamp (or "?") and subject.
pub open spec fn event_line(e: CalendarEventView) -> Seq<char> {
    "  "@ + (match e.start {
        Some(d) => d.date_time,
        None => "?"@,
    }) + " - "@ + opt_or(e.subject, "(no subject)"@)
}

/// The indented id line under an event list entry.
pub open spec fn event_id_line(e: CalendarEventView) -> Seq<char> {
    "    ID: "@ + e.id
}

/// The first `n` event list entries, two lines each.
pub open spec fn event_lines_upto(es: Seq<CalendarEventView>, n: int) -> Seq<Seq<char>>
    decreases n,
{
    if n <= 0 {
        Seq::<Seq<char>>::empty()
    } else {
        event_lines_upto(es, n - 1) + seq![event_line(es[n - 1]), event_id_line(es[n - 1])]
    }
}

/// A rendered event list: "No events" alone when empty, otherwise a header
/// and two lines per event.
pub open spec fn render_events_spec(es: Seq<CalendarEventView>) -> Seq<Seq<char>> {
    if es.len() == 0 {
        seq!["No events"@]
    } else {
        seq!["Calendar Events:"@] + event_lines_upto(es, es.len() as int)
    }
}

fn event_line_exec(e: &CalendarEvent) -> (s: String)
    ensures
        s@ == event_line(e@),
{
    let mut s = String::from_str("  ");
    let start = match &e.start {
        Some(d) => d.date_time.as_str(),
        None => "?",
    };
    s.append(start);
    s.append(" - ");
    s.append(opt_str(&e.subject, "(no subject)"));
    proof {
        assert(s@ =~= event_line(e@));
    }
    s
}

/// Renders an event list exactly as the terminal shows it.
pub fn render_events(es: &Vec<CalendarEvent>) -> (out: Vec<String>)
    ensures
        out.deep_view() == render_events_spec(es.deep_view()),
{
    let mut out: Vec<String> = Vec::new();
    if es.len() == 0 {
        out.push(String::from_str("No events"));
        proof {
            assert(out.deep_view() =~= render_events_spec(es.deep_view()));
        }
        return out;
    }
    out.push(String::from_str("Calendar Events:"));
    let mut i: usize = 0;
    while i < es.len()
        invariant
            0 <= i <= es@.len(),
            out.deep_view() =~= seq!["Calendar Events:"@] + event_lines_upto(
                es.deep_view(),
                i as int,
            ),
        decreases es@.len() - i,
    {
        let ghost pre = out.deep_view();
        out.push(event_line_exec(&es[i]));
        let mut idl = String::from_str("    ID: ");
        idl.append(es[i].id.as_str());
        out.push(idl);
        proof {
            assert(out.deep_view() =~= pre + seq![
                event_line(es.deep_view()[i as int]),
                event_id_line(es.deep_view()[i as int]),
            ]);
            assert(event_lines_upto(es.deep_view(), i + 1) =~= event_lines_upto(
                es.deep_view(),
                i as int,
            ) + seq![event_line(es.deep_view()[i as int]), event_id_line(es.deep_view()[i as int])]);
            assert(out.deep_view() =~= seq!["Calendar Events:"@] + event_lines_upto(
                es.deep_view(),
                i + 1,
            ));
        }
        i = i + 1;
    }
    proof {
        assert(out.deep_view() =~= render_events_spec(es.deep_view()));
    }
    out
}

// ---------------------------------------------------------------------------
// Event detail
// ---------------------------------------------------------------------------
/// The attendee lines of an event detail, one per attendee.
pub open spec fn attendee_lines_upto(ats: Seq<Seq<char>>, n: int) -> Seq<Seq<char>>
    decreases n,
{
    if n <= 0 {
        Seq::<Seq<char>>::empty()
    } else {
        attendee_lines_upto(ats, n - 1) + seq!["  - "@ + ats[n - 1]]
    }
}

/// A rendered event detail: the subject line always; start, end, location
/// and attendee lines only for fields that are present. A present location
/// whose display name is absent yields no line.
pub open spec fn render_event_detail_spec(e: CalendarEventView) -> Seq<Seq<char>> {
    seq!["Subject: "@ + opt_or(e.subject, "(no subject)"@)] + (match e.start {
        Some(d) => seq!["Start: "@ + d.date_time + " ("@ + d.time_zone + ")"@],
        None => Seq::<Seq<char>>::empty(),
    }) + (match e.end {
        Some(d) => seq!["End: "@ + d.date_time + " ("@ + d.time_zone + ")"@],
        None => Seq::<Seq<char>>::empty(),
    }) + (match e.location {
        Some(l) => match l {
            Some(name) => seq!["Location: "@ + name],
            None => Seq::<Seq<char>>::empty(),
        },
        None => Seq::<Seq<char>>::empty(),
    }) + (match e.attendees {
        Some(ats) => seq!["Attendees:"@] + attendee_lines_upto(ats, ats.len() as int),
        None => Seq::<Seq<char>>::empty(),
    })
}

/// Renders one event's details exactly as the terminal shows them.
pub fn render_event_detail(e: &CalendarEvent) -> (out: Vec<String>)
    ensures
        out.deep_view() == render_event_detail_spec(e@),
{
    let ghost head = seq!["Subject: "@ + opt_or(e@.subject, "(no subject)"@)] + (match e@.start {
        Some(d) => seq!["Start: "@ + d.date_time + " ("@ + d.time_zone + ")"@],
        None => Seq::<Seq<char>>::empty(),
    }) + (match e@.end {
        Some(d) => seq!["End: "@ + d.date_time + " ("@ + d.time_zone + ")"@],
        None => Seq::<Seq<char>>::empty(),
    }) + (match e@.location {
        Some(l) => match l {
            Some(name) => seq!["Location: "@ + name],
            None => Seq::<Seq<char>>::empty(),
        },
        None => Seq::<Seq<char>>::empty(),
    });
    let mut out: Vec<String> = Vec::new();
    let mut l1 = String::from_str("Subject: ");
    l1.append(opt_str(&e.subject, "(no subject)"));
    out.push(l1);
    match &e.start {
        Some(d) => {
            let mut l = String::from_str("Start: ");
            l.append(d.date_time.as_str());
            l.append(" (");
            l.append(d.time_zone.as_str());
            l.append(")");
            out.push(l);
        },
        None => {},
    }
    match &e.end {
        Some(d) => {
            let mut l = String::from_str("End: ");
            l.append(d.date_time.as_str());
            l.append(" (");
            l.append(d.time_zone.as_str());
            l.append(")");
            out.push(l);
        },
        None => {},
    }
    match &e.location {
        Some(loc) => {
            match &loc.display_name {
                Some(name) => {
                    let mut l = String::from_str("Location: ");
                    l.append(name.as_str());
                    out.push(l);
                },
                None => {},
            }
        },
        None => {},
    }
    proof {
        assert(out.deep_view() =~= head);
    }
    match &e.attendees {
        Some(ats) => {
            out.push(String::from_str("Attendees:"));
            let mut i: usize = 0;
            while i < ats.len()
                invariant
                    0 <= i <= ats@.len(),
                    e@.attendees == Some(ats.deep_view()),
                    out.deep_view() =~= head + seq!["Attendees:"@] + attendee_lines_upto(
                        ats.deep_view(),
                        i as int,
                    ),
                decreases ats@.len() - i,
            {
                let ghost pre = out.deep_view();
                let mut l = String::from_str("  - ");
                l.append(ats[i].email_address.address.as_str());
                out.push(l);
                proof {
                    assert(out.deep_view() =~= pre.push("  - "@ + ats.deep_view()[i as int]));
                    assert(attendee_lines_upto(ats.deep_view(), i + 1) =~= attendee_lines_upto(
                        ats.deep_view(),
                        i as int,
                    ) + seq!["  - "@ + ats.deep_view()[i as int]]);
                    assert(out.deep_view() =~= head + seq!["Attendees:"@] + attendee_lines_upto(
                        ats.deep_view(),
                        i + 1,
                    ));
                }
                i = i + 1;
            }
            proof {
                assert(out.deep_view() =~= render_event_detail_spec(e@));
            }
        },
        None => {
            proof {
                assert(out.deep_view() =~= render_event_detail_spec(e@));
            }
        },
    }
    out
}

proof fn lemma_attendee_lines_len(ats: Seq<Seq<char>>, n: int)
    requires
        0 <= n,
    ensures
        attendee_lines_upto(ats, n).len() == n,
    decreases n,
{
    if n > 0 {
        lemma_attendee_lines_len(ats, n - 1);
    }
}

/// In an event detail, an absent optional field produces no line for that
/// field: the render holds exactly the subject line, one line per present
/// timestamp, one line for a present location name, and a header plus one
/// line per attendee when an attendee list is present.
pub proof fn lemma_event_detail_line_count(e: CalendarEventView)
    ensures
        render_event_detail_spec(e).len() == 1 + (if e.start is Some {
            1int
        } else {
            0int
        }) + (if e.end is Some {
            1int
        } else {
            0int
        }) + (match e.location {
            Some(l) => if l is Some {
                1int
            } else {
                0int
            },
            None => 0int,
        }) + (match e.attendees {
            Some(ats) => 1int + ats.len() as int,
            None => 0int,
        }),
{
    match e.attendees {
        Some(ats) => {
            lemma_attendee_lines_len(ats, ats.len() as int);
        },
        None => {},
    }
}

// ---------------------------------------------------------------------------
// Contact lists
// ---------------------------------------------------------------------------
/// The email column of a contact list entry: the first entry's address, or
/// empty text when there is no entry or its address is absent.
pub open spec fn contact_first_email(c: ContactView) -> Seq<char> {
    match c.email_addresses {
        Some(es) => if es.len() > 0 {
            opt_or(es[0], ""@)
        } else {
            ""@
        },
        None => ""@,
    }
}

/// One contact list entry's headline: display name (or "(no name)") and
/// first email address.
pub open spec fn contact_line(c: ContactView) -> Seq<char> {
    "  "@ + opt_or(c.display_name, "(no name)"@) + " - "@ + contact_first_email(c)
}

/// The indented id line under a contact list entry.
pub open spec fn contact_id_line(c: ContactView) -> Seq<char> {
    "    ID: "@ + c.id
}

/// The first `n` contact list entries, two lines each.
pub open spec fn contact_lines_upto(cs: Seq<ContactView>, n: int) -> Seq<Seq<char>>
    decreases n,
{
    if n <= 0 {
        Seq::<Seq<char>>::empty()
    } else {
        contact_lines_upto(cs, n - 1) + seq![contact_line(cs[n - 1]), contact_id_line(cs[n - 1])]
    }
}

/// A rendered contact list: "No contacts" alone when empty, otherwise a
/// header and two lines per contact.
pub open spec fn render_contacts_spec(cs: Seq<ContactView>) -> Seq<Seq<char>> {
    if cs.len() == 0 {
        seq!["No contacts"@]
    } else {
        seq!["Contacts:"@] + contact_lines_upto(cs, cs.len() as int)
    }
}

fn contact_line_exec(c: &Contact) -> (s: String)
    ensures
        s@ == contact_line(c@),
{
    let mut s = String::from_str("  ");
    s.append(opt_str(&c.display_name, "(no name)"));
    s.append(" - ");
    match &c.email_addresses {
        Some(es) => {
            if es.len() > 0 {
                s.append(opt_str(&es[0].address, ""));
            }
        },
        None => {},
    }
    proof {
        reveal_strlit("");
        assert(s@ =~= contact_line(c@));
    }
    s
}

/// Renders a contact list exactly as the terminal shows it.
pub fn render_contacts(cs: &Vec<Contact>) -> (out: Vec<String>)
    ensures
        out.deep_view() == render_contacts_spec(cs.deep_view()),
{
    let mut out: Vec<String> = Vec::new();
    if cs.len() == 0 {
        out.push(String::from_str("No contacts"));
        proof {
            assert(out.deep_view() =~= render_contacts_spec(cs.deep_view()));
        }
        return out;
    }
    out.push(String::from_str("Contacts:"));
    let mut i: usize = 0;
    while i < cs.len()
        invariant
            0 <= i <= cs@.len(),
            out.deep_view() =~= seq!["Contacts:"@] + contact_lines_upto(
                cs.deep_view(),
                i as int,
            ),
        decreases cs@.len() - i,
    {
        let ghost pre = out.deep_view();
        out.push(contact_line_exec(&cs[i]));
        let mut idl = String::from_str("    ID: ");
        idl.append(cs[i].id.as_str());
        out.push(idl);
        proof {
            assert(out.deep_view() =~= pre + seq![
                contact_line(cs.deep_view()[i as int]),
                contact_id_line(cs.deep_view()[i as int]),
            ]);
            assert(contact_lines_upto(cs.deep_view(), i + 1) =~= contact_lines_upto(
                cs.deep_view(),
                i as int,
            ) + seq![
                contact_line(cs.deep_view()[i as int]),
                contact_id_line(cs.deep_view()[i as int]),
            ]);
            assert(out.deep_view() =~= seq!["Contacts:"@] + contact_lines_upto(
                cs.deep_view(),
                i + 1,
            ));
        }
        i = i + 1;
    }
    proof {
        assert(out.deep_view() =~= render_contacts_spec(cs.deep_view()));
    }
    out
}

// ---------------------------------------------------------------------------
// Contact detail
// ---------------------------------------------------------------------------
/// The email lines of a contact detail: one line per entry whose address is
/// present; an entry without an address yields no line.
pub open spec fn contact_email_lines_upto(es: Seq<Option<Seq<char>>>, n: int) -> Seq<Seq<char>>
    decreases n,
{
    if n <= 0 {
        Seq::<Seq<char>>::empty()
    } else {
        contact_email_lines_upto(es, n - 1) + (match es[n - 1] {
            Some(a) => seq!["Email: "@ + a],
            None => Seq::<Seq<char>>::empty(),
        })
    }
}

/// An optional labelled line: present fields get one line, absent fields
/// get none.
pub open spec fn labelled_opt_line(label: Seq<char>, o: Option<Seq<char>>) -> Seq<Seq<char>> {
    match o {
        Some(v) => seq![label + v],
        None => Seq::<Seq<char>>::empty(),
    }
}

/// A rendered contact detail: the name line always (absent names as empty
/// text), then email, mobile, company and title lines only for fields that
/// are present.
pub open spec fn render_contact_detail_spec(c: ContactView) -> Seq<Seq<char>> {
    seq!["Name: "@ + opt_or(c.given_name, ""@) + " "@ + opt_or(c.surname, ""@)] + (match c
        .email_addresses {
        Some(es) => contact_email_lines_upto(es, es.len() as int),
        None => Seq::<Seq<char>>::empty(),
    }) + labelled_opt_line("Mobile: "@, c.mobile_phone) + labelled_opt_line(
        "Company: "@,
        c.company_name,
    ) + labelled_opt_line("Title: "@, c.job_title)
}

/// The number of email entries whose address is present among the first
/// `n` entries of a contact's email list.
pub open spec fn present_email_count(es: Seq<Option<Seq<char>>>, n: int) -> int
    decreases n,
{
    if n <= 0 {
        0
    } else {
        present_email_count(es, n - 1) + (if es[n - 1] is Some {
            1int
        } else {
            0int
        })
    }
}

proof fn lemma_contact_email_lines_len(es: Seq<Option<Seq<char>>>, n: int)
    requires
        0 <= n,
    ensures
        contact_email_lines_upto(es, n).len() == present_email_count(es, n),
        0 <= present_email_count(es, n),
    decreases n,
{
    if n > 0 {
        lemma_contact_email_lines_len(es, n - 1);
    }
}

/// In a contact detail, an absent optional field produces no line for that
/// field: the render holds exactly the name line, one line per email entry
/// whose address is present (an entry whose address is absent yields no
/// line), and one line for each present phone, company and title field.
pub proof fn lemma_contact_detail_line_count(c: ContactView)
    ensures
        render_contact_detail_spec(c).len() == 1 + (match c.email_addresses {
            Some(es) => present_email_count(es, es.len() as int),
            None => 0int,
        }) + (if c.mobile_phone is Some {
            1int
        } else {
            0int
        }) + (if c.company_name is Some {
            1int
        } else {
            0int
        }) + (if c.job_title is Some {
            1int
        } else {
            0int
        }),
{
    match c.email_addresses {
        Some(es) => {
            lemma_contact_email_lines_len(es, es.len() as int);
        },
        None => {},
    }
}

/// A present-but-empty leaf renders its documented fallback token, never a
/// blank or a literal "None": an absent subject shows "(no subject)", an
/// absent sender shows "unknown", and a message detail holds a body line
/// exactly when a body is present.
pub proof fn lemma_detail_fallback_tokens(m: MessageView)
    ensures
        m.subject is None ==> render_message_detail_spec(m)[0] == "Subject: "@ + "(no subject)"@,
        m.from is None ==> render_message_detail_spec(m)[1] == "From: "@ + "unknown"@,
        m.is_read is None ==> render_message_detail_spec(m)[3] == "Read: "@ + "No"@,
        render_message_detail_spec(m).len() == if m.body is Some {
            6int
        } else {
            5int
        },
{
}

/// Renders one contact's details exactly as the terminal shows them.
pub fn render_contact_detail(c: &Contact) -> (out: Vec<String>)
    ensures
        out.deep_view() == render_contact_detail_spec(c@),
{
    let ghost head = seq!["Name: "@ + opt_or(c@.given_name, ""@) + " "@ + opt_or(c@.surname, ""@)];
    let mut out: Vec<String> = Vec::new();
    let mut l1 = String::from_str("Name: ");
    l1.append(opt_str(&c.given_name, ""));
    l1.append(" ");
    l1.append(opt_str(&c.surname, ""));
    out.push(l1);
    proof {
        assert(out.deep_view() =~= head);
    }
    match &c.email_addresses {
        Some(es) => {
            let mut i: usize = 0;
            while i < es.len()
                invariant
                    0 <= i <= es@.len(),
                    c@.email_addresses == Some(es.deep_view()),
                    out.deep_view() =~= head + contact_email_lines_upto(es.deep_view(), i as int),
                decreases es@.len() - i,
            {
                let ghost pre = out.deep_view();
                match &es[i].address {
                    Some(addr) => {
                        let mut l = String::from_str("Email: ");
                        l.append(addr.as_str());
                        out.push(l);
                        proof {
                            assert(out.deep_view() =~= pre.push(
                                "Email: "@ + es.deep_view()[i as int]->0,
                            ));
                        }
                    },
                    None => {},
                }
                proof {
                    assert(contact_email_lines_upto(es.deep_view(), i + 1)
                        =~= contact_email_lines_upto(es.deep_view(), i as int) + (
                    match es.deep_view()[i as int] {
                        Some(a) => seq!["Email: "@ + a],
                        None => Seq::<Seq<char>>::empty(),
                    }));
                    assert(out.deep_view() =~= head + contact_email_lines_upto(
                        es.deep_view(),
                        i + 1,
                    ));
                }
                i = i + 1;
            }
        },
        None => {},
    }
    let ghost head2 = head + (match c@.email_addresses {
        Some(es) => contact_email_lines_upto(es, es.len() as int),
        None => Seq::<Seq<char>>::empty(),
    });
    proof {
        assert(out.deep_view() =~= head2);
    }
    match &c.mobile_phone {
        Some(m) => {
            let mut l = String::from_str("Mobile: ");
            l.append(m.as_str());
            out.push(l);
        },
        None => {},
    }
    match &c.company_name {
        Some(m) => {
            let mut l = String::from_str("Company: ");
            l.append(m.as_str());
            out.push(l);
        },
        None => {},
    }
    match &c.job_title {
        Some(m) => {
            let mut l = String::from_str("Title: ");
            l.append(m.as_str());
            out.push(l);
        },
        None => {},
    }
    proof {
        assert(out.deep_view() =~= render_contact_detail_spec(c@));
    }
    out
}

} // verus!
