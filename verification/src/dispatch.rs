//! The command surface and the dispatcher. A `Command` is one parsed
//! invocation of the closed operation set; `plan` maps it to exactly one
//! client operation (a `Request`); `render_output` projects the operation's
//! `Response` into the command's terminal lines, confirmation lines echoing
//! the identifiers the user supplied.

use vstd::prelude::*;

use crate::builders::{
    contact_with_company, contact_with_email, contact_with_job_title, contact_with_mobile,
    draft_empty, draft_with_body_html, draft_with_body_text, draft_with_subject, draft_with_to,
    event_with_all_day, event_with_attendees, event_with_location, event_with_online,
    DraftMessage, DraftMessageView, NewCalendarEvent, NewCalendarEventView, NewContact,
    NewContactView, NewMessage, NewMessageView,
};
use crate::domain::{
    Attachment, AttachmentView, BodyKind, CalendarEvent, CalendarEventView, Contact, ContactView,
    DateTimeTimeZone, DateTimeTimeZoneView, Folder, FolderView, ItemBodyView, Message,
    MessageView, User, UserView,
};
use crate::render::{
    render_attachments, render_attachments_spec, render_contact_detail,
    render_contact_detail_spec, render_contacts, render_contacts_spec, render_event_detail,
    render_event_detail_spec, render_events, render_events_spec, render_folders,
    render_folders_spec, render_me, render_me_spec, render_message_detail,
    render_message_detail_spec, render_messages, render_messages_spec,
};
use crate::text::{dec_digits, split_and_trim, split_and_trim_spec, u64_to_string};

verus! {

// ---------------------------------------------------------------------------
// The command surface
// ---------------------------------------------------------------------------
/// One parsed invocation: the closed set of operations, each with its fixed
/// argument shape. Optional flags carry their documented defaults already
/// resolved by the argument layer.
#[derive(Clone)]
pub enum Command {
    Inbox { limit: u32 },
    Unread { limit: u32 },
    Search { query: String, limit: u32 },
    MarkRead { id: String },
    Folders,
    Me,
    Send { to: String, subject: String, body: String, html: bool },
    Reply { id: String, message: String, all: bool },
    Forward { id: String, to: String, comment: Option<String> },
    Delete { id: String },
    Get { id: String },
    Attachments { id: String },
    Download { email_id: String, attachment_id: String, output: String },
    Poll { since: String, limit: u32 },
    UnreadCount,
    Drafts { limit: u32 },
    CreateDraft { subject: Option<String>, body: Option<String>, to: Option<String>, html: bool },
    SendDraft { id: String },
    Events { limit: u32, start: Option<String>, end: Option<String> },
    Event { id: String },
    CreateEvent {
        subject: String,
        start: String,
        end: String,
        timezone: String,
        location: Option<String>,
        attendees: Option<String>,
        all_day: bool,
        online: bool,
    },
    DeleteEvent { id: String },
    AcceptEvent { id: String, comment: Option<String> },
    DeclineEvent { id: String, comment: Option<String> },
    Contacts { limit: u32, search: Option<String> },
    Contact { id: String },
    CreateContact {
        first_name: String,
        last_name: String,
        email: Option<String>,
        mobile: Option<String>,
        company: Option<String>,
        job_title: Option<String>,
    },
    DeleteContact { id: String },
}

/// Mathematical view of a parsed invocation.
pub enum CommandView {
    Inbox { limit: u32 },
    Unread { limit: u32 },
    Search { query: Seq<char>, limit: u32 },
    MarkRead { id: Seq<char> },
    Folders,
    Me,
    Send { to: Seq<char>, subject: Seq<char>, body: Seq<char>, html: bool },
    Reply { id: Seq<char>, message: Seq<char>, all: bool },
    Forward { id: Seq<char>, to: Seq<char>, comment: Option<Seq<char>> },
    Delete { id: Seq<char> },
    Get { id: Seq<char> },
    Attachments { id: Seq<char> },
    Download { email_id: Seq<char>, attachment_id: Seq<char>, output: Seq<char> },
    Poll { since: Seq<char>, limit: u32 },
    UnreadCount,
    Drafts { limit: u32 },
    CreateDraft {
        subject: Option<Seq<char>>,
        body: Option<Seq<char>>,
        to: Option<Seq<char>>,
        html: bool,
    },
    SendDraft { id: Seq<char> },
    Events { limit: u32, start: Option<Seq<char>>, end: Option<Seq<char>> },
    Event { id: Seq<char> },
    CreateEvent {
        subject: Seq<char>,
        start: Seq<char>,
        end: Seq<char>,
        timezone: Seq<char>,
        location: Option<Seq<char>>,
        attendees: Option<Seq<char>>,
        all_day: bool,
        online: bool,
    },
    DeleteEvent { id: Seq<char> },
    AcceptEvent { id: Seq<char>, comment: Option<Seq<char>> },
    DeclineEvent { id: Seq<char>, comment: Option<Seq<char>> },
    Contacts { limit: u32, search: Option<Seq<char>> },
    Contact { id: Seq<char> },
    CreateContact {
        first_name: Seq<char>,
        last_name: Seq<char>,
        email: Option<Seq<char>>,
        mobile: Option<Seq<char>>,
        company: Option<Seq<char>>,
        job_title: Option<Seq<char>>,
    },
    DeleteContact { id: Seq<char> },
}

impl View for Command {
    type V = CommandView;

    open spec fn view(&self) -> CommandView {
        match self {
            Command::Inbox { limit } => CommandView::Inbox { limit: *limit },
            Command::Unread { limit } => CommandView::Unread { limit: *limit },
            Command::Search { query, limit } => CommandView::Search {
                query: query@,
                limit: *limit,
            },
            Command::MarkRead { id } => CommandView::MarkRead { id: id@ },
            Command::Folders => CommandView::Folders,
            Command::Me => CommandView::Me,
            Command::Send { to, subject, body, html } => CommandView::Send {
                to: to@,
                subject: subject@,
                body: body@,
                html: *html,
            },
            Command::Reply { id, message, all } => CommandView::Reply {
                id: id@,
                message: message@,
                all: *all,
            },
            Command::Forward { id, to, comment } => CommandView::Forward {
                id: id@,
                to: to@,
                comment: comment.deep_view(),
            },
            Command::Delete { id } => CommandView::Delete { id: id@ },
            Command::Get { id } => CommandView::Get { id: id@ },
            Command::Attachments { id } => CommandView::Attachments { id: id@ },
            Command::Download { email_id, attachment_id, output } => CommandView::Download {
                email_id: email_id@,
                attachment_id: attachment_id@,
                output: output@,
            },
            Command::Poll { since, limit } => CommandView::Poll { since: since@, limit: *limit },
            Command::UnreadCount => CommandView::UnreadCount,
            Command::Drafts { limit } => CommandView::Drafts { limit: *limit },
            Command::CreateDraft { subject, body, to, html } => CommandView::CreateDraft {
                subject: subject.deep_view(),
                body: body.deep_view(),
                to: to.deep_view(),
                html: *html,
            },
            Command::SendDraft { id } => CommandView::SendDraft { id: id@ },
            Command::Events { limit, start, end } => CommandView::Events {
                limit: *limit,
                start: start.deep_view(),
                end: end.deep_view(),
            },
            Command::Event { id } => CommandView::Event { id: id@ },
            Command::CreateEvent {
                subject,
                start,
                end,
                timezone,
                location,
                attendees,
                all_day,
                online,
            } => CommandView::CreateEvent {
                subject: subject@,
                start: start@,
                end: end@,
                timezone: timezone@,
                location: location.deep_view(),
                attendees: attendees.deep_view(),
                all_day: *all_day,
                online: *online,
            },
            Command::DeleteEvent { id } => CommandView::DeleteEvent { id: id@ },
            Command::AcceptEvent { id, comment } => CommandView::AcceptEvent {
                id: id@,
                comment: comment.deep_view(),
            },
            Command::DeclineEvent { id, comment } => CommandView::DeclineEvent {
                id: id@,
                comment: comment.deep_view(),
            },
            Command::Contacts { limit, search } => CommandView::Contacts {
                limit: *limit,
                search: search.deep_view(),
            },
            Command::Contact { id } => CommandView::Contact { id: id@ },
            Command::CreateContact { first_name, last_name, email, mobile, company, job_title } =>
                CommandView::CreateContact {
                first_name: first_name@,
                last_name: last_name@,
                email: email.deep_view(),
                mobile: mobile.deep_view(),
                company: company.deep_view(),
                job_title: job_title.deep_view(),
            },
            Command::DeleteContact { id } => CommandView::DeleteContact { id: id@ },
        }
    }
}

// ---------------------------------------------------------------------------
// Client operations
// ---------------------------------------------------------------------------
/// Exactly one client operation with its fully built payload: what the
/// dispatcher hands to the client collaborator.
pub enum Request {
    Inbox { limit: u32 },
    Unread { limit: u32 },
    SearchBySubject { query: String, limit: u32 },
    MarkAsRead { id: String },
    ListFolders,
    GetMe,
    SendMail { message: NewMessage },
    Reply { id: String, message: String },
    ReplyAll { id: String, message: String },
    Forward { id: String, recipients: Vec<String>, comment: Option<String> },
    DeleteMessage { id: String },
    GetMessageWithBody { id: String },
    ListAttachments { id: String },
    DownloadAttachment { email_id: String, attachment_id: String, output: String },
    PollNewMessages { since: String, limit: u32 },
    UnreadCount,
    ListDrafts { limit: u32 },
    CreateDraft { draft: DraftMessage },
    SendDraft { id: String },
    ListEvents { limit: u32 },
    ListEventsRange { start: String, end: String, limit: u32 },
    GetEvent { id: String },
    CreateEvent { event: NewCalendarEvent },
    DeleteEvent { id: String },
    AcceptEvent { id: String, comment: Option<String> },
    DeclineEvent { id: String, comment: Option<String> },
    ListContacts { limit: u32 },
    SearchContacts { query: String, limit: u32 },
    GetContact { id: String },
    CreateContact { contact: NewContact },
    DeleteContact { id: String },
}

/// Mathematical view of a client operation.
pub enum RequestView {
    Inbox { limit: u32 },
    Unread { limit: u32 },
    SearchBySubject { query: Seq<char>, limit: u32 },
    MarkAsRead { id: Seq<char> },
    ListFolders,
    GetMe,
    SendMail { message: NewMessageView },
    Reply { id: Seq<char>, message: Seq<char> },
    ReplyAll { id: Seq<char>, message: Seq<char> },
    Forward { id: Seq<char>, recipients: Seq<Seq<char>>, comment: Option<Seq<char>> },
    DeleteMessage { id: Seq<char> },
    GetMessageWithBody { id: Seq<char> },
    ListAttachments { id: Seq<char> },
    DownloadAttachment { email_id: Seq<char>, attachment_id: Seq<char>, output: Seq<char> },
    PollNewMessages { since: Seq<char>, limit: u32 },
    UnreadCount,
    ListDrafts { limit: u32 },
    CreateDraft { draft: DraftMessageView },
    SendDraft { id: Seq<char> },
    ListEvents { limit: u32 },
    ListEventsRange { start: Seq<char>, end: Seq<char>, limit: u32 },
    GetEvent { id: Seq<char> },
    CreateEvent { event: NewCalendarEventView },
    DeleteEvent { id: Seq<char> },
    AcceptEvent { id: Seq<char>, comment: Option<Seq<char>> },
    DeclineEvent { id: Seq<char>, comment: Option<Seq<char>> },
    ListContacts { limit: u32 },
    SearchContacts { query: Seq<char>, limit: u32 },
    GetContact { id: Seq<char> },
    CreateContact { contact: NewContactView },
    DeleteContact { id: Seq<char> },
}

impl View for Request {
    type V = RequestView;

    open spec fn view(&self) -> RequestView {
        match self {
            Request::Inbox { limit } => RequestView::Inbox { limit: *limit },
            Request::Unread { limit } => RequestView::Unread { limit: *limit },
            Request::SearchBySubject { query, limit } => RequestView::SearchBySubject {
                query: query@,
                limit: *limit,
            },
            Request::MarkAsRead { id } => RequestView::MarkAsRead { id: id@ },
            Request::ListFolders => RequestView::ListFolders,
            Request::GetMe => RequestView::GetMe,
            Request::SendMail { message } => RequestView::SendMail { message: message@ },
            Request::Reply { id, message } => RequestView::Reply { id: id@, message: message@ },
            Request::ReplyAll { id, message } => RequestView::ReplyAll {
                id: id@,
                message: message@,
            },
            Request::Forward { id, recipients, comment } => RequestView::Forward {
                id: id@,
                recipients: recipients.deep_view(),
                comment: comment.deep_view(),
            },
            Request::DeleteMessage { id } => RequestView::DeleteMessage { id: id@ },
            Request::GetMessageWithBody { id } => RequestView::GetMessageWithBody { id: id@ },
            Request::ListAttachments { id } => RequestView::ListAttachments { id: id@ },
            Request::DownloadAttachment { email_id, attachment_id, output } =>
                RequestView::DownloadAttachment {
                email_id: email_id@,
                attachment_id: attachment_id@,
                output: output@,
            },
            Request::PollNewMessages { since, limit } => RequestView::PollNewMessages {
                since: since@,
                limit: *limit,
            },
            Request::UnreadCount => RequestView::UnreadCount,
            Request::ListDrafts { limit } => RequestView::ListDrafts { limit: *limit },
            Request::CreateDraft { draft } => RequestView::CreateDraft { draft: draft@ },
            Request::SendDraft { id } => RequestView::SendDraft { id: id@ },
            Request::ListEvents { limit } => RequestView::ListEvents { limit: *limit },
            Request::ListEventsRange { start, end, limit } => RequestView::ListEventsRange {
                start: start@,
                end: end@,
                limit: *limit,
            },
            Request::GetEvent { id } => RequestView::GetEvent { id: id@ },
            Request::CreateEvent { event } => RequestView::CreateEvent { event: event@ },
            Request::DeleteEvent { id } => RequestView::DeleteEvent { id: id@ },
            Request::AcceptEvent { id, comment } => RequestView::AcceptEvent {
                id: id@,
                comment: comment.deep_view(),
            },
            Request::DeclineEvent { id, comment } => RequestView::DeclineEvent {
                id: id@,
                comment: comment.deep_view(),
            },
            Request::ListContacts { limit } => RequestView::ListContacts { limit: *limit },
            Request::SearchContacts { query, limit } => RequestView::SearchContacts {
                query: query@,
                limit: *limit,
            },
            Request::GetContact { id } => RequestView::GetContact { id: id@ },
            Request::CreateContact { contact } => RequestView::CreateContact {
                contact: contact@,
            },
            Request::DeleteContact { id } => RequestView::DeleteContact { id: id@ },
        }
    }
}

// ---------------------------------------------------------------------------
// Responses
// ---------------------------------------------------------------------------
/// What the client operation returned, as plain values. A mutation without
/// a returned body is `Done`; creations carry the created id; a download
/// carries the number of bytes written.
pub enum Response {
    Messages(Vec<Message>),
    Done,
    Folders(Vec<Folder>),
    Profile(User),
    MessageDetail(Message),
    AttachmentList(Vec<Attachment>),
    Downloaded(u64),
    Count(u64),
    Created(String),
    Events(Vec<CalendarEvent>),
    EventDetail(CalendarEvent),
    Contacts(Vec<Contact>),
    ContactDetail(Contact),
}

/// Mathematical view of a response.
pub enum ResponseView {
    Messages(Seq<MessageView>),
    Done,
    Folders(Seq<FolderView>),
    Profile(UserView),
    MessageDetail(MessageView),
    AttachmentList(Seq<AttachmentView>),
    Downloaded(u64),
    Count(u64),
    Created(Seq<char>),
    Events(Seq<CalendarEventView>),
    EventDetail(CalendarEventView),
    Contacts(Seq<ContactView>),
    ContactDetail(ContactView),
}

impl View for Response {
    type V = ResponseView;

    open spec fn view(&self) -> ResponseView {
        match self {
            Response::Messages(v) => ResponseView::Messages(v.deep_view()),
            Response::Done => ResponseView::Done,
            Response::Folders(v) => ResponseView::Folders(v.deep_view()),
            Response::Profile(u) => ResponseView::Profile(u@),
            Response::MessageDetail(m) => ResponseView::MessageDetail(m@),
            Response::AttachmentList(v) => ResponseView::AttachmentList(v.deep_view()),
            Response::Downloaded(n) => ResponseView::Downloaded(*n),
            Response::Count(n) => ResponseView::Count(*n),
            Response::Created(id) => ResponseView::Created(id@),
            Response::Events(v) => ResponseView::Events(v.deep_view()),
            Response::EventDetail(e) => ResponseView::EventDetail(e@),
            Response::Contacts(v) => ResponseView::Contacts(v.deep_view()),
            Response::ContactDetail(c) => ResponseView::ContactDetail(c@),
        }
    }
}

// ---------------------------------------------------------------------------
// Planning: one command, one client operation
// ---------------------------------------------------------------------------
/// The draft payload assembled from the draft-creation arguments: each
/// supplied field applied once, the body as HTML only when the flag is set,
/// the recipient list split at commas and trimmed.
pub open spec fn draft_from_args(
    subject: Option<Seq<char>>,
    body: Option<Seq<char>>,
    to: Option<Seq<char>>,
    html: bool,
) -> DraftMessageView {
    let d0 = draft_empty();
    let d1 = match subject {
        Some(s) => draft_with_subject(d0, s),
        None => d0,
    };
    let d2 = match body {
        Some(b) => if html {
            draft_with_body_html(d1, b)
        } else {
            draft_with_body_text(d1, b)
        },
        None => d1,
    };
    match to {
        Some(t) => draft_with_to(d2, split_and_trim_spec(t)),
        None => d2,
    }
}

/// The event payload assembled from the event-creation arguments: start and
/// end each paired with the one supplied timezone, then the optional
/// amendments in their fixed order.
pub open spec fn event_from_args(
    subject: Seq<char>,
    start: Seq<char>,
    end: Seq<char>,
    timezone: Seq<char>,
    location: Option<Seq<char>>,
    attendees: Option<Seq<char>>,
    all_day: bool,
    online: bool,
) -> NewCalendarEventView {
    let e0 = NewCalendarEventView {
        subject,
        start: DateTimeTimeZoneView { date_time: start, time_zone: timezone },
        end: DateTimeTimeZoneView { date_time: end, time_zone: timezone },
        location: None,
        attendees: None,
        is_all_day: false,
        is_online_meeting: false,
    };
    let e1 = match location {
        Some(l) => event_with_location(e0, l),
        None => e0,
    };
    let e2 = match attendees {
        Some(a) => event_with_attendees(e1, split_and_trim_spec(a)),
        None => e1,
    };
    let e3 = if all_day {
        event_with_all_day(e2)
    } else {
        e2
    };
    if online {
        event_with_online(e3)
    } else {
        e3
    }
}

/// The contact payload assembled from the contact-creation arguments.
pub open spec fn contact_from_args(
    first_name: Seq<char>,
    last_name: Seq<char>,
    email: Option<Seq<char>>,
    mobile: Option<Seq<char>>,
    company: Option<Seq<char>>,
    job_title: Option<Seq<char>>,
) -> NewContactView {
    let c0 = NewContactView {
        given_name: first_name,
        surname: last_name,
        email: None,
        mobile: None,
        company: None,
        job_title: None,
    };
    let c1 = match email {
        Some(v) => contact_with_email(c0, v),
        None => c0,
    };
    let c2 = match mobile {
        Some(v) => contact_with_mobile(c1, v),
        None => c1,
    };
    let c3 = match company {
        Some(v) => contact_with_company(c2, v),
        None => c2,
    };
    match job_title {
        Some(v) => contact_with_job_title(c3, v),
        None => c3,
    }
}

/// The one client operation that each command maps to. Range-bounded event
/// listing is chosen exactly when both bounds are supplied; contact search
/// is chosen exactly when a search text is supplied; reply-all and the HTML
/// body are chosen by their flags; comma-separated lists are split and
/// trimmed.
pub open spec fn plan_spec(c: CommandView) -> RequestView {
    match c {
        CommandView::Inbox { limit } => RequestView::Inbox { limit },
        CommandView::Unread { limit } => RequestView::Unread { limit },
        CommandView::Search { query, limit } => RequestView::SearchBySubject { query, limit },
        CommandView::MarkRead { id } => RequestView::MarkAsRead { id },
        CommandView::Folders => RequestView::ListFolders,
        CommandView::Me => RequestView::GetMe,
        CommandView::Send { to, subject, body, html } => RequestView::SendMail {
            message: NewMessageView {
                to,
                subject,
                body: ItemBodyView {
                    content_type: if html {
                        BodyKind::Html
                    } else {
                        BodyKind::Text
                    },
                    content: body,
                },
            },
        },
        CommandView::Reply { id, message, all } => if all {
            RequestView::ReplyAll { id, message }
        } else {
            RequestView::Reply { id, message }
        },
        CommandView::Forward { id, to, comment } => RequestView::Forward {
            id,
            recipients: split_and_trim_spec(to),
            comment,
        },
        CommandView::Delete { id } => RequestView::DeleteMessage { id },
        CommandView::Get { id } => RequestView::GetMessageWithBody { id },
        CommandView::Attachments { id } => RequestView::ListAttachments { id },
        CommandView::Download { email_id, attachment_id, output } =>
            RequestView::DownloadAttachment { email_id, attachment_id, output },
        CommandView::Poll { since, limit } => RequestView::PollNewMessages { since, limit },
        CommandView::UnreadCount => RequestView::UnreadCount,
        CommandView::Drafts { limit } => RequestView::ListDrafts { limit },
        CommandView::CreateDraft { subject, body, to, html } => RequestView::CreateDraft {
            draft: draft_from_args(subject, body, to, html),
        },
        CommandView::SendDraft { id } => RequestView::SendDraft { id },
        CommandView::Events { limit, start, end } => match (start, end) {
            (Some(s), Some(e)) => RequestView::ListEventsRange { start: s, end: e, limit },
            _ => RequestView::ListEvents { limit },
        },
        CommandView::Event { id } => RequestView::GetEvent { id },
        CommandView::CreateEvent {
            subject,
            start,
            end,
            timezone,
            location,
            attendees,
            all_day,
            online,
        } => RequestView::CreateEvent {
            event: event_from_args(
                subject,
                start,
                end,
                timezone,
                location,
                attendees,
                all_day,
                online,
            ),
        },
        CommandView::DeleteEvent { id } => RequestView::DeleteEvent { id },
        CommandView::AcceptEvent { id, comment } => RequestView::AcceptEvent { id, comment },
        CommandView::DeclineEvent { id, comment } => RequestView::DeclineEvent { id, comment },
        CommandView::Contacts { limit, search } => match search {
            Some(q) => RequestView::SearchContacts { query: q, limit },
            None => RequestView::ListContacts { limit },
        },
        CommandView::Contact { id } => RequestView::GetContact { id },
        CommandView::CreateContact { first_name, last_name, email, mobile, company, job_title } =>
            RequestView::CreateContact {
            contact: contact_from_args(first_name, last_name, email, mobile, company, job_title),
        },
        CommandView::DeleteContact { id } => RequestView::DeleteContact { id },
    }
}

/// Maps a command to its one client operation, building the full payload.
pub fn plan(cmd: Command) -> (req: Request)
    ensures
        req@ == plan_spec(cmd@),
{
    match cmd {
        Command::Inbox { limit } => Request::Inbox { limit },
        Command::Unread { limit } => Request::Unread { limit },
        Command::Search { query, limit } => Request::SearchBySubject { query, limit },
        Command::MarkRead { id } => Request::MarkAsRead { id },
        Command::Folders => Request::ListFolders,
        Command::Me => Request::GetMe,
        Command::Send { to, subject, body, html } => {
            let message = if html {
                NewMessage::html(to.as_str(), subject.as_str(), body.as_str())
            } else {
                NewMessage::text(to.as_str(), subject.as_str(), body.as_str())
            };
            Request::SendMail { message }
        },
        Command::Reply { id, message, all } => {
            if all {
                Request::ReplyAll { id, message }
            } else {
                Request::Reply { id, message }
            }
        },
        Command::Forward { id, to, comment } => {
            let recipients = split_and_trim(to.as_str());
            Request::Forward { id, recipients, comment }
        },
        Command::Delete { id } => Request::DeleteMessage { id },
        Command::Get { id } => Request::GetMessageWithBody { id },
        Command::Attachments { id } => Request::ListAttachments { id },
        Command::Download { email_id, attachment_id, output } => Request::DownloadAttachment {
            email_id,
            attachment_id,
            output,
        },
        Command::Poll { since, limit } => Request::PollNewMessages { since, limit },
        Command::UnreadCount => Request::UnreadCount,
        Command::Drafts { limit } => Request::ListDrafts { limit },
        Command::CreateDraft { subject, body, to, html } => {
            let mut draft = DraftMessage::new();
            match subject {
                Some(s) => {
                    draft = draft.subject(s);
                },
                None => {},
            }
            match body {
                Some(b) => {
                    if html {
                        draft = draft.body_html(b);
                    } else {
                        draft = draft.body_text(b);
                    }
                },
                None => {},
            }
            match to {
                Some(t) => {
                    draft = draft.to(split_and_trim(t.as_str()));
                },
                None => {},
            }
            Request::CreateDraft { draft }
        },
        Command::SendDraft { id } => Request::SendDraft { id },
        Command::Events { limit, start, end } => {
            match (start, end) {
                (Some(s), Some(e)) => Request::ListEventsRange { start: s, end: e, limit },
                _ => Request::ListEvents { limit },
            }
        },
        Command::Event { id } => Request::GetEvent { id },
        Command::CreateEvent {
            subject,
            start,
            end,
            timezone,
            location,
            attendees,
            all_day,
            online,
        } => {
            let start_dt = DateTimeTimeZone::new(start.as_str(), timezone.as_str());
            let end_dt = DateTimeTimeZone::new(end.as_str(), timezone.as_str());
            let mut event = NewCalendarEvent::new(subject.as_str(), start_dt, end_dt);
            match location {
                Some(l) => {
                    event = event.location(l);
                },
                None => {},
            }
            match attendees {
                Some(a) => {
                    event = event.attendees(split_and_trim(a.as_str()));
                },
                None => {},
            }
            if all_day {
                event = event.all_day();
            }
            if online {
                event = event.online_meeting();
            }
            Request::CreateEvent { event }
        },
        Command::DeleteEvent { id } => Request::DeleteEvent { id },
        Command::AcceptEvent { id, comment } => Request::AcceptEvent { id, comment },
        Command::DeclineEvent { id, comment } => Request::DeclineEvent { id, comment },
        Command::Contacts { limit, search } => {
            match search {
                Some(q) => Request::SearchContacts { query: q, limit },
                None => Request::ListContacts { limit },
            }
        },
        Command::Contact { id } => Request::GetContact { id },
        Command::CreateContact { first_name, last_name, email, mobile, company, job_title } => {
            let mut contact = NewContact::new(first_name.as_str(), last_name.as_str());
            match email {
                Some(v) => {
                    contact = contact.email(v);
                },
                None => {},
            }
            match mobile {
                Some(v) => {
                    contact = contact.mobile(v);
                },
                None => {},
            }
            match company {
                Some(v) => {
                    contact = contact.company(v);
                },
                None => {},
            }
            match job_title {
                Some(v) => {
                    contact = contact.job_title(v);
                },
                None => {},
            }
            Request::CreateContact { contact }
        },
        Command::DeleteContact { id } => Request::DeleteContact { id },
    }
}

// ---------------------------------------------------------------------------
// Rendering the response of a command
// ---------------------------------------------------------------------------
/// Whether a response has the shape that the command's one client
/// operation returns.
pub open spec fn response_matches(c: CommandView, r: ResponseView) -> bool {
    match c {
        CommandView::Inbox { .. } => r is Messages,
        CommandView::Unread { .. } => r is Messages,
        CommandView::Search { .. } => r is Messages,
        CommandView::MarkRead { .. } => r is Done,
        CommandView::Folders => r is Folders,
        CommandView::Me => r is Profile,
        CommandView::Send { .. } => r is Done,
        CommandView::Reply { .. } => r is Done,
        CommandView::Forward { .. } => r is Done,
        CommandView::Delete { .. } => r is Done,
        CommandView::Get { .. } => r is MessageDetail,
        CommandView::Attachments { .. } => r is AttachmentList,
        CommandView::Download { .. } => r is Downloaded,
        CommandView::Poll { .. } => r is Messages,
        CommandView::UnreadCount => r is Count,
        CommandView::Drafts { .. } => r is Messages,
        CommandView::CreateDraft { .. } => r is Created,
        CommandView::SendDraft { .. } => r is Done,
        CommandView::Events { .. } => r is Events,
        CommandView::Event { .. } => r is EventDetail,
        CommandView::CreateEvent { .. } => r is Created,
        CommandView::DeleteEvent { .. } => r is Done,
        CommandView::AcceptEvent { .. } => r is Done,
        CommandView::DeclineEvent { .. } => r is Done,
        CommandView::Contacts { .. } => r is Contacts,
        CommandView::Contact { .. } => r is ContactDetail,
        CommandView::CreateContact { .. } => r is Created,
        CommandView::DeleteContact { .. } => r is Done,
    }
}

/// The exact terminal lines of a command's outcome: list renders with
/// their per-command empty-state sentences, detail renders, and one-line
/// confirmations that echo the identifier the user supplied.
pub open spec fn output_spec(c: CommandView, r: ResponseView) -> Seq<Seq<char>> {
    match c {
        CommandView::Inbox { .. } => render_messages_spec(r->Messages_0),
        CommandView::Unread { .. } => if r->Messages_0.len() == 0 {
            seq!["No unread messages"@]
        } else {
            render_messages_spec(r->Messages_0)
        },
        CommandView::Search { query, .. } => if r->Messages_0.len() == 0 {
            seq!["No messages found for: "@ + query]
        } else {
            render_messages_spec(r->Messages_0)
        },
        CommandView::MarkRead { id } => seq!["Marked as read: "@ + id],
        CommandView::Folders => render_folders_spec(r->Folders_0),
        CommandView::Me => render_me_spec(r->Profile_0),
        CommandView::Send { to, .. } => seq!["Email sent to: "@ + to],
        CommandView::Reply { id, all, .. } => if all {
            seq!["Replied all to: "@ + id]
        } else {
            seq!["Replied to: "@ + id]
        },
        CommandView::Forward { to, .. } => seq!["Forwarded to: "@ + to],
        CommandView::Delete { id } => seq!["Deleted: "@ + id],
        CommandView::Get { .. } => render_message_detail_spec(r->MessageDetail_0),
        CommandView::Attachments { .. } => render_attachments_spec(r->AttachmentList_0),
        CommandView::Download { output, .. } => seq![
            "Downloaded "@ + dec_digits(r->Downloaded_0 as nat) + " bytes to: "@ + output,
        ],
        CommandView::Poll { since, .. } => if r->Messages_0.len() == 0 {
            seq!["No new messages since "@ + since]
        } else {
            seq!["New messages since "@ + since + ":"@] + render_messages_spec(r->Messages_0)
        },
        CommandView::UnreadCount => seq!["Unread messages: "@ + dec_digits(r->Count_0 as nat)],
        CommandView::Drafts { .. } => if r->Messages_0.len() == 0 {
            seq!["No drafts"@]
        } else {
            seq!["Drafts:"@] + render_messages_spec(r->Messages_0)
        },
        CommandView::CreateDraft { .. } => seq!["Draft created: "@ + r->Created_0],
        CommandView::SendDraft { id } => seq!["Draft sent: "@ + id],
        CommandView::Events { .. } => render_events_spec(r->Events_0),
        CommandView::Event { .. } => render_event_detail_spec(r->EventDetail_0),
        CommandView::CreateEvent { .. } => seq!["Event created: "@ + r->Created_0],
        CommandView::DeleteEvent { id } => seq!["Event deleted: "@ + id],
        CommandView::AcceptEvent { id, .. } => seq!["Event accepted: "@ + id],
        CommandView::DeclineEvent { id, .. } => seq!["Event declined: "@ + id],
        CommandView::Contacts { .. } => render_contacts_spec(r->Contacts_0),
        CommandView::Contact { .. } => render_contact_detail_spec(r->ContactDetail_0),
        CommandView::CreateContact { .. } => seq!["Contact created: "@ + r->Created_0],
        CommandView::DeleteContact { id } => seq!["Contact deleted: "@ + id],
    }
}

/// Whether a command returns a list of items and so owns a fixed
/// empty-state sentence.
pub open spec fn is_list_command(c: CommandView) -> bool {
    c is Inbox || c is Unread || c is Search || c is Poll || c is Drafts || c is Attachments
        || c is Events || c is Contacts
}

/// Whether a response carries a list with zero items.
pub open spec fn response_list_empty(r: ResponseView) -> bool {
    match r {
        ResponseView::Messages(v) => v.len() == 0,
        ResponseView::AttachmentList(v) => v.len() == 0,
        ResponseView::Events(v) => v.len() == 0,
        ResponseView::Contacts(v) => v.len() == 0,
        _ => false,
    }
}

/// The fixed empty-state sentence of a list-returning command; for the
/// search and poll commands it echoes the user-supplied argument.
pub open spec fn empty_sentence(c: CommandView) -> Seq<char> {
    match c {
        CommandView::Inbox { .. } => "(no messages)"@,
        CommandView::Unread { .. } => "No unread messages"@,
        CommandView::Search { query, .. } => "No messages found for: "@ + query,
        CommandView::Poll { since, .. } => "No new messages since "@ + since,
        CommandView::Drafts { .. } => "No drafts"@,
        CommandView::Attachments { .. } => "No attachments"@,
        CommandView::Events { .. } => "No events"@,
        CommandView::Contacts { .. } => "No contacts"@,
        _ => ""@,
    }
}

/// A list-returning command with zero results outputs its fixed
/// empty-state sentence and nothing else.
pub proof fn lemma_empty_list_output(c: CommandView, r: ResponseView)
    requires
        is_list_command(c),
        response_matches(c, r),
        response_list_empty(r),
    ensures
        output_spec(c, r) == seq![empty_sentence(c)],
{
}

fn concat2(a: &str, b: &str) -> (s: String)
    ensures
        s@ == a@ + b@,
{
    let mut s = String::from_str(a);
    s.append(b);
    s
}

fn single_line(a: &str) -> (out: Vec<String>)
    ensures
        out.deep_view() =~= seq![a@],
{
    let mut out: Vec<String> = Vec::new();
    out.push(String::from_str(a));
    proof {
        assert(out.deep_view() =~= seq![a@]);
    }
    out
}

fn one_line(a: &str, b: &str) -> (out: Vec<String>)
    ensures
        out.deep_view() =~= seq![a@ + b@],
{
    let mut out: Vec<String> = Vec::new();
    out.push(concat2(a, b));
    proof {
        assert(out.deep_view() =~= seq![a@ + b@]);
    }
    out
}

/// Projects a command's response into its exact terminal lines; `None` if
/// and only if the response is not the shape the command's operation
/// returns.
pub fn render_output(cmd: &Command, resp: &Response) -> (out: Option<Vec<String>>)
    ensures
        match out {
            Some(lines) => response_matches(cmd@, resp@) && lines.deep_view() == output_spec(
                cmd@,
                resp@,
            ),
            None => !response_matches(cmd@, resp@),
        },
{
    match (cmd, resp) {
        (Command::Inbox { .. }, Response::Messages(msgs)) => Some(render_messages(msgs)),
        (Command::Unread { .. }, Response::Messages(msgs)) => {
            if msgs.len() == 0 {
                Some(single_line("No unread messages"))
            } else {
                Some(render_messages(msgs))
            }
        },
        (Command::Search { query, .. }, Response::Messages(msgs)) => {
            if msgs.len() == 0 {
                Some(one_line("No messages found for: ", query.as_str()))
            } else {
                Some(render_messages(msgs))
            }
        },
        (Command::MarkRead { id }, Response::Done) => Some(one_line("Marked as read: ", id.as_str())),
        (Command::Folders, Response::Folders(fs)) => Some(render_folders(fs)),
        (Command::Me, Response::Profile(u)) => Some(render_me(u)),
        (Command::Send { to, .. }, Response::Done) => Some(one_line("Email sent to: ", to.as_str())),
        (Command::Reply { id, all, .. }, Response::Done) => {
            if *all {
                Some(one_line("Replied all to: ", id.as_str()))
            } else {
                Some(one_line("Replied to: ", id.as_str()))
            }
        },
        (Command::Forward { to, .. }, Response::Done) => Some(one_line("Forwarded to: ", to.as_str())),
        (Command::Delete { id }, Response::Done) => Some(one_line("Deleted: ", id.as_str())),
        (Command::Get { .. }, Response::MessageDetail(m)) => Some(render_message_detail(m)),
        (Command::Attachments { .. }, Response::AttachmentList(ats)) => Some(
            render_attachments(ats),
        ),
        (Command::Download { output, .. }, Response::Downloaded(n)) => {
            let mut line = String::from_str("Downloaded ");
            line.append(u64_to_string(*n).as_str());
            line.append(" bytes to: ");
            line.append(output.as_str());
            let mut out: Vec<String> = Vec::new();
            out.push(line);
            proof {
                assert(out.deep_view() =~= output_spec(cmd@, resp@));
            }
            Some(out)
        },
        (Command::Poll { since, .. }, Response::Messages(msgs)) => {
            if msgs.len() == 0 {
                Some(one_line("No new messages since ", since.as_str()))
            } else {
                let mut out: Vec<String> = Vec::new();
                let mut head = String::from_str("New messages since ");
                head.append(since.as_str());
                head.append(":");
                out.push(head);
                let mut rest = render_messages(msgs);
                let ghost rest_view = rest.deep_view();
                out.append(&mut rest);
                proof {
                    assert(out.deep_view() =~= seq![
                        "New messages since "@ + since@ + ":"@,
                    ] + rest_view);
                    assert(out.deep_view() =~= output_spec(cmd@, resp@));
                }
                Some(out)
            }
        },
        (Command::UnreadCount, Response::Count(n)) => {
            let mut line = String::from_str("Unread messages: ");
            line.append(u64_to_string(*n).as_str());
            let mut out: Vec<String> = Vec::new();
            out.push(line);
            proof {
                assert(out.deep_view() =~= output_spec(cmd@, resp@));
            }
            Some(out)
        },
        (Command::Drafts { .. }, Response::Messages(msgs)) => {
            if msgs.len() == 0 {
                Some(single_line("No drafts"))
            } else {
                let mut out: Vec<String> = Vec::new();
                out.push(String::from_str("Drafts:"));
                let mut rest = render_messages(msgs);
                let ghost rest_view = rest.deep_view();
                out.append(&mut rest);
                proof {
                    assert(out.deep_view() =~= seq!["Drafts:"@] + rest_view);
                    assert(out.deep_view() =~= output_spec(cmd@, resp@));
                }
                Some(out)
            }
        },
        (Command::CreateDraft { .. }, Response::Created(id)) => Some(
            one_line("Draft created: ", id.as_str()),
        ),
        (Command::SendDraft { id }, Response::Done) => Some(one_line("Draft sent: ", id.as_str())),
        (Command::Events { .. }, Response::Events(es)) => Some(render_events(es)),
        (Command::Event { .. }, Response::EventDetail(e)) => Some(render_event_detail(e)),
        (Command::CreateEvent { .. }, Response::Created(id)) => Some(
            one_line("Event created: ", id.as_str()),
        ),
        (Command::DeleteEvent { id }, Response::Done) => Some(
            one_line("Event deleted: ", id.as_str()),
        ),
        (Command::AcceptEvent { id, .. }, Response::Done) => Some(
            one_line("Event accepted: ", id.as_str()),
        ),
        (Command::DeclineEvent { id, .. }, Response::Done) => Some(
            one_line("Event declined: ", id.as_str()),
        ),
        (Command::Contacts { .. }, Response::Contacts(cs)) => Some(render_contacts(cs)),
        (Command::Contact { .. }, Response::ContactDetail(c)) => Some(render_contact_detail(c)),
        (Command::CreateContact { .. }, Response::Created(id)) => Some(
            one_line("Contact created: ", id.as_str()),
        ),
        (Command::DeleteContact { id }, Response::Done) => Some(
            one_line("Contact deleted: ", id.as_str()),
        ),
        _ => None,
    }
}

} // verus!
