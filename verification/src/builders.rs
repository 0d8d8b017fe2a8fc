//! Request builders: accumulators that assemble an outgoing payload from
//! independently optional fields. Each setter overwrites its own field and
//! leaves every other field alone, so the last write wins and the order of
//! distinct setters never matters; the proof functions at the end state both
//! laws over the builders' views.

use vstd::prelude::*;

use crate::domain::{BodyKind, ItemBody, ItemBodyView};

verus! {

// ---------------------------------------------------------------------------
// NewMessage
// ---------------------------------------------------------------------------
/// An outgoing mail payload: recipient, subject and body, with the body
/// representation chosen once at construction.
pub struct NewMessage {
    pub to: String,
    pub subject: String,
    pub body: ItemBody,
}

/// Mathematical view of an outgoing mail payload.
pub struct NewMessageView {
    pub to: Seq<char>,
    pub subject: Seq<char>,
    pub body: ItemBodyView,
}

impl View for NewMessage {
    type V = NewMessageView;

    open spec fn view(&self) -> NewMessageView {
        NewMessageView { to: self.to@, subject: self.subject@, body: self.body@ }
    }
}

impl NewMessage {
    /// A plain-text message to one recipient.
    pub fn text(to: &str, subject: &str, body: &str) -> (m: Self)
        ensures
            m@ == (NewMessageView {
                to: to@,
                subject: subject@,
                body: ItemBodyView { content_type: BodyKind::Text, content: body@ },
            }),
    {
        NewMessage {
            to: to.to_owned(),
            subject: subject.to_owned(),
            body: ItemBody { content_type: BodyKind::Text, content: body.to_owned() },
        }
    }

    /// An HTML message to one recipient.
    pub fn html(to: &str, subject: &str, body: &str) -> (m: Self)
        ensures
            m@ == (NewMessageView {
                to: to@,
                subject: subject@,
                body: ItemBodyView { content_type: BodyKind::Html, content: body@ },
            }),
    {
        NewMessage {
            to: to.to_owned(),
            subject: subject.to_owned(),
            body: ItemBody { content_type: BodyKind::Html, content: body.to_owned() },
        }
    }
}

// ---------------------------------------------------------------------------
// DraftMessage
// ---------------------------------------------------------------------------
/// A draft payload under construction. Every field is independently
/// optional; a draft with nothing set is a valid construction.
pub struct DraftMessage {
    pub subject: Option<String>,
    pub body: Option<ItemBody>,
    pub recipients: Option<Vec<String>>,
}

/// Mathematical view of a draft payload.
pub struct DraftMessageView {
    pub subject: Option<Seq<char>>,
    pub body: Option<ItemBodyView>,
    pub recipients: Option<Seq<Seq<char>>>,
}

impl View for DraftMessage {
    type V = DraftMessageView;

    open spec fn view(&self) -> DraftMessageView {
        DraftMessageView {
            subject: self.subject.deep_view(),
            body: self.body.deep_view(),
            recipients: self.recipients.deep_view(),
        }
    }
}

/// The empty draft.
pub open spec fn draft_empty() -> DraftMessageView {
    DraftMessageView { subject: None, body: None, recipients: None }
}

/// A draft with its subject overwritten.
pub open spec fn draft_with_subject(d: DraftMessageView, s: Seq<char>) -> DraftMessageView {
    DraftMessageView { subject: Some(s), ..d }
}

/// A draft with its body overwritten by a plain-text body.
pub open spec fn draft_with_body_text(d: DraftMessageView, b: Seq<char>) -> DraftMessageView {
    DraftMessageView {
        body: Some(ItemBodyView { content_type: BodyKind::Text, content: b }),
        ..d
    }
}

/// A draft with its body overwritten by an HTML body.
pub open spec fn draft_with_body_html(d: DraftMessageView, b: Seq<char>) -> DraftMessageView {
    DraftMessageView {
        body: Some(ItemBodyView { content_type: BodyKind::Html, content: b }),
        ..d
    }
}

/// A draft with its recipient list overwritten.
pub open spec fn draft_with_to(d: DraftMessageView, r: Seq<Seq<char>>) -> DraftMessageView {
    DraftMessageView { recipients: Some(r), ..d }
}

impl DraftMessage {
    /// Starts an empty draft.
    pub fn new() -> (d: Self)
        ensures
            d@ == draft_empty(),
    {
        DraftMessage { subject: None, body: None, recipients: None }
    }

    /// Sets the subject; a later call overwrites an earlier one.
    pub fn subject(self, subject: String) -> (d: Self)
        ensures
            d@ == draft_with_subject(self@, subject@),
    {
        DraftMessage { subject: Some(subject), ..self }
    }

    /// Sets a plain-text body; overwrites any body set before.
    pub fn body_text(self, body: String) -> (d: Self)
        ensures
            d@ == draft_with_body_text(self@, body@),
    {
        DraftMessage {
            body: Some(ItemBody { content_type: BodyKind::Text, content: body }),
            ..self
        }
    }

    /// Sets an HTML body; overwrites any body set before.
    pub fn body_html(self, body: String) -> (d: Self)
        ensures
            d@ == draft_with_body_html(self@, body@),
    {
        DraftMessage {
            body: Some(ItemBody { content_type: BodyKind::Html, content: body }),
            ..self
        }
    }

    /// Sets the recipient list; a later call overwrites an earlier one.
    pub fn to(self, recipients: Vec<String>) -> (d: Self)
        ensures
            d@ == draft_with_to(self@, recipients.deep_view()),
    {
        DraftMessage { recipients: Some(recipients), ..self }
    }
}

// ---------------------------------------------------------------------------
// NewCalendarEvent
// ---------------------------------------------------------------------------
/// An outgoing calendar-event payload: subject, start and end are fixed at
/// construction; location, attendees and the two flags are optional
/// amendments.
pub struct NewCalendarEvent {
    pub subject: String,
    pub start: crate::domain::DateTimeTimeZone,
    pub end: crate::domain::DateTimeTimeZone,
    pub location: Option<String>,
    pub attendees: Option<Vec<String>>,
    pub is_all_day: bool,
    pub is_online_meeting: bool,
}

/// Mathematical view of an outgoing calendar-event payload.
pub struct NewCalendarEventView {
    pub subject: Seq<char>,
    pub start: crate::domain::DateTimeTimeZoneView,
    pub end: crate::domain::DateTimeTimeZoneView,
    pub location: Option<Seq<char>>,
    pub attendees: Option<Seq<Seq<char>>>,
    pub is_all_day: bool,
    pub is_online_meeting: bool,
}

impl View for NewCalendarEvent {
    type V = NewCalendarEventView;

    open spec fn view(&self) -> NewCalendarEventView {
        NewCalendarEventView {
            subject: self.subject@,
            start: self.start@,
            end: self.end@,
            location: self.location.deep_view(),
            attendees: self.attendees.deep_view(),
            is_all_day: self.is_all_day,
            is_online_meeting: self.is_online_meeting,
        }
    }
}

/// An event payload with its location overwritten.
pub open spec fn event_with_location(e: NewCalendarEventView, l: Seq<char>) -> NewCalendarEventView {
    NewCalendarEventView { location: Some(l), ..e }
}

/// An event payload with its attendee list overwritten.
pub open spec fn event_with_attendees(
    e: NewCalendarEventView,
    a: Seq<Seq<char>>,
) -> NewCalendarEventView {
    NewCalendarEventView { attendees: Some(a), ..e }
}

/// An event payload marked all-day.
pub open spec fn event_with_all_day(e: NewCalendarEventView) -> NewCalendarEventView {
    NewCalendarEventView { is_all_day: true, ..e }
}

/// An event payload marked as an online meeting.
pub open spec fn event_with_online(e: NewCalendarEventView) -> NewCalendarEventView {
    NewCalendarEventView { is_online_meeting: true, ..e }
}

impl NewCalendarEvent {
    /// Starts an event payload from its three required fields; both flags
    /// start false and the optional fields start absent.
    pub fn new(
        subject: &str,
        start: crate::domain::DateTimeTimeZone,
        end: crate::domain::DateTimeTimeZone,
    ) -> (e: Self)
        ensures
            e@ == (NewCalendarEventView {
                subject: subject@,
                start: start@,
                end: end@,
                location: None,
                attendees: None,
                is_all_day: false,
                is_online_meeting: false,
            }),
    {
        NewCalendarEvent {
            subject: subject.to_owned(),
            start,
            end,
            location: None,
            attendees: None,
            is_all_day: false,
            is_online_meeting: false,
        }
    }

    /// Sets the location; a later call overwrites an earlier one.
    pub fn location(self, location: String) -> (e: Self)
        ensures
            e@ == event_with_location(self@, location@),
    {
        NewCalendarEvent { location: Some(location), ..self }
    }

    /// Sets the attendee list; a later call overwrites an earlier one.
    pub fn attendees(self, attendees: Vec<String>) -> (e: Self)
        ensures
            e@ == event_with_attendees(self@, attendees.deep_view()),
    {
        NewCalendarEvent { attendees: Some(attendees), ..self }
    }

    /// Marks the event all-day.
    pub fn all_day(self) -> (e: Self)
        ensures
            e@ == event_with_all_day(self@),
    {
        NewCalendarEvent { is_all_day: true, ..self }
    }

    /// Marks the event as an online meeting.
    pub fn online_meeting(self) -> (e: Self)
        ensures
            e@ == event_with_online(self@),
    {
        NewCalendarEvent { is_online_meeting: true, ..self }
    }
}

// ---------------------------------------------------------------------------
// NewContact
// ---------------------------------------------------------------------------
/// An outgoing contact payload: the two names are fixed at construction,
/// the rest are optional amendments.
pub struct NewContact {
    pub given_name: String,
    pub surname: String,
    pub email: Option<String>,
    pub mobile: Option<String>,
    pub company: Option<String>,
    pub job_title: Option<String>,
}

/// Mathematical view of an outgoing contact payload.
pub struct NewContactView {
    pub given_name: Seq<char>,
    pub surname: Seq<char>,
    pub email: Option<Seq<char>>,
    pub mobile: Option<Seq<char>>,
    pub company: Option<Seq<char>>,
    pub job_title: Option<Seq<char>>,
}

impl View for NewContact {
    type V = NewContactView;

    open spec fn view(&self) -> NewContactView {
        NewContactView {
            given_name: self.given_name@,
            surname: self.surname@,
            email: self.email.deep_view(),
            mobile: self.mobile.deep_view(),
            company: self.company.deep_view(),
            job_title: self.job_title.deep_view(),
        }
    }
}

/// A contact payload with its email overwritten.
pub open spec fn contact_with_email(c: NewContactView, v: Seq<char>) -> NewContactView {
    NewContactView { email: Some(v), ..c }
}

/// A contact payload with its mobile number overwritten.
pub open spec fn contact_with_mobile(c: NewContactView, v: Seq<char>) -> NewContactView {
    NewContactView { mobile: Some(v), ..c }
}

/// A contact payload with its company overwritten.
pub open spec fn contact_with_company(c: NewContactView, v: Seq<char>) -> NewContactView {
    NewContactView { company: Some(v), ..c }
}

/// A contact payload with its job title overwritten.
pub open spec fn contact_with_job_title(c: NewContactView, v: Seq<char>) -> NewContactView {
    NewContactView { job_title: Some(v), ..c }
}

impl NewContact {
    /// Starts a contact payload from the two required names.
    pub fn new(given_name: &str, surname: &str) -> (c: Self)
        ensures
            c@ == (NewContactView {
                given_name: given_name@,
                surname: surname@,
                email: None,
                mobile: None,
                company: None,
                job_title: None,
            }),
    {
        NewContact {
            given_name: given_name.to_owned(),
            surname: surname.to_owned(),
            email: None,
            mobile: None,
            company: None,
            job_title: None,
        }
    }

    /// Sets the email; a later call overwrites an earlier one.
    pub fn email(self, v: String) -> (c: Self)
        ensures
            c@ == contact_with_email(self@, v@),
    {
        NewContact { email: Some(v), ..self }
    }

    /// Sets the mobile number; a later call overwrites an earlier one.
    pub fn mobile(self, v: String) -> (c: Self)
        ensures
            c@ == contact_with_mobile(self@, v@),
    {
        NewContact { mobile: Some(v), ..self }
    }

    /// Sets the company; a later call overwrites an earlier one.
    pub fn company(self, v: String) -> (c: Self)
        ensures
            c@ == contact_with_company(self@, v@),
    {
        NewContact { company: Some(v), ..self }
    }

    /// Sets the job title; a later call overwrites an earlier one.
    pub fn job_title(self, v: String) -> (c: Self)
        ensures
            c@ == contact_with_job_title(self@, v@),
    {
        NewContact { job_title: Some(v), ..self }
    }
}

// ---------------------------------------------------------------------------
// Builder laws: the last write to a field wins, and distinct setters
// commute, so the order of invocation never affects the final payload.
// ---------------------------------------------------------------------------
/// Setting the same draft field twice keeps only the last value.
pub proof fn lemma_draft_last_write_wins(
    d: DraftMessageView,
    a: Seq<char>,
    b: Seq<char>,
    r1: Seq<Seq<char>>,
    r2: Seq<Seq<char>>,
)
    ensures
        draft_with_subject(draft_with_subject(d, a), b) == draft_with_subject(d, b),
        draft_with_body_text(draft_with_body_text(d, a), b) == draft_with_body_text(d, b),
        draft_with_body_html(draft_with_body_html(d, a), b) == draft_with_body_html(d, b),
        draft_with_body_html(draft_with_body_text(d, a), b) == draft_with_body_html(d, b),
        draft_with_body_text(draft_with_body_html(d, a), b) == draft_with_body_text(d, b),
        draft_with_to(draft_with_to(d, r1), r2) == draft_with_to(d, r2),
{
}

/// Distinct draft setters commute: invocation order does not affect the
/// final payload.
pub proof fn lemma_draft_setters_commute(d: DraftMessageView, s: Seq<char>, b: Seq<char>, r: Seq<Seq<char>>)
    ensures
        draft_with_subject(draft_with_body_text(d, b), s) == draft_with_body_text(
            draft_with_subject(d, s),
            b,
        ),
        draft_with_subject(draft_with_body_html(d, b), s) == draft_with_body_html(
            draft_with_subject(d, s),
            b,
        ),
        draft_with_subject(draft_with_to(d, r), s) == draft_with_to(draft_with_subject(d, s), r),
        draft_with_body_text(draft_with_to(d, r), b) == draft_with_to(
            draft_with_body_text(d, b),
            r,
        ),
        draft_with_body_html(draft_with_to(d, r), b) == draft_with_to(
            draft_with_body_html(d, b),
            r,
        ),
{
}

/// Setting the same event field twice keeps only the last value, and the
/// two flags are idempotent.
pub proof fn lemma_event_last_write_wins(
    e: NewCalendarEventView,
    a: Seq<char>,
    b: Seq<char>,
    l1: Seq<Seq<char>>,
    l2: Seq<Seq<char>>,
)
    ensures
        event_with_location(event_with_location(e, a), b) == event_with_location(e, b),
        event_with_attendees(event_with_attendees(e, l1), l2) == event_with_attendees(e, l2),
        event_with_all_day(event_with_all_day(e)) == event_with_all_day(e),
        event_with_online(event_with_online(e)) == event_with_online(e),
{
}

/// Distinct event setters commute: invocation order does not affect the
/// final payload.
pub proof fn lemma_event_setters_commute(e: NewCalendarEventView, l: Seq<char>, a: Seq<Seq<char>>)
    ensures
        event_with_location(event_with_attendees(e, a), l) == event_with_attendees(
            event_with_location(e, l),
            a,
        ),
        event_with_location(event_with_all_day(e), l) == event_with_all_day(
            event_with_location(e, l),
        ),
        event_with_location(event_with_online(e), l) == event_with_online(
            event_with_location(e, l),
        ),
        event_with_attendees(event_with_all_day(e), a) == event_with_all_day(
            event_with_attendees(e, a),
        ),
        event_with_attendees(event_with_online(e), a) == event_with_online(
            event_with_attendees(e, a),
        ),
        event_with_all_day(event_with_online(e)) == event_with_online(event_with_all_day(e)),
{
}

/// Setting the same contact field twice keeps only the last value.
pub proof fn lemma_contact_last_write_wins(c: NewContactView, a: Seq<char>, b: Seq<char>)
    ensures
        contact_with_email(contact_with_email(c, a), b) == contact_with_email(c, b),
        contact_with_mobile(contact_with_mobile(c, a), b) == contact_with_mobile(c, b),
        contact_with_company(contact_with_company(c, a), b) == contact_with_company(c, b),
        contact_with_job_title(contact_with_job_title(c, a), b) == contact_with_job_title(c, b),
{
}

/// Distinct contact setters commute: invocation order does not affect the
/// final payload.
pub proof fn lemma_contact_setters_commute(c: NewContactView, a: Seq<char>, b: Seq<char>)
    ensures
        contact_with_email(contact_with_mobile(c, b), a) == contact_with_mobile(
            contact_with_email(c, a),
            b,
        ),
        contact_with_email(contact_with_company(c, b), a) == contact_with_company(
            contact_with_email(c, a),
            b,
        ),
        contact_with_email(contact_with_job_title(c, b), a) == contact_with_job_title(
            contact_with_email(c, a),
            b,
        ),
        contact_with_mobile(contact_with_company(c, b), a) == contact_with_company(
            contact_with_mobile(c, a),
            b,
        ),
        contact_with_mobile(contact_with_job_title(c, b), a) == contact_with_job_title(
            contact_with_mobile(c, a),
            b,
        ),
        contact_with_company(contact_with_job_title(c, b), a) == contact_with_job_title(
            contact_with_company(c, a),
            b,
        ),
{
}

} // verus!
