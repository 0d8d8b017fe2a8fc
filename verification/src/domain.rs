//! Value types mirrored from the remote mail/calendar/contacts service, and
//! their mathematical views. Every remote-sourced field that the service may
//! omit is an explicit `Option`; the renderer resolves each absence to a
//! documented fallback, never by failing.

use vstd::prelude::*;

verus! {

/// An email address carried inside a sender or attendee record.
pub struct EmailAddress {
    pub address: String,
}

impl View for EmailAddress {
    type V = Seq<char>;

    open spec fn view(&self) -> Seq<char> {
        self.address@
    }
}

impl DeepView for EmailAddress {
    type V = Seq<char>;

    open spec fn deep_view(&self) -> Seq<char> {
        self.view()
    }
}

/// A sender or recipient record: a wrapper holding one email address.
pub struct Recipient {
    pub email_address: EmailAddress,
}

impl View for Recipient {
    type V = Seq<char>;

    open spec fn view(&self) -> Seq<char> {
        self.email_address@
    }
}

impl DeepView for Recipient {
    type V = Seq<char>;

    open spec fn deep_view(&self) -> Seq<char> {
        self.view()
    }
}

/// Whether a message body is plain text or HTML. The representation is
/// chosen once and never mixed.
#[derive(Clone, Copy, PartialEq, Eq, Structural)]
pub enum BodyKind {
    Text,
    Html,
}

/// A message body: its representation marker and its content.
pub struct ItemBody {
    pub content_type: BodyKind,
    pub content: String,
}

/// Mathematical view of a message body.
pub struct ItemBodyView {
    pub content_type: BodyKind,
    pub content: Seq<char>,
}

impl View for ItemBody {
    type V = ItemBodyView;

    open spec fn view(&self) -> ItemBodyView {
        ItemBodyView { content_type: self.content_type, content: self.content@ }
    }
}

impl DeepView for ItemBody {
    type V = ItemBodyView;

    open spec fn deep_view(&self) -> ItemBodyView {
        self.view()
    }
}

/// A mail message as fetched from the service. The id is an opaque string;
/// everything else may be absent.
pub struct Message {
    pub id: String,
    pub subject: Option<String>,
    pub from: Option<Recipient>,
    pub body: Option<ItemBody>,
    pub received_date_time: Option<String>,
    pub is_read: Option<bool>,
}

/// Mathematical view of a message.
pub struct MessageView {
    pub id: Seq<char>,
    pub subject: Option<Seq<char>>,
    pub from: Option<Seq<char>>,
    pub body: Option<ItemBodyView>,
    pub received_date_time: Option<Seq<char>>,
    pub is_read: Option<bool>,
}

impl View for Message {
    type V = MessageView;

    open spec fn view(&self) -> MessageView {
        MessageView {
            id: self.id@,
            subject: self.subject.deep_view(),
            from: self.from.deep_view(),
            body: self.body.deep_view(),
            received_date_time: self.received_date_time.deep_view(),
            is_read: self.is_read,
        }
    }
}

impl DeepView for Message {
    type V = MessageView;

    open spec fn deep_view(&self) -> MessageView {
        self.view()
    }
}

/// A mail folder with its optional item counts.
pub struct Folder {
    pub display_name: String,
    pub total_item_count: Option<u64>,
    pub unread_item_count: Option<u64>,
}

/// Mathematical view of a folder.
pub struct FolderView {
    pub display_name: Seq<char>,
    pub total_item_count: Option<u64>,
    pub unread_item_count: Option<u64>,
}

impl View for Folder {
    type V = FolderView;

    open spec fn view(&self) -> FolderView {
        FolderView {
            display_name: self.display_name@,
            total_item_count: self.total_item_count,
            unread_item_count: self.unread_item_count,
        }
    }
}

impl DeepView for Folder {
    type V = FolderView;

    open spec fn deep_view(&self) -> FolderView {
        self.view()
    }
}

/// An attachment entry of a message.
pub struct Attachment {
    pub id: String,
    pub name: String,
    pub size: Option<u64>,
}

/// Mathematical view of an attachment entry.
pub struct AttachmentView {
    pub id: Seq<char>,
    pub name: Seq<char>,
    pub size: Option<u64>,
}

impl View for Attachment {
    type V = AttachmentView;

    open spec fn view(&self) -> AttachmentView {
        AttachmentView { id: self.id@, name: self.name@, size: self.size }
    }
}

impl DeepView for Attachment {
    type V = AttachmentView;

    open spec fn deep_view(&self) -> AttachmentView {
        self.view()
    }
}

/// The signed-in account's profile fields shown by the user-info command.
pub struct User {
    pub display_name: Option<String>,
    pub mail: Option<String>,
}

/// Mathematical view of the account profile.
pub struct UserView {
    pub display_name: Option<Seq<char>>,
    pub mail: Option<Seq<char>>,
}

impl View for User {
    type V = UserView;

    open spec fn view(&self) -> UserView {
        UserView { display_name: self.display_name.deep_view(), mail: self.mail.deep_view() }
    }
}

impl DeepView for User {
    type V = UserView;

    open spec fn deep_view(&self) -> UserView {
        self.view()
    }
}

/// A local timestamp paired with a timezone identifier, both kept as the
/// service's own strings.
pub struct DateTimeTimeZone {
    pub date_time: String,
    pub time_zone: String,
}

/// Mathematical view of a timestamp-with-timezone pair.
pub struct DateTimeTimeZoneView {
    pub date_time: Seq<char>,
    pub time_zone: Seq<char>,
}

impl DateTimeTimeZone {
    /// Pairs an ISO-8601 local timestamp with a timezone identifier.
    pub fn new(date_time: &str, time_zone: &str) -> (r: Self)
        ensures
            r@ == (DateTimeTimeZoneView { date_time: date_time@, time_zone: time_zone@ }),
    {
        DateTimeTimeZone { date_time: date_time.to_owned(), time_zone: time_zone.to_owned() }
    }
}

impl View for DateTimeTimeZone {
    type V = DateTimeTimeZoneView;

    open spec fn view(&self) -> DateTimeTimeZoneView {
        DateTimeTimeZoneView { date_time: self.date_time@, time_zone: self.time_zone@ }
    }
}

impl DeepView for DateTimeTimeZone {
    type V = DateTimeTimeZoneView;

    open spec fn deep_view(&self) -> DateTimeTimeZoneView {
        self.view()
    }
}

/// An event location; the service may omit the display name.
pub struct Location {
    pub display_name: Option<String>,
}

impl View for Location {
    type V = Option<Seq<char>>;

    open spec fn view(&self) -> Option<Seq<char>> {
        self.display_name.deep_view()
    }
}

impl DeepView for Location {
    type V = Option<Seq<char>>;

    open spec fn deep_view(&self) -> Option<Seq<char>> {
        self.view()
    }
}

/// An event attendee: a wrapper holding one email address.
pub struct Attendee {
    pub email_address: EmailAddress,
}

impl View for Attendee {
    type V = Seq<char>;

    open spec fn view(&self) -> Seq<char> {
        self.email_address@
    }
}

impl DeepView for Attendee {
    type V = Seq<char>;

    open spec fn deep_view(&self) -> Seq<char> {
        self.view()
    }
}

/// A calendar event as fetched from the service.
pub struct CalendarEvent {
    pub id: String,
    pub subject: Option<String>,
    pub start: Option<DateTimeTimeZone>,
    pub end: Option<DateTimeTimeZone>,
    pub location: Option<Location>,
    pub attendees: Option<Vec<Attendee>>,
}

/// Mathematical view of a calendar event.
pub struct CalendarEventView {
    pub id: Seq<char>,
    pub subject: Option<Seq<char>>,
    pub start: Option<DateTimeTimeZoneView>,
    pub end: Option<DateTimeTimeZoneView>,
    pub location: Option<Option<Seq<char>>>,
    pub attendees: Option<Seq<Seq<char>>>,
}

impl View for CalendarEvent {
    type V = CalendarEventView;

    open spec fn view(&self) -> CalendarEventView {
        CalendarEventView {
            id: self.id@,
            subject: self.subject.deep_view(),
            start: self.start.deep_view(),
            end: self.end.deep_view(),
            location: self.location.deep_view(),
            attendees: self.attendees.deep_view(),
        }
    }
}

impl DeepView for CalendarEvent {
    type V = CalendarEventView;

    open spec fn deep_view(&self) -> CalendarEventView {
        self.view()
    }
}

/// A contact's email entry; even the address itself may be absent.
pub struct EmailEntry {
    pub address: Option<String>,
}

impl View for EmailEntry {
    type V = Option<Seq<char>>;

    open spec fn view(&self) -> Option<Seq<char>> {
        self.address.deep_view()
    }
}

impl DeepView for EmailEntry {
    type V = Option<Seq<char>>;

    open spec fn deep_view(&self) -> Option<Seq<char>> {
        self.view()
    }
}

/// A contact as fetched from the service; every field but the id may be
/// absent.
pub struct Contact {
    pub id: String,
    pub display_name: Option<String>,
    pub given_name: Option<String>,
    pub surname: Option<String>,
    pub email_addresses: Option<Vec<EmailEntry>>,
    pub mobile_phone: Option<String>,
    pub company_name: Option<String>,
    pub job_title: Option<String>,
}

/// Mathematical view of a contact.
pub struct ContactView {
    pub id: Seq<char>,
    pub display_name: Option<Seq<char>>,
    pub given_name: Option<Seq<char>>,
    pub surname: Option<Seq<char>>,
    pub email_addresses: Option<Seq<Option<Seq<char>>>>,
    pub mobile_phone: Option<Seq<char>>,
    pub company_name: Option<Seq<char>>,
    pub job_title: Option<Seq<char>>,
}

impl View for Contact {
    type V = ContactView;

    open spec fn view(&self) -> ContactView {
        ContactView {
            id: self.id@,
            display_name: self.display_name.deep_view(),
            given_name: self.given_name.deep_view(),
            surname: self.surname.deep_view(),
            email_addresses: self.email_addresses.deep_view(),
            mobile_phone: self.mobile_phone.deep_view(),
            company_name: self.company_name.deep_view(),
            job_title: self.job_title.deep_view(),
        }
    }
}

impl DeepView for Contact {
    type V = ContactView;

    open spec fn deep_view(&self) -> ContactView {
        self.view()
    }
}

} // verus!
