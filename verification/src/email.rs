//! Received messages: the record that the store keeps of each, and the
//! summaries that are handed to a viewer.

use crate::constants::{TEXT_HTML, TEXT_PLAIN};
use crate::mime::{
    header_views, opt_message, parse_message, parsed_message, part_views, Disposition, HeaderView,
    MailHeader, MailPart, MessageView, ParsedMessage, PartView,
};
use crate::text::{
    clone_opt, contains, eq_ignore_ascii_case, lowercase_of, occurs_in, opt_text,
    same_ignoring_ascii_case, same_text, texts_of, to_lowercase,
};
use std::sync::Arc;
use vstd::prelude::*;

verus! {

/// `Arc::clone`: another pointer to the same allocation, and so to the same
/// bytes.
#[verifier::external_body]
fn share(data: &Arc<Vec<u8>>) -> (r: Arc<Vec<u8>>)
    ensures
        r@ == data@,
{
    Arc::clone(data)
}

/// A message as it is listed: its number and its text.
#[derive(Debug)]
pub struct Email {
    id: usize,
    content: String,
}

impl Email {
    /// The listing entry with the given number and text.
    pub fn new_all(id: usize, content: String) -> (email: Email)
        ensures
            email.id() == id,
            email.content() == content@,
    {
        Email { id, content }
    }

    pub closed spec fn id(&self) -> usize {
        self.id
    }

    pub closed spec fn content(&self) -> Seq<char> {
        self.content@
    }

    pub fn get_id(&self) -> (r: usize)
        ensures
            r == self.id(),
    {
        self.id
    }

    pub fn get_content(&self) -> (r: &String)
        ensures
            r@ == self.content(),
    {
        &self.content
    }
}

/// The moment at which a message was received: a Unix timestamp, and the
/// local offset from UTC, in seconds east, by which it is shown.
#[derive(Clone, Copy, Debug, PartialEq, Eq, Structural)]
pub struct ReceivedTime {
    pub seconds: i64,
    pub offset: i32,
}

/// One attachment of a message.
#[derive(Clone, Debug)]
pub struct AttachmentData {
    filename: Option<String>,
    content_type: String,
    data: Arc<Vec<u8>>,
}

/// An `AttachmentData` with its strings as texts.
pub struct AttachmentView {
    pub filename: Option<Seq<char>>,
    pub content_type: Seq<char>,
    pub data: Seq<u8>,
}

impl View for AttachmentData {
    type V = AttachmentView;

    closed spec fn view(&self) -> AttachmentView {
        AttachmentView {
            filename: opt_text(self.filename),
            content_type: self.content_type@,
            data: self.data@,
        }
    }
}

/// The views of a sequence of attachments.
pub open spec fn attachment_views(attachments: Seq<AttachmentData>) -> Seq<AttachmentView> {
    Seq::new(attachments.len(), |i: int| attachments[i]@)
}

impl AttachmentData {
    /// The attachment with the given name, media type and content.
    pub fn new(filename: Option<String>, content_type: String, data: Vec<u8>) -> (r: AttachmentData)
        ensures
            r@ == (AttachmentView {
                filename: opt_text(filename),
                content_type: content_type@,
                data: data@,
            }),
    {
        AttachmentData { filename, content_type, data: Arc::new(data) }
    }

    pub fn get_filename(&self) -> (r: &Option<String>)
        ensures
            opt_text(*r) == self@.filename,
    {
        &self.filename
    }

    pub fn get_content_type(&self) -> (r: &String)
        ensures
            r@ == self@.content_type,
    {
        &self.content_type
    }

    pub fn get_data(&self) -> (r: &Arc<Vec<u8>>)
        ensures
            r@ == self@.data,
    {
        &self.data
    }

    /// A shared handle on the content.
    pub fn get_data_arc(&self) -> (r: Arc<Vec<u8>>)
        ensures
            r@ == self@.data,
    {
        share(&self.data)
    }
}

/// What a viewer searches the messages for.
#[derive(Debug)]
pub struct SearchQuery {
    q: Option<String>,
}

impl SearchQuery {
    /// The query for the given text; `None` asks for every message.
    pub fn new(q: Option<String>) -> (r: SearchQuery)
        ensures
            r.text() == opt_text(q),
    {
        SearchQuery { q }
    }

    pub closed spec fn text(&self) -> Option<Seq<char>> {
        opt_text(self.q)
    }

    pub fn get_q(&self) -> (r: &Option<String>)
        ensures
            opt_text(*r) == self.text(),
    {
        &self.q
    }
}

/// One received message: the text as it came, the moment it came, and what
/// was read out of the text.
#[derive(Clone, Debug)]
pub struct EmailData {
    received_time: ReceivedTime,
    raw: String,
    body: String,
    subject: Option<String>,
    from: Option<String>,
    to: Option<String>,
    attachments: Vec<AttachmentData>,
}

/// An `EmailData` with its strings as texts.
pub struct EmailView {
    pub received_time: ReceivedTime,
    pub raw: Seq<char>,
    pub body: Seq<char>,
    pub subject: Option<Seq<char>>,
    pub from: Option<Seq<char>>,
    pub to: Option<Seq<char>>,
    pub attachments: Seq<AttachmentView>,
}

impl View for EmailData {
    type V = EmailView;

    closed spec fn view(&self) -> EmailView {
        EmailView {
            received_time: self.received_time,
            raw: self.raw@,
            body: self.body@,
            subject: opt_text(self.subject),
            from: opt_text(self.from),
            to: opt_text(self.to),
            attachments: attachment_views(self.attachments@),
        }
    }
}

impl EmailData {
    pub fn get_received_time(&self) -> (r: &ReceivedTime)
        ensures
            *r == self@.received_time,
    {
        &self.received_time
    }

    pub fn get_raw(&self) -> (r: &String)
        ensures
            r@ == self@.raw,
    {
        &self.raw
    }

    pub fn get_body(&self) -> (r: &String)
        ensures
            r@ == self@.body,
    {
        &self.body
    }

    pub fn get_subject(&self) -> (r: &Option<String>)
        ensures
            opt_text(*r) == self@.subject,
    {
        &self.subject
    }

    pub fn get_from(&self) -> (r: &Option<String>)
        ensures
            opt_text(*r) == self@.from,
    {
        &self.from
    }

    pub fn get_to(&self) -> (r: &Option<String>)
        ensures
            opt_text(*r) == self@.to,
    {
        &self.to
    }

    pub fn get_attachments(&self) -> (r: &Vec<AttachmentData>)
        ensures
            attachment_views(r@) == self@.attachments,
    {
        &self.attachments
    }
}

/// The value of the last header of the given name, the case of ASCII
/// letters in the name ignored.
pub open spec fn header_value(headers: Seq<HeaderView>, name: Seq<char>) -> Option<Seq<char>>
    decreases headers.len(),
{
    if headers.len() == 0 {
        None
    } else if same_ignoring_ascii_case(headers.last().key, name) {
        Some(headers.last().value)
    } else {
        header_value(headers.drop_last(), name)
    }
}

/// Whether a part is text that is meant to be shown in place.
pub open spec fn is_inline_text(part: PartView) -> bool {
    &&& lowercase_of(part.mimetype) == TEXT_PLAIN@ || lowercase_of(part.mimetype) == TEXT_HTML@
    &&& part.disposition == Disposition::Inline
}

/// The body of the first part that is inline text and has a body that can
/// be read; empty if there is no such part.
pub open spec fn first_inline_text(parts: Seq<PartView>) -> Seq<char>
    decreases parts.len(),
{
    if parts.len() == 0 {
        Seq::empty()
    } else if is_inline_text(parts.first()) && parts.first().body.is_some() {
        parts.first().body.unwrap()
    } else {
        first_inline_text(parts.drop_first())
    }
}

/// The body of a message: its own where it has no parts, and else that of
/// its first inline text part.
pub open spec fn body_of(message: MessageView) -> Seq<char> {
    if message.subparts.len() == 0 {
        match message.body {
            Some(body) => body,
            None => Seq::empty(),
        }
    } else {
        first_inline_text(message.subparts)
    }
}

/// The attachment that a part is, if it is one: its disposition says so and
/// its content can be read.
pub open spec fn attachment_of(part: PartView) -> Option<AttachmentView> {
    if part.disposition == Disposition::Attachment && part.body_raw.is_some() {
        Some(
            AttachmentView {
                filename: part.filename,
                content_type: part.mimetype,
                data: part.body_raw.unwrap(),
            },
        )
    } else {
        None
    }
}

/// The attachments among the parts, in the order of the parts.
pub open spec fn attachments_of(parts: Seq<PartView>) -> Seq<AttachmentView> {
    parts.filter_map(|part: PartView| attachment_of(part))
}

/// The record of a message with the given text, received at the given time,
/// of which the parser found `parsed`. Where the parser found no message,
/// the record holds the text and nothing else.
pub open spec fn email_of(
    raw: Seq<char>,
    received_time: ReceivedTime,
    parsed: Option<MessageView>,
) -> EmailView {
    match parsed {
        Some(message) => EmailView {
            received_time,
            raw,
            body: body_of(message),
            subject: header_value(message.headers, "Subject"@),
            from: header_value(message.headers, "From"@),
            to: header_value(message.headers, "To"@),
            attachments: attachments_of(message.subparts),
        },
        None => EmailView {
            received_time,
            raw,
            body: Seq::empty(),
            subject: None,
            from: None,
            to: None,
            attachments: Seq::empty(),
        },
    }
}

/// The value of the last header named `name`.
pub fn find_header(headers: &Vec<MailHeader>, name: &str) -> (value: Option<String>)
    ensures
        opt_text(value) == header_value(header_views(headers@), name@),
{
    let mut value: Option<String> = None;
    let mut i: usize = 0;
    while i < headers.len()
        invariant
            i <= headers@.len(),
            opt_text(value) == header_value(header_views(headers@).subrange(0, i as int), name@),
        decreases headers@.len() - i,
    {
        proof {
            let views = header_views(headers@);
            assert(views.subrange(0, i + 1).drop_last() == views.subrange(0, i as int));
            assert(views.subrange(0, i + 1).last() == headers@[i as int]@);
        }
        if eq_ignore_ascii_case(headers[i].key.as_str(), name) {
            value = Some(headers[i].value.clone());
        }
        i += 1;
    }
    assert(header_views(headers@).subrange(0, i as int) == header_views(headers@));
    value
}

impl EmailData {
    /// The record of a message that was received at `recived_time` with the
    /// text `mail_content`.
    pub fn new(mail_content: String, recived_time: ReceivedTime) -> (email: EmailData)
        ensures
            email@ == email_of(mail_content@, recived_time, parsed_message(mail_content@)),
    {
        let parsed = parse_message(mail_content.as_str());
        EmailData::from_parsed(mail_content, recived_time, parsed)
    }

    /// The record of a message of which the parser found `parsed`.
    pub fn from_parsed(
        mail_content: String,
        recived_time: ReceivedTime,
        parsed: Option<ParsedMessage>,
    ) -> (email: EmailData)
        ensures
            email@ == email_of(mail_content@, recived_time, opt_message(parsed)),
    {
        let (subject, from, to, attachments, body) = match parsed {
            Some(message) => EmailData::extract_headers(&message),
            None => {
                let none: Vec<AttachmentData> = Vec::new();
                assert(attachment_views(none@) == Seq::<AttachmentView>::empty());
                (None, None, None, none, String::new())
            },
        };
        EmailData {
            received_time: recived_time,
            raw: mail_content,
            subject,
            from,
            to,
            attachments,
            body,
        }
    }

    /// What is read out of a parsed message: subject, sender, recipient,
    /// attachments and body.
    pub fn extract_headers(parsed: &ParsedMessage) -> (r: (
        Option<String>,
        Option<String>,
        Option<String>,
        Vec<AttachmentData>,
        String,
    ))
        ensures
            opt_text(r.0) == header_value(parsed@.headers, "Subject"@),
            opt_text(r.1) == header_value(parsed@.headers, "From"@),
            opt_text(r.2) == header_value(parsed@.headers, "To"@),
            attachment_views(r.3@) == attachments_of(parsed@.subparts),
            r.4@ == body_of(parsed@),
    {
        let subject = find_header(&parsed.headers, "Subject");
        let from = find_header(&parsed.headers, "From");
        let to = find_header(&parsed.headers, "To");
        (
            subject,
            from,
            to,
            AttachmentData::extract_attachement(parsed),
            EmailData::extract_body(parsed),
        )
    }

    /// The body of a parsed message.
    pub fn extract_body(parsed: &ParsedMessage) -> (body: String)
        ensures
            body@ == body_of(parsed@),
    {
        if parsed.subparts.len() == 0 {
            return match &parsed.body {
                Some(body) => body.clone(),
                None => String::new(),
            };
        }
        let mut i: usize = 0;
        assert(part_views(parsed.subparts@).subrange(0, parsed.subparts@.len() as int)
            == part_views(parsed.subparts@));
        while i < parsed.subparts.len()
            invariant
                i <= parsed.subparts@.len(),
                first_inline_text(part_views(parsed.subparts@)) == first_inline_text(
                    part_views(parsed.subparts@).subrange(i as int, parsed.subparts@.len() as int),
                ),
            decreases parsed.subparts@.len() - i,
        {
            let part = &parsed.subparts[i];
            proof {
                let rest = part_views(parsed.subparts@).subrange(
                    i as int,
                    parsed.subparts@.len() as int,
                );
                assert(rest.first() == part@);
                assert(rest.drop_first() == part_views(parsed.subparts@).subrange(
                    i + 1,
                    parsed.subparts@.len() as int,
                ));
            }
            let mimetype = to_lowercase(part.mimetype.as_str());
            if (same_text(mimetype.as_str(), TEXT_PLAIN) || same_text(mimetype.as_str(), TEXT_HTML))
                && part.disposition == Disposition::Inline {
                if let Some(body) = &part.body {
                    return body.clone();
                }
            }
            i += 1;
        }
        String::new()
    }
}

impl AttachmentData {
    /// The attachments of a parsed message.
    pub fn extract_attachement(parsed: &ParsedMessage) -> (attachments: Vec<AttachmentData>)
        ensures
            attachment_views(attachments@) == attachments_of(parsed@.subparts),
    {
        let mut attachments: Vec<AttachmentData> = Vec::new();
        let mut i: usize = 0;
        assert(attachment_views(attachments@) == attachments_of(
            part_views(parsed.subparts@).subrange(0, 0),
        ));
        while i < parsed.subparts.len()
            invariant
                i <= parsed.subparts@.len(),
                attachment_views(attachments@) == attachments_of(
                    part_views(parsed.subparts@).subrange(0, i as int),
                ),
            decreases parsed.subparts@.len() - i,
        {
            let part = &parsed.subparts[i];
            proof {
                let views = part_views(parsed.subparts@);
                assert(views.subrange(0, i + 1).drop_last() == views.subrange(0, i as int));
                assert(views.subrange(0, i + 1).last() == part@);
            }
            match part.disposition {
                Disposition::Attachment => {
                    if let Some(body) = &part.body_raw {
                        let attachment = AttachmentData::new(
                            clone_opt(&part.filename),
                            part.mimetype.clone(),
                            body.clone(),
                        );
                        assert(attachment_views(attachments@.push(attachment)) == attachment_views(
                            attachments@,
                        ) + seq![attachment@]);
                        attachments.push(attachment);
                    }
                },
                _ => {},
            }
            i += 1;
        }
        assert(part_views(parsed.subparts@).subrange(0, i as int) == part_views(parsed.subparts@));
        attachments
    }
}

/// The local date and time of day, to the minute, of a moment given as a
/// Unix timestamp and an offset from UTC in seconds east, written
/// `YYYY-MM-DD HH:MM`; `None` where the calendar does not reach the moment
/// or the offset is a day or more.
pub uninterp spec fn minute_text(seconds: i64, offset: i32) -> Option<Seq<char>>;

/// `chrono`: the moment `DateTime::from_timestamp(seconds, 0)`, moved by
/// `with_timezone` to the zone `FixedOffset::east_opt(offset)` and written by
/// `format`. Either constructor may refuse its argument. The text depends on
/// the two numbers alone.
#[verifier::external_body]
fn format_minute(seconds: i64, offset: i32) -> (r: Option<String>)
    ensures
        opt_text(r) == minute_text(seconds, offset),
{
    let zone = chrono::FixedOffset::east_opt(offset)?;
    let utc = chrono::DateTime::from_timestamp(seconds, 0)?;
    Some(utc.with_timezone(&zone).format("%Y-%m-%d %H:%M").to_string())
}

/// A message as it is handed to a viewer.
#[derive(Debug)]
pub struct EmailSummary {
    /// The position of the message in the store.
    pub id: usize,
    pub received_time: String,
    pub subject: Option<String>,
    pub from: Option<String>,
    pub to: Option<String>,
    /// The text of the message as it came.
    pub raw: String,
    /// The names of the attachments that have one.
    pub attachments: Vec<String>,
    pub body: String,
}

/// An `EmailSummary` with its strings as texts.
pub struct SummaryView {
    pub id: usize,
    pub received_time: Seq<char>,
    pub subject: Option<Seq<char>>,
    pub from: Option<Seq<char>>,
    pub to: Option<Seq<char>>,
    pub raw: Seq<char>,
    pub attachments: Seq<Seq<char>>,
    pub body: Seq<char>,
}

impl View for EmailSummary {
    type V = SummaryView;

    open spec fn view(&self) -> SummaryView {
        SummaryView {
            id: self.id,
            received_time: self.received_time@,
            subject: opt_text(self.subject),
            from: opt_text(self.from),
            to: opt_text(self.to),
            raw: self.raw@,
            attachments: texts_of(self.attachments@),
            body: self.body@,
        }
    }
}

/// The time of receipt as a summary shows it; empty where it cannot be
/// written.
pub open spec fn received_text(time: ReceivedTime) -> Seq<char> {
    match minute_text(time.seconds, time.offset) {
        Some(text) => text,
        None => Seq::empty(),
    }
}

/// The names of the attachments that have one, in the order of the
/// attachments.
pub open spec fn attachment_names(attachments: Seq<AttachmentView>) -> Seq<Seq<char>> {
    attachments.filter_map(|attachment: AttachmentView| attachment.filename)
}

/// The summary of a message that stands at position `id`.
pub open spec fn summary_of(email: EmailView, id: usize) -> SummaryView {
    SummaryView {
        id,
        received_time: received_text(email.received_time),
        subject: email.subject,
        from: email.from,
        to: email.to,
        raw: email.raw,
        attachments: attachment_names(email.attachments),
        body: email.body,
    }
}

/// Whether a message answers a query: every message answers the absent
/// query, and a query text is looked for, letter case set aside, in the
/// subject, in the sender and in the body.
pub open spec fn answers(email: EmailView, query: Option<Seq<char>>) -> bool {
    match query {
        None => true,
        Some(q) => {
            ||| email.subject.is_some() && occurs_in(
                lowercase_of(q),
                lowercase_of(email.subject.unwrap()),
            )
            ||| email.from.is_some() && occurs_in(
                lowercase_of(q),
                lowercase_of(email.from.unwrap()),
            )
            ||| occurs_in(lowercase_of(q), lowercase_of(email.body))
        },
    }
}

/// Whether `needle`, already in lower case, occurs in the lower-case form
/// of a text that may be absent.
fn found_in(text: &Option<String>, needle: &str) -> (r: bool)
    ensures
        r == (opt_text(*text).is_some() && occurs_in(
            needle@,
            lowercase_of(opt_text(*text).unwrap()),
        )),
{
    match text {
        Some(s) => contains(to_lowercase(s.as_str()).as_str(), needle),
        None => false,
    }
}

impl EmailData {
    /// The summary of this message, as the one at position `i`.
    pub fn convert_to_email_summary(&self, i: usize) -> (summary: EmailSummary)
        ensures
            summary@ == summary_of(self@, i),
    {
        let time = &self.received_time;
        let received_time = match format_minute(time.seconds, time.offset) {
            Some(text) => text,
            None => String::new(),
        };
        let mut names: Vec<String> = Vec::new();
        let mut k: usize = 0;
        assert(texts_of(names@) == attachment_names(
            attachment_views(self.attachments@).subrange(0, 0),
        ));
        while k < self.attachments.len()
            invariant
                k <= self.attachments@.len(),
                texts_of(names@) == attachment_names(
                    attachment_views(self.attachments@).subrange(0, k as int),
                ),
            decreases self.attachments@.len() - k,
        {
            proof {
                let views = attachment_views(self.attachments@);
                assert(views.subrange(0, k + 1).drop_last() == views.subrange(0, k as int));
                assert(views.subrange(0, k + 1).last() == self.attachments@[k as int]@);
            }
            if let Some(name) = self.attachments[k].get_filename() {
                let name = name.clone();
                assert(texts_of(names@.push(name)) == texts_of(names@) + seq![name@]);
                names.push(name);
            }
            k += 1;
        }
        assert(attachment_views(self.attachments@).subrange(0, k as int) == attachment_views(
            self.attachments@,
        ));
        EmailSummary {
            id: i,
            received_time,
            subject: clone_opt(&self.subject),
            from: clone_opt(&self.from),
            to: clone_opt(&self.to),
            raw: self.raw.clone(),
            attachments: names,
            body: self.body.clone(),
        }
    }

    /// Whether this message answers `query`.
    pub fn matches(&self, query: &SearchQuery) -> (r: bool)
        ensures
            r == answers(self@, query.text()),
    {
        match query.get_q() {
            None => true,
            Some(q) => {
                let needle = to_lowercase(q.as_str());
                found_in(&self.subject, needle.as_str()) || found_in(&self.from, needle.as_str())
                    || contains(to_lowercase(self.body.as_str()).as_str(), needle.as_str())
            },
        }
    }
}

} // verus!
