//! The structure of a message as the MIME parser finds it, held in plain
//! values: the headers, the body, and the parts of a multipart message.

use crate::text::opt_text;
use mailparse::parse_mail;
use mailparse::DispositionType::{Attachment, Extension, FormData, Inline};
use vstd::prelude::*;

verus! {

/// One header of a message or of a part.
#[derive(Debug)]
pub struct MailHeader {
    pub key: String,
    pub value: String,
}

/// A `MailHeader` with its strings as texts.
pub struct HeaderView {
    pub key: Seq<char>,
    pub value: Seq<char>,
}

impl View for MailHeader {
    type V = HeaderView;

    open spec fn view(&self) -> HeaderView {
        HeaderView { key: self.key@, value: self.value@ }
    }
}

/// How a part is meant to be presented.
#[derive(Clone, Copy, Debug, PartialEq, Eq, Structural)]
pub enum Disposition {
    Inline,
    Attachment,
    FormData,
    Extension,
}

/// One part of a multipart message.
#[derive(Debug)]
pub struct MailPart {
    /// The media type, such as `text/plain`.
    pub mimetype: String,
    pub disposition: Disposition,
    /// The `filename` parameter of the content disposition.
    pub filename: Option<String>,
    /// The body as text, where it could be decoded.
    pub body: Option<String>,
    /// The body as bytes, the transfer encoding undone, where that could be done.
    pub body_raw: Option<Vec<u8>>,
}

/// A `MailPart` with its strings as texts.
pub struct PartView {
    pub mimetype: Seq<char>,
    pub disposition: Disposition,
    pub filename: Option<Seq<char>>,
    pub body: Option<Seq<char>>,
    pub body_raw: Option<Seq<u8>>,
}

impl View for MailPart {
    type V = PartView;

    open spec fn view(&self) -> PartView {
        PartView {
            mimetype: self.mimetype@,
            disposition: self.disposition,
            filename: opt_text(self.filename),
            body: opt_text(self.body),
            body_raw: match self.body_raw {
                Some(bytes) => Some(bytes@),
                None => None,
            },
        }
    }
}

/// A parsed message: its headers, its body as text where there is one, and
/// its parts, of which only a multipart message has any.
#[derive(Debug)]
pub struct ParsedMessage {
    pub headers: Vec<MailHeader>,
    pub body: Option<String>,
    pub subparts: Vec<MailPart>,
}

/// A `ParsedMessage` with its strings as texts.
pub struct MessageView {
    pub headers: Seq<HeaderView>,
    pub body: Option<Seq<char>>,
    pub subparts: Seq<PartView>,
}

/// The views of a sequence of headers.
pub open spec fn header_views(headers: Seq<MailHeader>) -> Seq<HeaderView> {
    Seq::new(headers.len(), |i: int| headers[i]@)
}

/// The views of a sequence of parts.
pub open spec fn part_views(parts: Seq<MailPart>) -> Seq<PartView> {
    Seq::new(parts.len(), |i: int| parts[i]@)
}

impl View for ParsedMessage {
    type V = MessageView;

    open spec fn view(&self) -> MessageView {
        MessageView {
            headers: header_views(self.headers@),
            body: opt_text(self.body),
            subparts: part_views(self.subparts@),
        }
    }
}

/// The view of a parsed message that may be absent.
pub open spec fn opt_message(parsed: Option<ParsedMessage>) -> Option<MessageView> {
    match parsed {
        Some(message) => Some(message@),
        None => None,
    }
}

/// What the MIME parser makes of a raw message, and `None` where it finds
/// no message in the text.
pub uninterp spec fn parsed_message(raw: Seq<char>) -> Option<MessageView>;

/// `mailparse::parse_mail` on the bytes of `raw`, with the result copied into
/// plain values: of each header `get_key` and `get_value`; of the message
/// `get_body`; of each of its direct parts the media type, the type of
/// `get_content_disposition` and its `filename` parameter, `get_body` and
/// `get_body_raw`. What comes out depends on the text alone.
#[verifier::external_body]
pub(crate) fn parse_message(raw: &str) -> (r: Option<ParsedMessage>)
    ensures
        opt_message(r) == parsed_message(raw@),
{
    let mail = parse_mail(raw.as_bytes()).ok()?;
    let headers = mail.headers.iter().map(|h| MailHeader { key: h.get_key(), value: h.get_value() });
    let subparts = mail.subparts.iter().map(|p| MailPart {
        mimetype: p.ctype.mimetype.clone(),
        disposition: match p.get_content_disposition().disposition {
            Inline => Disposition::Inline,
            Attachment => Disposition::Attachment,
            FormData => Disposition::FormData,
            Extension(_) => Disposition::Extension,
        },
        filename: p.get_content_disposition().params.remove("filename"),
        body: p.get_body().ok(),
        body_raw: p.get_body_raw().ok(),
    });
    Some(ParsedMessage { headers: headers.collect(), body: mail.get_body().ok(), subparts: subparts.collect() })
}

} // verus!
