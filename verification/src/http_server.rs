//! The plain listing of the received messages: each message as its number
//! and its text.

use crate::email::{Email, EmailData};
use crate::http::http_html_service::{encode_minimal, escaped};
use crate::text::{decimal, decimal_of};
use vstd::prelude::*;
use vstd::string::StringExecFns;

verus! {

pub const PAGE_HEAD: &'static str =
    "<html><head><meta charset=\"utf-8\"><title>Local Mail Server</title></head><body>";

pub const PAGE_TITLE: &'static str = "<h1>受信メール一覧</h1>";

pub const PAGE_EMPTY: &'static str = "<p>メールはまだ受信されていません。</p>";

pub const ITEM_HEAD: &'static str = "<h2>メール ";

pub const PAGE_FOOT: &'static str = "</body></html>";

/// The listing entries of a sequence of messages as pairs of number and
/// text: each message with its position and the text as it came.
pub open spec fn entries_of(emails: Seq<EmailData>) -> Seq<(usize, Seq<char>)> {
    Seq::new(emails.len(), |i: int| (i as usize, emails[i]@.raw))
}

/// What a vector of listing entries holds.
pub open spec fn entry_views(entries: Seq<Email>) -> Seq<(usize, Seq<char>)> {
    Seq::new(entries.len(), |i: int| (entries[i].id(), entries[i].content()))
}

/// The section of the page for the message at position `i`: a heading with
/// the message's number, counted from one, and the text of the message.
pub open spec fn item_of(i: nat, raw: Seq<char>) -> Seq<char> {
    ITEM_HEAD@ + decimal_of(i + 1) + ":</h2><pre>"@ + escaped(raw) + "</pre><hr>"@
}

/// The sections of the page for a sequence of messages, in their order.
pub open spec fn items_of(emails: Seq<EmailData>) -> Seq<char>
    decreases emails.len(),
{
    if emails.len() == 0 {
        Seq::empty()
    } else {
        items_of(emails.drop_last()) + item_of((emails.len() - 1) as nat, emails.last()@.raw)
    }
}

/// The whole page: a note where there is no message, and else the section
/// of each.
pub open spec fn index_of(emails: Seq<EmailData>) -> Seq<char> {
    PAGE_HEAD@ + PAGE_TITLE@ + (if emails.len() == 0 {
        PAGE_EMPTY@
    } else {
        items_of(emails)
    }) + PAGE_FOOT@
}

/// The page that lists the messages.
pub fn index_page(emails: &Vec<EmailData>) -> (html: String)
    ensures
        html@ == index_of(emails@),
{
    let mut html = String::new();
    html.append(PAGE_HEAD);
    html.append(PAGE_TITLE);
    if emails.len() == 0 {
        html.append(PAGE_EMPTY);
    } else {
        let mut i: usize = 0;
        assert(emails@.subrange(0, 0) == Seq::<EmailData>::empty());
        assert(html@ == PAGE_HEAD@ + PAGE_TITLE@ + items_of(emails@.subrange(0, 0)));
        while i < emails.len()
            invariant
                i <= emails@.len(),
                html@ == PAGE_HEAD@ + PAGE_TITLE@ + items_of(emails@.subrange(0, i as int)),
            decreases emails@.len() - i,
        {
            proof {
                let upto = emails@.subrange(0, i + 1);
                assert(upto.drop_last() == emails@.subrange(0, i as int));
                assert(upto.last() == emails@[i as int]);
            }
            let ghost before = html@;
            html.append(ITEM_HEAD);
            html.append(decimal(i + 1).as_str());
            html.append(":</h2><pre>");
            html.append(encode_minimal(emails[i].get_raw().as_str()).as_str());
            html.append("</pre><hr>");
            assert(html@ == before + item_of(i as nat, emails@[i as int]@.raw));
            i += 1;
        }
        assert(emails@.subrange(0, i as int) == emails@);
    }
    html.append(PAGE_FOOT);
    html
}

/// Every message as a listing entry.
pub fn list_emails(emails: &Vec<EmailData>) -> (entries: Vec<Email>)
    ensures
        entry_views(entries@) == entries_of(emails@),
{
    let mut entries: Vec<Email> = Vec::new();
    let mut i: usize = 0;
    while i < emails.len()
        invariant
            i <= emails@.len(),
            entries@.len() == i,
            forall|k: int|
                0 <= k < i ==> (#[trigger] entries@[k]).id() == k && entries@[k].content()
                    == emails@[k]@.raw,
        decreases emails@.len() - i,
    {
        entries.push(Email::new_all(i, emails[i].get_raw().clone()));
        i += 1;
    }
    assert(entry_views(entries@) =~= entries_of(emails@));
    entries
}

/// The message at position `id` as a listing entry, if there is one.
pub fn email_entry(emails: &Vec<EmailData>, id: usize) -> (entry: Option<Email>)
    ensures
        match entry {
            Some(entry) => id < emails@.len() && entry.id() == id && entry.content()
                == emails@[id as int]@.raw,
            None => id >= emails@.len(),
        },
{
    if id < emails.len() {
        Some(Email::new_all(id, emails[id].get_raw().clone()))
    } else {
        None
    }
}

} // verus!
