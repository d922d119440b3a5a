use rust_mail::email::{
    find_header, AttachmentData, Email, EmailData, ReceivedTime, SearchQuery,
};
use rust_mail::mime::{Disposition, MailHeader, MailPart, ParsedMessage};

fn at(seconds: i64, offset: i32) -> ReceivedTime {
    ReceivedTime { seconds, offset }
}

fn header(key: &str, value: &str) -> MailHeader {
    MailHeader { key: key.to_string(), value: value.to_string() }
}

fn part(mimetype: &str, disposition: Disposition, filename: Option<&str>, body: Option<&str>) -> MailPart {
    MailPart {
        mimetype: mimetype.to_string(),
        disposition,
        filename: filename.map(|s| s.to_string()),
        body: body.map(|s| s.to_string()),
        body_raw: body.map(|s| s.as_bytes().to_vec()),
    }
}

const MULTIPART: &str = "Subject: Report\r\n\
From: Alice <alice@example.com>\r\n\
To: bob@example.com\r\n\
MIME-Version: 1.0\r\n\
Content-Type: multipart/mixed; boundary=\"XX\"\r\n\
\r\n\
--XX\r\n\
Content-Type: text/plain; charset=utf-8\r\n\
\r\n\
See attached.\r\n\
--XX\r\n\
Content-Type: application/octet-stream\r\n\
Content-Disposition: attachment; filename=\"data.bin\"\r\n\
Content-Transfer-Encoding: base64\r\n\
\r\n\
AAEC/w==\r\n\
--XX\r\n\
Content-Type: text/plain\r\n\
Content-Disposition: attachment\r\n\
\r\n\
unnamed\r\n\
--XX--\r\n";

#[test]
fn a_simple_message_is_read() {
    let raw = "Subject: Hi there\r\nFrom: a@example.com\r\nTo: b@example.com\r\n\r\nBody text";
    let email = EmailData::new(raw.to_string(), at(10, 0));
    assert_eq!(email.get_raw(), raw);
    assert_eq!(email.get_subject(), &Some("Hi there".to_string()));
    assert_eq!(email.get_from(), &Some("a@example.com".to_string()));
    assert_eq!(email.get_to(), &Some("b@example.com".to_string()));
    assert_eq!(email.get_body(), "Body text");
    assert!(email.get_attachments().is_empty());
    assert_eq!(*email.get_received_time(), at(10, 0));
}

#[test]
fn header_names_are_matched_in_any_case() {
    let email = EmailData::new("SUBJECT: loud\r\nfrom: quiet@example.com\r\n\r\nx".to_string(), at(0, 0));
    assert_eq!(email.get_subject(), &Some("loud".to_string()));
    assert_eq!(email.get_from(), &Some("quiet@example.com".to_string()));
    assert_eq!(email.get_to(), &None);
}

#[test]
fn the_last_header_of_a_name_counts() {
    let email = EmailData::new("Subject: one\r\nSubject: two\r\n\r\nx".to_string(), at(0, 0));
    assert_eq!(email.get_subject(), &Some("two".to_string()));
}

#[test]
fn text_without_headers_is_kept_as_it_came() {
    let email = EmailData::new("hello".to_string(), at(0, 0));
    assert_eq!(email.get_raw(), "hello");
    assert_eq!(email.get_subject(), &None);
    assert_eq!(email.get_from(), &None);
    assert!(email.get_attachments().is_empty());
}

#[test]
fn an_empty_message_is_an_empty_record() {
    let email = EmailData::new(String::new(), at(0, 0));
    assert_eq!(email.get_raw(), "");
    assert_eq!(email.get_body(), "");
    assert_eq!(email.get_subject(), &None);
}

#[test]
fn encoded_words_in_headers_are_decoded() {
    let email = EmailData::new("Subject: =?iso-8859-1?Q?=A1Hola!?=\r\n\r\nx".to_string(), at(0, 0));
    assert_eq!(email.get_subject(), &Some("\u{a1}Hola!".to_string()));
}

#[test]
fn a_multipart_message_is_taken_apart() {
    let email = EmailData::new(MULTIPART.to_string(), at(0, 0));
    assert_eq!(email.get_subject(), &Some("Report".to_string()));
    assert_eq!(email.get_from(), &Some("Alice <alice@example.com>".to_string()));
    assert_eq!(email.get_to(), &Some("bob@example.com".to_string()));
    assert_eq!(email.get_body(), "See attached.");
    let attachments = email.get_attachments();
    assert_eq!(attachments.len(), 2);
    assert_eq!(attachments[0].get_filename(), &Some("data.bin".to_string()));
    assert_eq!(attachments[0].get_content_type(), "application/octet-stream");
    assert_eq!(**attachments[0].get_data(), vec![0u8, 1, 2, 255]);
    assert_eq!(*attachments[0].get_data_arc(), vec![0u8, 1, 2, 255]);
    assert_eq!(attachments[1].get_filename(), &None);
    assert_eq!(attachments[1].get_content_type(), "text/plain");
    assert_eq!(**attachments[1].get_data(), b"unnamed".to_vec());
}

#[test]
fn the_summary_names_the_attachments_that_have_a_name() {
    let email = EmailData::new(MULTIPART.to_string(), at(1431648000, 0));
    let summary = email.convert_to_email_summary(4);
    assert_eq!(summary.id, 4);
    assert_eq!(summary.received_time, "2015-05-15 00:00");
    assert_eq!(summary.subject, Some("Report".to_string()));
    assert_eq!(summary.from, Some("Alice <alice@example.com>".to_string()));
    assert_eq!(summary.to, Some("bob@example.com".to_string()));
    assert_eq!(summary.raw, MULTIPART);
    assert_eq!(summary.attachments, vec!["data.bin".to_string()]);
    assert_eq!(summary.body, "See attached.");
}

#[test]
fn the_time_is_shown_in_the_offset_it_came_with() {
    let summary_at = |seconds: i64, offset: i32| -> String {
        EmailData::new("x".to_string(), at(seconds, offset)).convert_to_email_summary(0).received_time
    };
    assert_eq!(summary_at(0, 0), "1970-01-01 00:00");
    assert_eq!(summary_at(1431648000, 9 * 3600), "2015-05-15 09:00");
    assert_eq!(summary_at(1431648000, -5 * 3600 - 1800), "2015-05-14 18:30");
    assert_eq!(summary_at(1431648059, 0), "2015-05-15 00:00");
    assert_eq!(summary_at(1431648060, 0), "2015-05-15 00:01");
    assert_eq!(summary_at(-1, 0), "1969-12-31 23:59");
}

#[test]
fn a_time_that_cannot_be_written_is_shown_empty() {
    let summary_at = |seconds: i64, offset: i32| -> String {
        EmailData::new("x".to_string(), at(seconds, offset)).convert_to_email_summary(0).received_time
    };
    assert_eq!(summary_at(0, 86_400), "");
    assert_eq!(summary_at(0, -86_400), "");
    assert_eq!(summary_at(i64::MAX, 0), "");
    assert_eq!(summary_at(i64::MIN, 0), "");
}

#[test]
fn from_parsed_without_a_parse_keeps_only_the_text() {
    let email = EmailData::from_parsed("raw text".to_string(), at(5, 60), None);
    assert_eq!(email.get_raw(), "raw text");
    assert_eq!(email.get_body(), "");
    assert_eq!(email.get_subject(), &None);
    assert_eq!(email.get_from(), &None);
    assert_eq!(email.get_to(), &None);
    assert!(email.get_attachments().is_empty());
    assert_eq!(*email.get_received_time(), at(5, 60));
}

#[test]
fn the_body_of_a_message_without_parts_is_its_own() {
    let parsed = ParsedMessage { headers: vec![], body: Some("own".to_string()), subparts: vec![] };
    assert_eq!(EmailData::extract_body(&parsed), "own");
    let unreadable = ParsedMessage { headers: vec![], body: None, subparts: vec![] };
    assert_eq!(EmailData::extract_body(&unreadable), "");
}

#[test]
fn the_body_of_a_multipart_message_is_its_first_inline_text() {
    let parsed = ParsedMessage {
        headers: vec![],
        body: Some("preamble".to_string()),
        subparts: vec![
            part("image/png", Disposition::Inline, None, Some("png")),
            part("text/plain", Disposition::Attachment, Some("a.txt"), Some("attached")),
            part("text/plain", Disposition::Inline, None, None),
            part("TEXT/HTML", Disposition::Inline, None, Some("<p>html</p>")),
            part("text/plain", Disposition::Inline, None, Some("plain")),
        ],
    };
    assert_eq!(EmailData::extract_body(&parsed), "<p>html</p>");
}

#[test]
fn a_multipart_message_without_inline_text_has_no_body() {
    let parsed = ParsedMessage {
        headers: vec![],
        body: Some("preamble".to_string()),
        subparts: vec![
            part("application/pdf", Disposition::Inline, None, Some("pdf")),
            part("text/plain", Disposition::FormData, None, Some("form")),
            part("text/plain", Disposition::Extension, None, Some("ext")),
            part("text/plainer", Disposition::Inline, None, Some("no")),
        ],
    };
    assert_eq!(EmailData::extract_body(&parsed), "");
}

#[test]
fn attachments_are_the_parts_that_say_so() {
    let mut unreadable = part("application/zip", Disposition::Attachment, Some("z.zip"), None);
    unreadable.body_raw = None;
    let parsed = ParsedMessage {
        headers: vec![],
        body: None,
        subparts: vec![
            part("text/plain", Disposition::Inline, Some("inline.txt"), Some("inline")),
            part("text/csv", Disposition::Attachment, Some("a.csv"), Some("1,2")),
            unreadable,
            part("text/plain", Disposition::FormData, Some("f"), Some("form")),
            part("image/png", Disposition::Attachment, None, Some("png")),
        ],
    };
    let attachments = AttachmentData::extract_attachement(&parsed);
    assert_eq!(attachments.len(), 2);
    assert_eq!(attachments[0].get_filename(), &Some("a.csv".to_string()));
    assert_eq!(attachments[0].get_content_type(), "text/csv");
    assert_eq!(**attachments[0].get_data(), b"1,2".to_vec());
    assert_eq!(attachments[1].get_filename(), &None);
    assert_eq!(attachments[1].get_content_type(), "image/png");
}

#[test]
fn extract_headers_reads_all_five() {
    let parsed = ParsedMessage {
        headers: vec![
            header("To", "first@example.com"),
            header("X-Other", "skip"),
            header("subject", "s"),
            header("FROM", "f@example.com"),
            header("to", "second@example.com"),
        ],
        body: Some("b".to_string()),
        subparts: vec![],
    };
    let (subject, from, to, attachments, body) = EmailData::extract_headers(&parsed);
    assert_eq!(subject, Some("s".to_string()));
    assert_eq!(from, Some("f@example.com".to_string()));
    assert_eq!(to, Some("second@example.com".to_string()));
    assert!(attachments.is_empty());
    assert_eq!(body, "b");
}

#[test]
fn find_header_wants_the_whole_name() {
    let headers = vec![header("Subject-Line", "no"), header("Subjec", "no"), header("Sub ject", "no")];
    assert_eq!(find_header(&headers, "Subject"), None);
    assert_eq!(find_header(&vec![], "Subject"), None);
    assert_eq!(find_header(&headers, "subjec"), Some("no".to_string()));
}

#[test]
fn matches_sets_letter_case_aside() {
    let email = EmailData::new("Subject: Quarterly REPORT\r\nFrom: Alice@Example.com\r\n\r\nThe Numbers".to_string(), at(0, 0));
    let query = |q: &str| SearchQuery::new(Some(q.to_string()));
    assert!(email.matches(&SearchQuery::new(None)));
    assert!(email.matches(&query("report")));
    assert!(email.matches(&query("QUARTERLY")));
    assert!(email.matches(&query("alice@example")));
    assert!(email.matches(&query("numbers")));
    assert!(email.matches(&query("")));
    assert!(!email.matches(&query("reports")));
    assert!(!email.matches(&query("bob")));
}

#[test]
fn a_message_without_subject_and_sender_is_searched_by_its_body() {
    let email = EmailData::from_parsed(
        "raw".to_string(),
        at(0, 0),
        Some(ParsedMessage { headers: vec![], body: Some("Only Body".to_string()), subparts: vec![] }),
    );
    assert!(email.matches(&SearchQuery::new(Some("only".to_string()))));
    assert!(!email.matches(&SearchQuery::new(Some("raw".to_string()))));
}

#[test]
fn listing_entry_accessors() {
    let email = Email::new_all(3, "text".to_string());
    assert_eq!(email.get_id(), 3);
    assert_eq!(email.get_content(), "text");
}

#[test]
fn search_query_accessor() {
    assert_eq!(SearchQuery::new(None).get_q(), &None);
    assert_eq!(SearchQuery::new(Some("q".to_string())).get_q(), &Some("q".to_string()));
}

#[test]
fn attachment_constructor_and_shared_data() {
    let attachment = AttachmentData::new(Some("n".to_string()), "text/plain".to_string(), vec![1, 2, 3]);
    let shared = attachment.get_data_arc();
    assert_eq!(*shared, vec![1, 2, 3]);
    assert!(std::sync::Arc::ptr_eq(&shared, attachment.get_data()));
}
