use rust_mail::email::{EmailData, ReceivedTime};
use rust_mail::http::http_html_service::HtmlData;
use rust_mail::mime::{Disposition, MailHeader, MailPart, ParsedMessage};

fn record(subject: Option<&str>, from: Option<&str>, body: &str, names: Vec<Option<&str>>) -> EmailData {
    let mut headers = vec![];
    if let Some(subject) = subject {
        headers.push(MailHeader { key: "Subject".to_string(), value: subject.to_string() });
    }
    if let Some(from) = from {
        headers.push(MailHeader { key: "From".to_string(), value: from.to_string() });
    }
    let mut subparts = vec![];
    if !names.is_empty() {
        subparts.push(MailPart {
            mimetype: "text/plain".to_string(),
            disposition: Disposition::Inline,
            filename: None,
            body: Some(body.to_string()),
            body_raw: Some(body.as_bytes().to_vec()),
        });
    }
    for name in names {
        subparts.push(MailPart {
            mimetype: "application/octet-stream".to_string(),
            disposition: Disposition::Attachment,
            filename: name.map(|n| n.to_string()),
            body: None,
            body_raw: Some(vec![1]),
        });
    }
    let parsed = ParsedMessage { headers, body: Some(body.to_string()), subparts };
    EmailData::from_parsed("raw".to_string(), ReceivedTime { seconds: 0, offset: 0 }, Some(parsed))
}

const SMALL: &str = "[$mail_list|$mail_header|$mail_file|$mail_body]";

#[test]
fn the_built_in_page_holds_the_four_markers() {
    let page = HtmlData::init();
    let html = page.get_html_content();
    assert!(html.starts_with("<!DOCTYPE html>\n<html lang=\"ja\">"));
    assert!(html.ends_with("</body>\n</html>\n"));
    assert_eq!(html.len(), HtmlData::init().get_html_content().len());
    for marker in ["$mail_list", "$mail_header", "$mail_file", "$mail_body"] {
        assert_eq!(html.matches(marker).count(), 1);
    }
    assert!(html.contains("<title>Rust Mail</title>"));
}

#[test]
fn a_page_keeps_the_template_it_was_given() {
    assert_eq!(HtmlData::new(SMALL.to_string()).get_html_content(), SMALL);
}

#[test]
fn without_messages_the_markers_are_taken_out() {
    let page = HtmlData::new(SMALL.to_string());
    assert_eq!(page.create_mail_list_element(&vec![]), "[|||]");
    let filled = HtmlData::init().create_mail_list_element(&vec![]);
    assert!(!filled.contains("$mail_"));
    assert_eq!(filled.len(), HtmlData::init().get_html_content().len() - 42);
}

#[test]
fn one_message_fills_each_marker() {
    let page = HtmlData::new(SMALL.to_string());
    let emails = vec![record(Some("Hi"), Some("a@example.com"), "1 < 2 & \"x\" > 'y'", vec![Some("f.txt"), None, Some("g.bin")])];
    let expected = [
        "[",
        "<div class=\"mail-item\"><div class=\"mail-summary\">Some(\"Hi\")</div>",
        "<div class=\"mail-date\">2025-02-06 12:34</div></div>",
        "|",
        "<div class=\"subject\">Some(\"Hi\")</div><div class=\"sender\">Some(\"a@example.com\")</div>",
        "|",
        "<div class=\"file-item\">f.txt</div><div class=\"file-item\">g.bin</div>",
        "|",
        "<p>1 &lt; 2 &amp; &quot;x&quot; &gt; &#x27;y&#x27;</p>",
        "]",
    ]
    .concat();
    assert_eq!(page.create_mail_list_element(&emails), expected);
}

#[test]
fn messages_are_listed_in_their_order() {
    let page = HtmlData::new("$mail_body;$mail_header".to_string());
    let emails = vec![record(None, None, "one", vec![]), record(Some("s"), None, "two", vec![])];
    assert_eq!(
        page.create_mail_list_element(&emails),
        [
        "<p>one</p><p>two</p>;",
        "<div class=\"subject\">None</div><div class=\"sender\">None</div>",
        "<div class=\"subject\">Some(\"s\")</div><div class=\"sender\">None</div>",
    ]
    .concat()
    );
}

#[test]
fn every_occurrence_of_a_marker_is_replaced() {
    let page = HtmlData::new("$mail_body $mail_body$mail_bod".to_string());
    let emails = vec![record(None, None, "b", vec![])];
    assert_eq!(page.create_mail_list_element(&emails), "<p>b</p> <p>b</p>$mail_bod");
}

#[test]
fn the_subject_is_written_in_its_debug_form() {
    let page = HtmlData::new("$mail_list".to_string());
    let emails = vec![record(Some("say \"hi\"\n"), None, "", vec![])];
    assert_eq!(
        page.create_mail_list_element(&emails),
        [
        "<div class=\"mail-item\"><div class=\"mail-summary\">Some(\"say \\\"hi\\\"\\n\")</div>",
        "<div class=\"mail-date\">2025-02-06 12:34</div></div>",
    ]
    .concat()
    );
}

#[test]
fn markers_in_earlier_markup_are_replaced_by_later_steps() {
    let page = HtmlData::new("$mail_file".to_string());
    let emails = vec![record(None, None, "x", vec![Some("$mail_body")])];
    assert_eq!(
        page.create_mail_list_element(&emails),
        "<div class=\"file-item\"><p>x</p></div>"
    );
}
