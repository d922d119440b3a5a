//! The page that lists the received messages: a template, and the markup
//! that is put in the place of each of its four markers.

use crate::email::{attachment_views, AttachmentData, AttachmentView, EmailData, EmailView};
use crate::text::{debug_option, debug_text, replace, replace_of};
use vstd::prelude::*;
use vstd::string::StringExecFns;

verus! {

/// The page with its four markers, `$mail_list`, `$mail_header`,
/// `$mail_file` and `$mail_body`.
pub const PAGE_TEMPLATE: &'static str = r#"<!DOCTYPE html>
<html lang="ja">
<head>
  <meta charset="UTF-8">
  <meta name="viewport" content="width=device-width, initial-scale=1">
  <title>Rust Mail</title>
  <style>
    /* リセット */
    * {
      margin: 0;
      padding: 0;
      box-sizing: border-box;
    }
    
    body {
      font-family: Arial, sans-serif;
      background-color: #f5f5f5;
      color: #333;
    }
    
    /* コンテナ：サイドバーとコンテンツ部分を横並びに */
    .container {
      display: flex;
      height: 100vh;
    }
    
    /* サイドバー：メール一覧 */
    .sidebar {
      width: 300px;
      background-color: #fff;
      border-right: 1px solid #ddd;
      overflow-y: auto;
    }
    
    /* 各メール項目 */
    .mail-item {
      padding: 15px;
      border-bottom: 1px solid #ddd;
      cursor: pointer;
      transition: background-color 0.2s ease;
    }
    
    .mail-item:hover {
      background-color: #f0f0f0;
    }
    
    .mail-item.active {
      background-color: #e0e0e0;
    }
    
    .mail-summary {
      font-size: 14px;
      font-weight: bold;
    }
    
    .mail-date {
      font-size: 12px;
      color: #999;
      margin-top: 5px;
    }
    
    /* メール詳細部分 */
    .content {
      flex: 1;
      padding: 20px;
      overflow-y: auto;
    }
    
    .header {
      margin-bottom: 20px;
      border-bottom: 1px solid #ddd;
      padding-bottom: 10px;
    }
    
    .subject {
      font-size: 20px;
      margin-bottom: 10px;
    }
    
    .sender {
      font-size: 14px;
      color: #555;
      margin-bottom: 10px;
    }

    .file {
      margin-bottom: 20px;
      border-bottom: 1px solid #ddd;
      padding-bottom: 10px;
      display: flex;
    }

    .file-item {
      align-items: center;
      justify-content: space-between;
      padding: 10px;
      margin: 5px 5px;
      border: 1px solid #ccc;
      border-radius: 8px;
      background-color: #f9f9f9;
      box-shadow: 0 2px 4px rgba(0, 0, 0, 0.1);
      width: 150px;
      text-overflow: ellipsis;
      overflow: hidden; 
    }
  
    .body {
      font-size: 16px;
      line-height: 1.5;
    }
    
    /* レスポンシブ対応：画面が狭い場合は縦並びに */
    @media (max-width: 768px) {
      .container {
        flex-direction: column;
      }
      .sidebar {
        width: 100%;
        max-height: 200px;
        border-right: none;
        border-bottom: 1px solid #ddd;
      }
    }
  </style>
</head>
<body>
  <div class="container">
    <!-- サイドバー：メール一覧 -->
    <div class="sidebar">
        $mail_list
    </div>
    
    <!-- メール詳細部分 -->
    <div class="content">
      <div class="header">
            $mail_header
      </div>
      <div class="file">
        $mail_file
      </div>
      <div class="body">
            $mail_body
      </div>
    </div>
  </div>
    <script>
      const ws = new WebSocket("ws://" + location.host + "/ws");
      ws.onmessage = function(event) {
        const data = event.data;
        const emailList = document.getElementById("email-list");
        const p = document.createElement("p");
        p.textContent = data;
        emailList.appendChild(p);
      };
    </script>
</body>
</html>
"#;

pub const MAIL_LIST_MARKER: &'static str = "$mail_list";

pub const MAIL_HEADER_MARKER: &'static str = "$mail_header";

pub const MAIL_FILE_MARKER: &'static str = "$mail_file";

pub const MAIL_BODY_MARKER: &'static str = "$mail_body";

/// The markup of one character: the five characters that HTML gives a
/// meaning are written as entities, every other as itself.
pub open spec fn entity_of(c: char) -> Seq<char> {
    if c == '"' {
        "&quot;"@
    } else if c == '&' {
        "&amp;"@
    } else if c == '\'' {
        "&#x27;"@
    } else if c == '<' {
        "&lt;"@
    } else if c == '>' {
        "&gt;"@
    } else {
        seq![c]
    }
}

/// A text with each of its characters written as markup.
pub open spec fn escaped(s: Seq<char>) -> Seq<char>
    decreases s.len(),
{
    if s.len() == 0 {
        Seq::empty()
    } else {
        escaped(s.drop_last()) + entity_of(s.last())
    }
}

/// `htmlescape::encode_minimal`: `s` with `"`, `&`, `'`, `<` and `>` each
/// replaced by its entity and every other character kept.
#[verifier::external_body]
pub(crate) fn encode_minimal(s: &str) -> (r: String)
    ensures
        r@ == escaped(s@),
{
    htmlescape::encode_minimal(s)
}

/// The entry of one message in the list.
pub open spec fn list_item(email: EmailView) -> Seq<char> {
    "<div class=\"mail-item\">"@ + "<div class=\"mail-summary\">"@ + debug_text(email.subject)
        + "</div>"@ + "<div class=\"mail-date\">2025-02-06 12:34</div>"@ + "</div>"@
}

/// The subject and the sender of one message.
pub open spec fn header_item(email: EmailView) -> Seq<char> {
    "<div class=\"subject\">"@ + debug_text(email.subject) + "</div>"@
        + "<div class=\"sender\">"@ + debug_text(email.from) + "</div>"@
}

/// The names of the attachments that have one, each in its box.
pub open spec fn file_items(attachments: Seq<AttachmentView>) -> Seq<char>
    decreases attachments.len(),
{
    if attachments.len() == 0 {
        Seq::empty()
    } else {
        file_items(attachments.drop_last()) + match attachments.last().filename {
            Some(name) => "<div class=\"file-item\">"@ + name + "</div>"@,
            None => Seq::empty(),
        }
    }
}

/// The body of one message as a paragraph.
pub open spec fn body_item(email: EmailView) -> Seq<char> {
    "<p>"@ + escaped(email.body) + "</p>"@
}

/// The four runs of markup for a sequence of messages: the list, the
/// headers, the attachments and the bodies, each in the order of the
/// messages.
pub open spec fn sections_of(emails: Seq<EmailData>) -> (Seq<char>, Seq<char>, Seq<char>, Seq<char>)
    decreases emails.len(),
{
    if emails.len() == 0 {
        (Seq::empty(), Seq::empty(), Seq::empty(), Seq::empty())
    } else {
        let before = sections_of(emails.drop_last());
        let email = emails.last()@;
        (
            before.0 + list_item(email),
            before.1 + header_item(email),
            before.2 + file_items(email.attachments),
            before.3 + body_item(email),
        )
    }
}

/// The page for a sequence of messages: the template with each marker
/// replaced by its run of markup, one marker after the other.
pub open spec fn page_of(template: Seq<char>, emails: Seq<EmailData>) -> Seq<char> {
    let sections = sections_of(emails);
    replace_of(
        replace_of(
            replace_of(
                replace_of(template, MAIL_LIST_MARKER@, sections.0),
                MAIL_HEADER_MARKER@,
                sections.1,
            ),
            MAIL_FILE_MARKER@,
            sections.2,
        ),
        MAIL_BODY_MARKER@,
        sections.3,
    )
}

/// The markup for the attachments of one message.
fn render_files(attachments: &Vec<AttachmentData>) -> (markup: String)
    ensures
        markup@ == file_items(attachment_views(attachments@)),
{
    let mut markup = String::new();
    let mut i: usize = 0;
    assert(attachment_views(attachments@).subrange(0, 0) == Seq::<AttachmentView>::empty());
    while i < attachments.len()
        invariant
            i <= attachments@.len(),
            markup@ == file_items(attachment_views(attachments@).subrange(0, i as int)),
        decreases attachments@.len() - i,
    {
        proof {
            let views = attachment_views(attachments@);
            assert(views.subrange(0, i + 1).drop_last() == views.subrange(0, i as int));
            assert(views.subrange(0, i + 1).last() == attachments@[i as int]@);
        }
        if let Some(name) = attachments[i].get_filename() {
            let ghost before = markup@;
            markup.append("<div class=\"file-item\">");
            markup.append(name.as_str());
            markup.append("</div>");
            assert(markup@ == before + ("<div class=\"file-item\">"@ + name@ + "</div>"@));
        }
        i += 1;
    }
    assert(attachment_views(attachments@).subrange(0, i as int) == attachment_views(attachments@));
    markup
}

/// The page that a viewer is served.
#[derive(Debug)]
pub struct HtmlData {
    html: String,
}

impl HtmlData {
    /// The text of the page, markers included.
    pub closed spec fn content(&self) -> Seq<char> {
        self.html@
    }

    /// The page made from the built-in template.
    pub fn init() -> (page: HtmlData)
        ensures
            page.content() == PAGE_TEMPLATE@,
    {
        HtmlData { html: PAGE_TEMPLATE.to_owned() }
    }

    /// The page made from another template.
    pub fn new(html: String) -> (page: HtmlData)
        ensures
            page.content() == html@,
    {
        HtmlData { html }
    }

    /// Fills the markers of the page with the markup for `emails`.
    pub fn create_mail_list_element(&self, emails: &Vec<EmailData>) -> (page: String)
        ensures
            page@ == page_of(self.content(), emails@),
    {
        let mut mail_list_element = String::new();
        let mut mail_header_element = String::new();
        let mut mail_file_item_element = String::new();
        let mut mail_body_element = String::new();
        let mut i: usize = 0;
        assert(emails@.subrange(0, 0) == Seq::<EmailData>::empty());
        while i < emails.len()
            invariant
                i <= emails@.len(),
                (
                    mail_list_element@,
                    mail_header_element@,
                    mail_file_item_element@,
                    mail_body_element@,
                ) == sections_of(emails@.subrange(0, i as int)),
            decreases emails@.len() - i,
        {
            let email = &emails[i];
            proof {
                let upto = emails@.subrange(0, i + 1);
                assert(upto.drop_last() == emails@.subrange(0, i as int));
                assert(upto.last() == *email);
            }
            let subject = debug_option(email.get_subject());
            let from = debug_option(email.get_from());
            let ghost list_before = mail_list_element@;
            mail_list_element.append("<div class=\"mail-item\">");
            mail_list_element.append("<div class=\"mail-summary\">");
            mail_list_element.append(subject.as_str());
            mail_list_element.append("</div>");
            mail_list_element.append("<div class=\"mail-date\">2025-02-06 12:34</div>");
            mail_list_element.append("</div>");
            assert(mail_list_element@ == list_before + list_item(email@));
            let ghost header_before = mail_header_element@;
            mail_header_element.append("<div class=\"subject\">");
            mail_header_element.append(subject.as_str());
            mail_header_element.append("</div>");
            mail_header_element.append("<div class=\"sender\">");
            mail_header_element.append(from.as_str());
            mail_header_element.append("</div>");
            assert(mail_header_element@ == header_before + header_item(email@));
            mail_file_item_element.append(render_files(email.get_attachments()).as_str());
            let ghost body_before = mail_body_element@;
            mail_body_element.append("<p>");
            mail_body_element.append(encode_minimal(email.get_body().as_str()).as_str());
            mail_body_element.append("</p>");
            assert(mail_body_element@ == body_before + body_item(email@));
            i += 1;
        }
        assert(emails@.subrange(0, i as int) == emails@);
        proof {
            reveal_strlit("$mail_list");
            reveal_strlit("$mail_header");
            reveal_strlit("$mail_file");
            reveal_strlit("$mail_body");
        }
        let page = replace(self.html.as_str(), MAIL_LIST_MARKER, mail_list_element.as_str());
        let page = replace(page.as_str(), MAIL_HEADER_MARKER, mail_header_element.as_str());
        let page = replace(page.as_str(), MAIL_FILE_MARKER, mail_file_item_element.as_str());
        replace(page.as_str(), MAIL_BODY_MARKER, mail_body_element.as_str())
    }

    /// The text of the page, markers included.
    pub fn get_html_content(&self) -> (r: &str)
        ensures
            r@ == self.content(),
    {
        self.html.as_str()
    }
}

} // verus!
