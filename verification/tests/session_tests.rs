use rust_mail::command::WebSocketCommand;
use rust_mail::session::{
    Action, Event, Next, Phase, ReadOutcome, Session, TransportMode, WriteOutcome,
};
use rust_mail::text::join;

fn line(text: &str) -> Event {
    Event::Line(text.to_string())
}

fn started(tls_available: bool) -> Session {
    let (session, action) = Session::new(1, tls_available).step(Event::Connected);
    assert_eq!(action.reply, Some("220 Rust SMTP Server Ready\r\n"));
    session
}

fn send(session: Session, text: &str) -> (Session, Action) {
    session.step(line(text))
}

fn expect_reply(session: Session, text: &str, reply: &str) -> Session {
    let (session, action) = send(session, text);
    assert_eq!(action.reply, Some(reply));
    assert_eq!(action.deliver, None);
    assert_eq!(action.publish, None);
    assert_eq!(action.next, Next::Read);
    session
}

#[test]
fn a_new_session_greets() {
    let session = Session::new(7, false);
    assert_eq!(session.get_id(), 7);
    assert_eq!(session.get_mode(), TransportMode::Plaintext);
    assert!(!session.get_auth().get_authenticated());
    assert!(matches!(session.get_phase(), Phase::Greeting));
    let (session, action) = session.step(Event::Connected);
    assert_eq!(action.reply, Some("220 Rust SMTP Server Ready\r\n"));
    assert_eq!(action.deliver, None);
    assert_eq!(action.next, Next::Read);
    assert!(matches!(session.get_phase(), Phase::CommandLoop));
    assert_eq!(session.get_id(), 7);
}

#[test]
fn helo_is_acknowledged() {
    let session = started(true);
    expect_reply(session, "HELO example.com\r\n", "250 Hello\r\n");
}

#[test]
fn ehlo_without_tls_is_a_plain_hello() {
    let session = started(false);
    expect_reply(session, "EHLO example.com\r\n", "250 Hello\r\n");
}

#[test]
fn ehlo_with_tls_advertises_starttls() {
    let session = started(true);
    expect_reply(
        session,
        "EHLO example.com\r\n",
        "250-MyRustSMTP\r\n250-STARTTLS\r\n250 AUTH PLAIN LOGIN\r\n",
    );
}

#[test]
fn commands_are_matched_in_any_case() {
    let session = started(false);
    let session = expect_reply(session, "helo example.com\r\n", "250 Hello\r\n");
    let session = expect_reply(session, "Mail From:<a@example.com>\r\n", "250 Ok\r\n");
    let session = expect_reply(session, "rcpt to:<b@example.com>\r\n", "250 Ok\r\n");
    let (session, action) = send(session, "quit\r\n");
    assert_eq!(action.reply, Some("221 Bye\r\n"));
    assert!(session.is_closed());
}

#[test]
fn whitespace_around_a_command_is_dropped() {
    let session = started(false);
    let session = expect_reply(session, "  HELO example.com  \r\n", "250 Hello\r\n");
    expect_reply(session, "\tDATA\n", "354 End data with <CR><LF>.<CR><LF>\r\n");
}

#[test]
fn envelope_commands_are_accepted_in_any_order() {
    let session = started(false);
    let session = expect_reply(session, "RCPT TO:<b@example.com>\r\n", "250 Ok\r\n");
    let session = expect_reply(session, "MAIL FROM:<a@example.com>\r\n", "250 Ok\r\n");
    let session = expect_reply(session, "RCPT TO:<c@example.com>\r\n", "250 Ok\r\n");
    assert!(matches!(session.get_phase(), Phase::CommandLoop));
}

#[test]
fn unknown_commands_are_answered() {
    let session = started(false);
    let session = expect_reply(session, "FOO\r\n", "500 Unrecongnized command\r\n");
    let session = expect_reply(session, "\r\n", "500 Unrecongnized command\r\n");
    expect_reply(session, "AUTH LOGIN\r\n", "500 Unrecongnized command\r\n");
}

#[test]
fn quit_closes_the_session() {
    let session = started(false);
    let (session, action) = send(session, "QUIT\r\n");
    assert_eq!(action.reply, Some("221 Bye\r\n"));
    assert_eq!(action.next, Next::Close);
    assert_eq!(action.deliver, None);
    assert!(session.is_closed());
}

#[test]
fn end_of_stream_closes_the_session() {
    let session = started(false);
    let (session, action) = session.step(Event::EndOfStream);
    assert_eq!(action.reply, None);
    assert_eq!(action.next, Next::Close);
    assert!(session.is_closed());
}

#[test]
fn a_failure_closes_the_session() {
    let session = started(true);
    let (session, action) = session.step(Event::Failed);
    assert_eq!(action.reply, None);
    assert_eq!(action.deliver, None);
    assert_eq!(action.next, Next::Close);
    assert!(session.is_closed());
}

#[test]
fn a_closed_session_stays_closed() {
    let session = started(false);
    let (session, _) = send(session, "QUIT\r\n");
    let (session, action) = send(session, "HELO again\r\n");
    assert_eq!(action.reply, None);
    assert_eq!(action.next, Next::Close);
    assert!(session.is_closed());
    let (session, action) = session.step(Event::Connected);
    assert_eq!(action.reply, None);
    assert!(session.is_closed());
}

#[test]
fn a_line_before_the_greeting_closes_the_session() {
    let (session, action) = Session::new(3, true).step(line("HELO early\r\n"));
    assert_eq!(action.reply, None);
    assert_eq!(action.next, Next::Close);
    assert!(session.is_closed());
}

#[test]
fn data_is_delivered_as_the_lines_joined() {
    let session = started(false);
    let session = expect_reply(session, "DATA\r\n", "354 End data with <CR><LF>.<CR><LF>\r\n");
    assert!(matches!(session.get_phase(), Phase::DataCollection(lines) if lines.is_empty()));
    let (session, action) = send(session, "Subject: hi\r\n");
    assert_eq!(action.reply, None);
    assert_eq!(action.deliver, None);
    assert_eq!(action.publish, None);
    assert_eq!(action.next, Next::Read);
    let (session, _) = send(session, "\r\n");
    let (session, _) = send(session, "first line\r\n");
    let (session, _) = send(session, "second line\n");
    let (session, action) = send(session, ".\r\n");
    assert_eq!(action.deliver, Some("Subject: hi\r\n\r\nfirst line\r\nsecond line\n".to_string()));
    assert_eq!(action.publish, Some(WebSocketCommand::Update));
    assert_eq!(action.reply, Some("250 Ok:queued\r\n"));
    assert_eq!(action.next, Next::Read);
    assert!(matches!(session.get_phase(), Phase::CommandLoop));
    expect_reply(session, "HELO again\r\n", "250 Hello\r\n");
}

#[test]
fn data_without_lines_is_an_empty_message() {
    let session = started(false);
    let (session, _) = send(session, "DATA\r\n");
    let (_, action) = send(session, ".\r\n");
    assert_eq!(action.deliver, Some(String::new()));
    assert_eq!(action.reply, Some("250 Ok:queued\r\n"));
}

#[test]
fn commands_inside_data_are_content() {
    let session = started(true);
    let (session, _) = send(session, "DATA\r\n");
    let (session, action) = send(session, "QUIT\r\n");
    assert_eq!(action.reply, None);
    assert!(!session.is_closed());
    let (session, action) = send(session, "STARTTLS\r\n");
    assert_eq!(action.reply, None);
    assert_eq!(action.next, Next::Read);
    let (_, action) = send(session, ".\r\n");
    assert_eq!(action.deliver, Some("QUIT\r\nSTARTTLS\r\n".to_string()));
}

#[test]
fn the_terminator_may_trail_whitespace_but_not_lead_it() {
    let session = started(false);
    let (session, _) = send(session, "DATA\r\n");
    let (session, action) = send(session, " .\r\n");
    assert_eq!(action.deliver, None);
    let (session, action) = send(session, "..\r\n");
    assert_eq!(action.deliver, None);
    let (session, action) = send(session, ".a\r\n");
    assert_eq!(action.deliver, None);
    let (session, action) = send(session, ". \t\r\n");
    assert_eq!(action.deliver, Some(" .\r\n..\r\n.a\r\n".to_string()));
    assert!(matches!(session.get_phase(), Phase::CommandLoop));
}

#[test]
fn a_bare_dot_without_line_end_terminates() {
    let session = started(false);
    let (session, _) = send(session, "DATA\r\n");
    let (session, _) = send(session, "x\r\n");
    let (_, action) = send(session, ".");
    assert_eq!(action.deliver, Some("x\r\n".to_string()));
}

#[test]
fn end_of_stream_inside_data_delivers_what_was_collected() {
    let session = started(false);
    let (session, _) = send(session, "DATA\r\n");
    let (session, _) = send(session, "partial\r\n");
    let (session, action) = session.step(Event::EndOfStream);
    assert_eq!(action.deliver, Some("partial\r\n".to_string()));
    assert_eq!(action.publish, Some(WebSocketCommand::Update));
    assert_eq!(action.reply, Some("250 Ok:queued\r\n"));
    assert_eq!(action.next, Next::Read);
    assert!(matches!(session.get_phase(), Phase::CommandLoop));
    let (session, action) = session.step(Event::EndOfStream);
    assert_eq!(action.reply, None);
    assert_eq!(action.next, Next::Close);
    assert!(session.is_closed());
}

#[test]
fn starttls_without_tls_is_refused_and_the_session_goes_on() {
    let session = started(false);
    let session = expect_reply(session, "STARTTLS\r\n", "500 STARTTLS not supported\r\n");
    assert!(!session.is_encrypted());
    assert!(matches!(session.get_phase(), Phase::CommandLoop));
    let session = expect_reply(session, "HELO example.com\r\n", "250 Hello\r\n");
    let session = expect_reply(session, "MAIL FROM:<a@example.com>\r\n", "250 Ok\r\n");
    let (session, _) = send(session, "DATA\r\n");
    let (session, _) = send(session, "still works\r\n");
    let (_, action) = send(session, ".\r\n");
    assert_eq!(action.deliver, Some("still works\r\n".to_string()));
}

#[test]
fn starttls_upgrades_and_the_session_goes_on_encrypted() {
    let session = started(true);
    let session = expect_reply(
        session,
        "EHLO client\r\n",
        "250-MyRustSMTP\r\n250-STARTTLS\r\n250 AUTH PLAIN LOGIN\r\n",
    );
    let (session, action) = send(session, "STARTTLS\r\n");
    assert_eq!(action.reply, Some("220 Ready to start TLS\r\n"));
    assert_eq!(action.next, Next::Handshake);
    assert!(matches!(session.get_phase(), Phase::Upgrading));
    assert!(!session.is_encrypted());
    let (session, action) = session.step(Event::Upgraded);
    assert_eq!(action.reply, None);
    assert_eq!(action.deliver, None);
    assert_eq!(action.next, Next::Read);
    assert!(session.is_encrypted());
    assert_eq!(session.get_mode(), TransportMode::Encrypted);
    let session = expect_reply(
        session,
        "EHLO client\r\n",
        "250-MyRustSMTP\r\n250-STARTTLS\r\n250 AUTH PLAIN LOGIN\r\n",
    );
    let session = expect_reply(session, "MAIL FROM:<a@example.com>\r\n", "250 Ok\r\n");
    let session = expect_reply(session, "RCPT TO:<b@example.com>\r\n", "250 Ok\r\n");
    let session = expect_reply(session, "DATA\r\n", "354 End data with <CR><LF>.<CR><LF>\r\n");
    let (session, action) = send(session, "hello");
    assert_eq!(action.reply, None);
    let (session, action) = send(session, ".\r\n");
    assert_eq!(action.reply, Some("250 Ok:queued\r\n"));
    assert_eq!(action.deliver, Some("hello".to_string()));
    assert!(session.is_encrypted());
}

#[test]
fn a_second_starttls_changes_nothing() {
    let session = started(true);
    let (session, _) = send(session, "STARTTLS\r\n");
    let (session, _) = session.step(Event::Upgraded);
    let session = expect_reply(session, "STARTTLS\r\n", "503 TLS already active\r\n");
    assert!(session.is_encrypted());
    assert!(matches!(session.get_phase(), Phase::CommandLoop));
}

#[test]
fn a_failed_handshake_closes_the_session() {
    let session = started(true);
    let (session, _) = send(session, "STARTTLS\r\n");
    let (session, action) = session.step(Event::Failed);
    assert_eq!(action.reply, None);
    assert_eq!(action.next, Next::Close);
    assert!(session.is_closed());
    assert!(!session.is_encrypted());
}

#[test]
fn a_line_during_the_handshake_closes_the_session() {
    let session = started(true);
    let (session, _) = send(session, "STARTTLS\r\n");
    let (session, action) = send(session, "EHLO too early\r\n");
    assert_eq!(action.reply, None);
    assert!(session.is_closed());
    assert!(!session.is_encrypted());
}

#[test]
fn an_upgrade_that_was_not_asked_for_closes_the_session() {
    let session = started(true);
    let (session, action) = session.step(Event::Upgraded);
    assert_eq!(action.next, Next::Close);
    assert!(session.is_closed());
    assert!(!session.is_encrypted());
}

#[test]
fn auth_plain_then_an_unknown_command() {
    let session = started(false);
    let session = expect_reply(
        session,
        "AUTH PLAIN AGJvYgBzZWNyZXQ=\r\n",
        "235 Authentication successful\r\n",
    );
    assert!(session.get_auth().get_authenticated());
    assert_eq!(session.get_auth().get_username(), "bob");
    assert_eq!(session.get_auth().get_password(), "secret");
    let session = expect_reply(session, "FOO\r\n", "500 Unrecongnized command\r\n");
    assert!(session.get_auth().get_authenticated());
}

#[test]
fn the_verb_is_matched_in_any_case_but_the_token_is_kept() {
    let session = started(false);
    let session = expect_reply(
        session,
        "auth plain AGJvYgBzZWNyZXQ=\r\n",
        "235 Authentication successful\r\n",
    );
    assert_eq!(session.get_auth().get_username(), "bob");
}

#[test]
fn auth_failures_are_answered_and_the_session_goes_on() {
    let session = started(false);
    let session = expect_reply(session, "AUTH PLAIN\r\n", "501 Syntax: AUTH PLAIN <credentials>\r\n");
    let session = expect_reply(session, "AUTH PLAIN !!!\r\n", "501 Invalid base64 encoding\r\n");
    let session = expect_reply(session, "AUTH PLAIN Ym9i\r\n", "535 Authentication failed\r\n");
    let session = expect_reply(session, "AUTH PLAIN AABzZWNyZXQ=\r\n", "501 Missing credentials\r\n");
    assert!(!session.get_auth().get_authenticated());
    assert!(matches!(session.get_phase(), Phase::CommandLoop));
    expect_reply(session, "HELO example.com\r\n", "250 Hello\r\n");
}

#[test]
fn auth_plain_works_the_same_when_encrypted() {
    let session = started(true);
    let (session, _) = send(session, "STARTTLS\r\n");
    let (session, _) = session.step(Event::Upgraded);
    let session = expect_reply(
        session,
        "AUTH PLAIN AGJvYgBzZWNyZXQ=\r\n",
        "235 Authentication successful\r\n",
    );
    assert!(session.get_auth().get_authenticated());
    expect_reply(session, "AUTH PLAIN !!!\r\n", "501 Invalid base64 encoding\r\n");
}

#[test]
fn join_concatenates_in_order() {
    assert_eq!(join(&vec![]), "");
    assert_eq!(
        join(&vec!["a\r\n".to_string(), "".to_string(), "b".to_string()]),
        "a\r\nb"
    );
}

fn read(bytes: usize, text: &str) -> ReadOutcome {
    ReadOutcome::Read { bytes, line: text.to_string() }
}

fn encrypted() -> Session {
    let session = started(true);
    let (session, _) = send(session, "STARTTLS\r\n");
    let (session, _) = session.step(Event::Upgraded);
    session
}

#[test]
fn a_read_of_no_bytes_is_the_end_of_the_stream() {
    let session = started(false);
    assert!(matches!(session.event_of_read(read(0, "")), Event::EndOfStream));
    assert!(matches!(encrypted().event_of_read(read(0, "")), Event::EndOfStream));
}

#[test]
fn a_read_of_some_bytes_is_a_line() {
    let session = started(false);
    assert!(matches!(session.event_of_read(read(6, "HELO\r\n")), Event::Line(line) if line == "HELO\r\n"));
    assert!(matches!(session.event_of_read(read(1, "\n")), Event::Line(line) if line == "\n"));
    assert!(matches!(encrypted().event_of_read(read(3, "a\r\n")), Event::Line(line) if line == "a\r\n"));
}

#[test]
fn an_unclean_close_ends_an_encrypted_stream_and_fails_a_plaintext_one() {
    assert!(matches!(encrypted().event_of_read(ReadOutcome::ClosedUncleanly), Event::EndOfStream));
    assert!(matches!(started(true).event_of_read(ReadOutcome::ClosedUncleanly), Event::Failed));
    assert!(matches!(encrypted().event_of_read(ReadOutcome::Failed), Event::Failed));
    assert!(matches!(started(false).event_of_read(ReadOutcome::Failed), Event::Failed));
}

#[test]
fn a_write_fails_the_session_unless_an_encrypted_peer_just_left() {
    assert!(!started(false).write_failed(WriteOutcome::Written));
    assert!(started(false).write_failed(WriteOutcome::ClosedUncleanly));
    assert!(started(false).write_failed(WriteOutcome::Failed));
    assert!(!encrypted().write_failed(WriteOutcome::Written));
    assert!(!encrypted().write_failed(WriteOutcome::ClosedUncleanly));
    assert!(encrypted().write_failed(WriteOutcome::Failed));
}
