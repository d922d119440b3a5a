//! The session state machine: what one connection answers to each thing that
//! happens on it, and what state it is in afterwards.
//!
//! The machine does no I/O. Whoever owns the connection reads from it and
//! writes to it, tells the machine what happened and carries out what the
//! machine answers.

use crate::auth::{
    authenticate_plain, plain_outcome, reply_text, reply_to, state_after, unauthenticated, Auth,
    AuthState,
};
use crate::command::{command_of, get_command_from_str, Command, WebSocketCommand};
use crate::constants::{
    BYE_MESSAGE, CAPABILITIES_MESSAGE, DATA_READY_MESSAGE, GREETING_MESSAGE, HELLO_MESSAGE,
    OK_MESSAGE, QUEUED_MESSAGE, STARTTLS_ACTIVE_MESSAGE, STARTTLS_MESSAGE,
    STARTTLS_NO_SUPPORTED_MESSAGE, UNRECOGNIZED_MESSAGE,
};
use crate::text::{
    join, same_text, texts_of, to_uppercase, trim, trim_end, trim_end_of, trim_of, uppercase_of,
};
use vstd::prelude::*;

verus! {

/// Whether the connection is encrypted.
#[derive(Clone, Copy, Debug, PartialEq, Eq, Structural)]
pub enum TransportMode {
    Plaintext,
    Encrypted,
}

/// Where a session is in its life.
#[derive(Debug)]
pub enum Phase {
    /// Accepted, the greeting not yet sent.
    Greeting,
    /// Waiting for a command.
    CommandLoop,
    /// Inside `DATA`, with the lines collected so far.
    DataCollection(Vec<String>),
    /// `STARTTLS` was accepted and the handshake is under way.
    Upgrading,
    /// Over: nothing more is read or written.
    Closed,
}

/// A `Phase` with its lines as texts.
pub enum PhaseState {
    Greeting,
    CommandLoop,
    DataCollection(Seq<Seq<char>>),
    Upgrading,
    Closed,
}

impl View for Phase {
    type V = PhaseState;

    open spec fn view(&self) -> PhaseState {
        match *self {
            Phase::Greeting => PhaseState::Greeting,
            Phase::CommandLoop => PhaseState::CommandLoop,
            Phase::DataCollection(lines) => PhaseState::DataCollection(texts_of(lines@)),
            Phase::Upgrading => PhaseState::Upgrading,
            Phase::Closed => PhaseState::Closed,
        }
    }
}

/// What happened on the connection.
#[derive(Debug)]
pub enum Event {
    /// The connection was accepted.
    Connected,
    /// A line was read, here with its line terminator.
    Line(String),
    /// The peer closed the connection.
    EndOfStream,
    /// The TLS handshake succeeded.
    Upgraded,
    /// Reading, writing or the handshake failed.
    Failed,
}

/// An `Event` with its line as a text.
pub enum Input {
    Connected,
    Line(Seq<char>),
    EndOfStream,
    Upgraded,
    Failed,
}

impl View for Event {
    type V = Input;

    open spec fn view(&self) -> Input {
        match *self {
            Event::Connected => Input::Connected,
            Event::Line(line) => Input::Line(line@),
            Event::EndOfStream => Input::EndOfStream,
            Event::Upgraded => Input::Upgraded,
            Event::Failed => Input::Failed,
        }
    }
}

/// How a read of one line ended.
#[derive(Debug)]
pub enum ReadOutcome {
    /// The read returned, with the number of bytes it read and the line.
    Read { bytes: usize, line: String },
    /// The peer closed the connection without the closing signal of the
    /// transport.
    ClosedUncleanly,
    /// Any other failure.
    Failed,
}

/// A `ReadOutcome` with its line as a text.
pub enum ReadResult {
    Read { bytes: usize, line: Seq<char> },
    ClosedUncleanly,
    Failed,
}

impl View for ReadOutcome {
    type V = ReadResult;

    open spec fn view(&self) -> ReadResult {
        match *self {
            ReadOutcome::Read { bytes, line } => ReadResult::Read { bytes, line: line@ },
            ReadOutcome::ClosedUncleanly => ReadResult::ClosedUncleanly,
            ReadOutcome::Failed => ReadResult::Failed,
        }
    }
}

/// How a write of a reply ended.
#[derive(Clone, Copy, Debug, PartialEq, Eq, Structural)]
pub enum WriteOutcome {
    Written,
    /// The peer closed the connection without the closing signal of the
    /// transport.
    ClosedUncleanly,
    /// Any other failure.
    Failed,
}

/// What a read means to a session in the given mode. A read of no bytes is
/// the end of the stream. On an encrypted connection a peer that closes
/// without the closing signal has ended the stream as well; in plaintext,
/// and for every other failure, the read has failed.
pub open spec fn input_of_read(mode: TransportMode, result: ReadResult) -> Input {
    match result {
        ReadResult::Read { bytes, line } => if bytes == 0 {
            Input::EndOfStream
        } else {
            Input::Line(line)
        },
        ReadResult::ClosedUncleanly => if mode == TransportMode::Encrypted {
            Input::EndOfStream
        } else {
            Input::Failed
        },
        ReadResult::Failed => Input::Failed,
    }
}

/// Whether a write that ended as given ends the session as a failure: a
/// write that failed does, but for the unclean close of an encrypted
/// connection, which the next read will report as the end of the stream.
pub open spec fn write_fails(mode: TransportMode, outcome: WriteOutcome) -> bool {
    match outcome {
        WriteOutcome::Written => false,
        WriteOutcome::ClosedUncleanly => mode != TransportMode::Encrypted,
        WriteOutcome::Failed => true,
    }
}

/// What the owner of the connection does after the reply is written.
#[derive(Clone, Copy, Debug, PartialEq, Eq, Structural)]
pub enum Next {
    /// Read the next line.
    Read,
    /// Perform the TLS handshake and report how it ended.
    Handshake,
    /// Close the connection.
    Close,
}

/// The machine's answer to an event. The owner of the connection carries it
/// out in the order of the fields: it appends the message to deliver to the
/// store, publishes the notification, writes the reply, each if there is
/// one, and then does what `next` says.
#[derive(Debug)]
pub struct Action {
    /// The text of a message that is complete.
    pub deliver: Option<String>,
    /// What the observers of the store are told.
    pub publish: Option<WebSocketCommand>,
    pub reply: Option<&'static str>,
    pub next: Next,
}

/// An `Action` with its strings as texts.
pub struct Effect {
    pub deliver: Option<Seq<char>>,
    pub publish: Option<WebSocketCommand>,
    pub reply: Option<Seq<char>>,
    pub next: Next,
}

impl View for Action {
    type V = Effect;

    open spec fn view(&self) -> Effect {
        Effect {
            deliver: match self.deliver {
                Some(content) => Some(content@),
                None => None,
            },
            publish: self.publish,
            reply: match self.reply {
                Some(reply) => Some(reply@),
                None => None,
            },
            next: self.next,
        }
    }
}

/// The state of one connection.
#[derive(Debug)]
pub struct Session {
    id: u64,
    tls_available: bool,
    mode: TransportMode,
    auth: Auth,
    phase: Phase,
}

/// A `Session` with its strings as texts.
pub struct SessionState {
    pub id: u64,
    pub tls_available: bool,
    pub mode: TransportMode,
    pub auth: AuthState,
    pub phase: PhaseState,
}

impl View for Session {
    type V = SessionState;

    closed spec fn view(&self) -> SessionState {
        SessionState {
            id: self.id,
            tls_available: self.tls_available,
            mode: self.mode,
            auth: self.auth@,
            phase: self.phase@,
        }
    }
}

/// The state of a connection that was just accepted.
pub open spec fn initial_state(id: u64, tls_available: bool) -> SessionState {
    SessionState {
        id,
        tls_available,
        mode: TransportMode::Plaintext,
        auth: unauthenticated(),
        phase: PhaseState::Greeting,
    }
}

/// The answer that only writes `reply`.
pub open spec fn say(reply: Seq<char>, next: Next) -> Effect {
    Effect { deliver: None, publish: None, reply: Some(reply), next }
}

/// The answer that writes nothing.
pub open spec fn silent(next: Next) -> Effect {
    Effect { deliver: None, publish: None, reply: None, next }
}

/// The command that a line as it was read stands for: the line is trimmed
/// and put in upper case before its verb is looked up.
pub open spec fn verb_of(line: Seq<char>) -> Command {
    command_of(uppercase_of(trim_of(line)))
}

/// Whether a line as it was read ends the message data: it holds a single
/// dot and, behind it, nothing but whitespace.
pub open spec fn is_terminator(line: Seq<char>) -> bool {
    trim_end_of(line) == seq!['.']
}

/// What a session that waits for a command does with a line.
pub open spec fn command_step(s: SessionState, line: Seq<char>) -> (SessionState, Effect) {
    match verb_of(line) {
        Command::Helo => (s, say(HELLO_MESSAGE@, Next::Read)),
        Command::Ehlo => if s.tls_available {
            (s, say(CAPABILITIES_MESSAGE@, Next::Read))
        } else {
            (s, say(HELLO_MESSAGE@, Next::Read))
        },
        Command::MailFrom => (s, say(OK_MESSAGE@, Next::Read)),
        Command::RcptTo => (s, say(OK_MESSAGE@, Next::Read)),
        Command::Data => (
            SessionState { phase: PhaseState::DataCollection(Seq::empty()), ..s },
            say(DATA_READY_MESSAGE@, Next::Read),
        ),
        Command::Quit => (
            SessionState { phase: PhaseState::Closed, ..s },
            say(BYE_MESSAGE@, Next::Close),
        ),
        Command::StartTls => if !s.tls_available {
            (s, say(STARTTLS_NO_SUPPORTED_MESSAGE@, Next::Read))
        } else if s.mode == TransportMode::Encrypted {
            (s, say(STARTTLS_ACTIVE_MESSAGE@, Next::Read))
        } else {
            (
                SessionState { phase: PhaseState::Upgrading, ..s },
                say(STARTTLS_MESSAGE@, Next::Handshake),
            )
        },
        Command::AuthPlain => (
            SessionState { auth: state_after(s.auth, plain_outcome(line)), ..s },
            say(reply_text(plain_outcome(line)), Next::Read),
        ),
        Command::AuthLogin => (s, say(UNRECOGNIZED_MESSAGE@, Next::Read)),
        Command::Unknown => (s, say(UNRECOGNIZED_MESSAGE@, Next::Read)),
    }
}

/// The answer that hands over the collected lines as one message, has the
/// observers told of it and acknowledges it.
pub open spec fn deliver(lines: Seq<Seq<char>>) -> Effect {
    Effect {
        deliver: Some(lines.flatten()),
        publish: Some(WebSocketCommand::Update),
        reply: Some(QUEUED_MESSAGE@),
        next: Next::Read,
    }
}

/// The transition function: the state after `input` and the answer to it.
///
/// A session greets once, then takes commands. Inside `DATA` every line is
/// content until the terminator or the end of the stream, and either of
/// them delivers what was collected. The handshake turns the session to
/// encrypted. Anything that cannot happen in the phase the session is in,
/// and any failure, closes it without a word.
pub open spec fn step_of(s: SessionState, input: Input) -> (SessionState, Effect) {
    match (s.phase, input) {
        (PhaseState::Greeting, Input::Connected) => (
            SessionState { phase: PhaseState::CommandLoop, ..s },
            say(GREETING_MESSAGE@, Next::Read),
        ),
        (PhaseState::CommandLoop, Input::Line(line)) => command_step(s, line),
        (PhaseState::DataCollection(lines), Input::Line(line)) => if is_terminator(line) {
            (SessionState { phase: PhaseState::CommandLoop, ..s }, deliver(lines))
        } else {
            (
                SessionState { phase: PhaseState::DataCollection(lines.push(line)), ..s },
                silent(Next::Read),
            )
        },
        (PhaseState::DataCollection(lines), Input::EndOfStream) => (
            SessionState { phase: PhaseState::CommandLoop, ..s },
            deliver(lines),
        ),
        (PhaseState::Upgrading, Input::Upgraded) => (
            SessionState { mode: TransportMode::Encrypted, phase: PhaseState::CommandLoop, ..s },
            silent(Next::Read),
        ),
        _ => (SessionState { phase: PhaseState::Closed, ..s }, silent(Next::Close)),
    }
}

impl Action {
    fn say(reply: &'static str, next: Next) -> (action: Action)
        ensures
            action@ == say(reply@, next),
    {
        Action { deliver: None, publish: None, reply: Some(reply), next }
    }

    fn silent(next: Next) -> (action: Action)
        ensures
            action@ == silent(next),
    {
        Action { deliver: None, publish: None, reply: None, next }
    }

    fn deliver(lines: &Vec<String>) -> (action: Action)
        ensures
            action@ == deliver(texts_of(lines@)),
    {
        Action {
            deliver: Some(join(lines)),
            publish: Some(WebSocketCommand::Update),
            reply: Some(QUEUED_MESSAGE),
            next: Next::Read,
        }
    }
}

impl Session {
    /// The session of a connection that was just accepted. `tls_available`
    /// says whether the server can upgrade connections to TLS.
    pub fn new(id: u64, tls_available: bool) -> (session: Session)
        ensures
            session@ == initial_state(id, tls_available),
    {
        Session {
            id,
            tls_available,
            mode: TransportMode::Plaintext,
            auth: Auth::default(),
            phase: Phase::Greeting,
        }
    }

    pub fn get_id(&self) -> (r: u64)
        ensures
            r == self@.id,
    {
        self.id
    }

    pub fn get_mode(&self) -> (r: TransportMode)
        ensures
            r == self@.mode,
    {
        self.mode
    }

    pub fn get_auth(&self) -> (r: &Auth)
        ensures
            r@ == self@.auth,
    {
        &self.auth
    }

    pub fn get_phase(&self) -> (r: &Phase)
        ensures
            r@ == self@.phase,
    {
        &self.phase
    }

    /// Whether the session is over.
    pub fn is_closed(&self) -> (r: bool)
        ensures
            r == (self@.phase == PhaseState::Closed),
    {
        match self.phase {
            Phase::Closed => true,
            _ => false,
        }
    }

    /// Whether the connection is encrypted.
    pub fn is_encrypted(&self) -> (r: bool)
        ensures
            r == (self@.mode == TransportMode::Encrypted),
    {
        match self.mode {
            TransportMode::Encrypted => true,
            TransportMode::Plaintext => false,
        }
    }

    /// The event that a read on this session's connection amounts to.
    pub fn event_of_read(&self, outcome: ReadOutcome) -> (event: Event)
        ensures
            event@ == input_of_read(self@.mode, outcome@),
    {
        match outcome {
            ReadOutcome::Read { bytes, line } => {
                if bytes == 0 {
                    Event::EndOfStream
                } else {
                    Event::Line(line)
                }
            },
            ReadOutcome::ClosedUncleanly => {
                if self.is_encrypted() {
                    Event::EndOfStream
                } else {
                    Event::Failed
                }
            },
            ReadOutcome::Failed => Event::Failed,
        }
    }

    /// Whether a write on this session's connection that ended as given is
    /// a failure of the session.
    pub fn write_failed(&self, outcome: WriteOutcome) -> (failed: bool)
        ensures
            failed == write_fails(self@.mode, outcome),
    {
        match outcome {
            WriteOutcome::Written => false,
            WriteOutcome::ClosedUncleanly => !self.is_encrypted(),
            WriteOutcome::Failed => true,
        }
    }

    /// What a session that waits for a command does with a line.
    fn handle_command(self, line: &str) -> (r: (Session, Action))
        requires
            self@.phase == PhaseState::CommandLoop,
        ensures
            (r.0@, r.1@) == command_step(self@, line@),
    {
        let mut session = self;
        let upper = to_uppercase(trim(line));
        match get_command_from_str(upper.as_str()) {
            Command::Helo => (session, Action::say(HELLO_MESSAGE, Next::Read)),
            Command::Ehlo => {
                let reply = if session.tls_available {
                    CAPABILITIES_MESSAGE
                } else {
                    HELLO_MESSAGE
                };
                (session, Action::say(reply, Next::Read))
            },
            Command::MailFrom => (session, Action::say(OK_MESSAGE, Next::Read)),
            Command::RcptTo => (session, Action::say(OK_MESSAGE, Next::Read)),
            Command::Data => {
                let lines: Vec<String> = Vec::new();
                assert(texts_of(lines@) == Seq::<Seq<char>>::empty());
                session.phase = Phase::DataCollection(lines);
                (session, Action::say(DATA_READY_MESSAGE, Next::Read))
            },
            Command::Quit => {
                session.phase = Phase::Closed;
                (session, Action::say(BYE_MESSAGE, Next::Close))
            },
            Command::StartTls => {
                if !session.tls_available {
                    (session, Action::say(STARTTLS_NO_SUPPORTED_MESSAGE, Next::Read))
                } else if session.is_encrypted() {
                    (session, Action::say(STARTTLS_ACTIVE_MESSAGE, Next::Read))
                } else {
                    session.phase = Phase::Upgrading;
                    (session, Action::say(STARTTLS_MESSAGE, Next::Handshake))
                }
            },
            Command::AuthPlain => {
                let outcome = authenticate_plain(line);
                let reply = reply_to(&outcome);
                session.auth.record(outcome);
                (session, Action::say(reply, Next::Read))
            },
            Command::AuthLogin => (session, Action::say(UNRECOGNIZED_MESSAGE, Next::Read)),
            Command::Unknown => (session, Action::say(UNRECOGNIZED_MESSAGE, Next::Read)),
        }
    }

    /// Takes the session through one event: returns the session as it is
    /// afterwards and what the owner of the connection is to do.
    pub fn step(self, event: Event) -> (r: (Session, Action))
        ensures
            (r.0@, r.1@) == step_of(self@, event@),
    {
        let Session { id, tls_available, mode, auth, phase } = self;
        match (phase, event) {
            (Phase::Greeting, Event::Connected) => (
                Session { id, tls_available, mode, auth, phase: Phase::CommandLoop },
                Action::say(GREETING_MESSAGE, Next::Read),
            ),
            (Phase::CommandLoop, Event::Line(line)) => {
                let session = Session { id, tls_available, mode, auth, phase: Phase::CommandLoop };
                session.handle_command(line.as_str())
            },
            (Phase::DataCollection(lines), Event::Line(line)) => {
                proof {
                    reveal_strlit(".");
                    assert("."@ == seq!['.']);
                }
                if same_text(trim_end(line.as_str()), ".") {
                    let action = Action::deliver(&lines);
                    (Session { id, tls_available, mode, auth, phase: Phase::CommandLoop }, action)
                } else {
                    let mut lines = lines;
                    assert(texts_of(lines@.push(line)) == texts_of(lines@).push(line@));
                    lines.push(line);
                    (
                        Session {
                            id,
                            tls_available,
                            mode,
                            auth,
                            phase: Phase::DataCollection(lines),
                        },
                        Action::silent(Next::Read),
                    )
                }
            },
            (Phase::DataCollection(lines), Event::EndOfStream) => {
                let action = Action::deliver(&lines);
                (Session { id, tls_available, mode, auth, phase: Phase::CommandLoop }, action)
            },
            (Phase::Upgrading, Event::Upgraded) => (
                Session {
                    id,
                    tls_available,
                    mode: TransportMode::Encrypted,
                    auth,
                    phase: Phase::CommandLoop,
                },
                Action::silent(Next::Read),
            ),
            _ => (
                Session { id, tls_available, mode, auth, phase: Phase::Closed },
                Action::silent(Next::Close),
            ),
        }
    }
}

/// What holds of every session that exists: an encrypted session belongs to
/// a server that can upgrade, and a handshake is under way only on a
/// connection that is still in plaintext.
pub open spec fn consistent(s: SessionState) -> bool {
    &&& s.mode == TransportMode::Encrypted ==> s.tls_available
    &&& s.phase == PhaseState::Upgrading ==> s.tls_available && s.mode == TransportMode::Plaintext
}

/// The state after a run of lines, each taken in turn.
pub open spec fn feed_lines(s: SessionState, lines: Seq<Seq<char>>) -> SessionState
    decreases lines.len(),
{
    if lines.len() == 0 {
        s
    } else {
        feed_lines(step_of(s, Input::Line(lines.first())).0, lines.drop_first())
    }
}

/// Whether a reply is a complete line.
pub open spec fn ends_with_crlf(reply: Seq<char>) -> bool {
    reply.len() >= 2 && reply[reply.len() - 2] == '\r' && reply[reply.len() - 1] == '\n'
}

/// A new session is consistent, and every step keeps a session so.
pub proof fn lemma_consistency_is_kept(s: SessionState, input: Input)
    ensures
        forall|id: u64, tls_available: bool|
            consistent(#[trigger] initial_state(id, tls_available)),
        consistent(s) ==> consistent(step_of(s, input).0),
{
}

/// The transport mode changes at most once and in one direction: a step
/// leaves an encrypted session encrypted, and it turns a plaintext session to
/// encrypted only when the handshake that a `STARTTLS` command began has
/// succeeded. A session that is encrypted begins no second handshake. The
/// connection's number and the server's ability to upgrade never change.
pub proof fn lemma_mode_only_rises(s: SessionState, input: Input)
    ensures
        s.mode == TransportMode::Encrypted ==> step_of(s, input).0.mode
            == TransportMode::Encrypted,
        step_of(s, input).0.mode != s.mode ==> s.phase == PhaseState::Upgrading && input
            == Input::Upgraded,
        step_of(s, input).0.phase == PhaseState::Upgrading ==> s.phase == PhaseState::CommandLoop
            && s.tls_available && s.mode == TransportMode::Plaintext && (input matches Input::Line(
            line,
        ) && verb_of(line) == Command::StartTls),
        step_of(s, input).0.id == s.id,
        step_of(s, input).0.tls_available == s.tls_available,
{
}

/// An encrypted session answers as it would in plaintext: but for the
/// `STARTTLS` command of a server that can upgrade, and for the end of a
/// handshake, the answer to an input is the same in both modes, and so is
/// the state afterwards, the mode set aside.
pub proof fn lemma_encrypted_answers_as_plaintext(s: SessionState, input: Input)
    requires
        !(s.phase == PhaseState::CommandLoop && s.tls_available && (input matches Input::Line(line)
            && verb_of(line) == Command::StartTls)),
        !(s.phase == PhaseState::Upgrading && input == Input::Upgraded),
    ensures
        step_of(SessionState { mode: TransportMode::Encrypted, ..s }, input).1 == step_of(
            SessionState { mode: TransportMode::Plaintext, ..s },
            input,
        ).1,
        step_of(SessionState { mode: TransportMode::Encrypted, ..s }, input).0 == (SessionState {
            mode: TransportMode::Encrypted,
            ..step_of(SessionState { mode: TransportMode::Plaintext, ..s }, input).0
        }),
{
}

/// `EHLO` on a server that can upgrade is answered with the capability
/// lines, `STARTTLS` among them, and on any other server like `HELO`.
pub proof fn lemma_ehlo_offers_starttls(s: SessionState, line: Seq<char>)
    requires
        s.phase == PhaseState::CommandLoop,
        verb_of(line) == Command::Ehlo,
    ensures
        s.tls_available ==> step_of(s, Input::Line(line)) == (
            s,
            say(CAPABILITIES_MESSAGE@, Next::Read),
        ),
        !s.tls_available ==> step_of(s, Input::Line(line)) == (s, say(HELLO_MESSAGE@, Next::Read)),
        CAPABILITIES_MESSAGE@ == "250-MyRustSMTP\r\n"@ + "250-STARTTLS\r\n"@
            + "250 AUTH PLAIN LOGIN\r\n"@,
{
    reveal_strlit("250-MyRustSMTP\r\n250-STARTTLS\r\n250 AUTH PLAIN LOGIN\r\n");
    reveal_strlit("250-MyRustSMTP\r\n");
    reveal_strlit("250-STARTTLS\r\n");
    reveal_strlit("250 AUTH PLAIN LOGIN\r\n");
    assert(CAPABILITIES_MESSAGE@ =~= "250-MyRustSMTP\r\n"@ + "250-STARTTLS\r\n"@
        + "250 AUTH PLAIN LOGIN\r\n"@);
}

/// `STARTTLS` on a server that cannot upgrade is refused, and the session
/// goes on as it was.
pub proof fn lemma_starttls_refused_without_tls(s: SessionState, line: Seq<char>)
    requires
        s.phase == PhaseState::CommandLoop,
        verb_of(line) == Command::StartTls,
        !s.tls_available,
    ensures
        step_of(s, Input::Line(line)) == (s, say(STARTTLS_NO_SUPPORTED_MESSAGE@, Next::Read)),
{
}

/// An `AUTH PLAIN` command is decided on the line as it was read, the
/// session records the outcome, and it goes on taking commands whatever the
/// outcome was.
pub proof fn lemma_auth_plain_is_recorded(s: SessionState, line: Seq<char>)
    requires
        s.phase == PhaseState::CommandLoop,
        verb_of(line) == Command::AuthPlain,
    ensures
        step_of(s, Input::Line(line)) == (
            SessionState { auth: state_after(s.auth, plain_outcome(line)), ..s },
            say(reply_text(plain_outcome(line)), Next::Read),
        ),
        step_of(s, Input::Line(line)).0.phase == PhaseState::CommandLoop,
{
}

/// Inside `DATA` no line is taken for a command: every line but the
/// terminator is added to the content, unanswered, and the session leaves
/// `DATA` only on the terminator, on the end of the stream or on a failure.
pub proof fn lemma_data_lines_are_content(s: SessionState, lines: Seq<Seq<char>>, input: Input)
    requires
        s.phase == PhaseState::DataCollection(lines),
    ensures
        match input {
            Input::Line(line) => !is_terminator(line) ==> step_of(s, input) == (
                SessionState { phase: PhaseState::DataCollection(lines.push(line)), ..s },
                silent(Next::Read),
            ),
            _ => true,
        },
        step_of(s, input).0.phase == PhaseState::CommandLoop ==> step_of(s, input).1 == deliver(
            lines,
        ) && (input == Input::EndOfStream || (input matches Input::Line(line) && is_terminator(
            line,
        ))),
{
}

/// Lines that are no terminator, fed to a session inside `DATA`, are
/// collected in their order behind what was collected before.
pub proof fn lemma_feed_lines_collects(
    s: SessionState,
    collected: Seq<Seq<char>>,
    lines: Seq<Seq<char>>,
)
    requires
        s.phase == PhaseState::DataCollection(collected),
        forall|i: int| 0 <= i < lines.len() ==> !is_terminator(#[trigger] lines[i]),
    ensures
        feed_lines(s, lines) == (SessionState {
            phase: PhaseState::DataCollection(collected + lines),
            ..s
        }),
    decreases lines.len(),
{
    if lines.len() == 0 {
        assert(collected + lines == collected);
    } else {
        let next = step_of(s, Input::Line(lines.first())).0;
        assert(!is_terminator(lines[0]));
        lemma_feed_lines_collects(next, collected.push(lines.first()), lines.drop_first());
        assert(collected.push(lines.first()) + lines.drop_first() == collected + lines);
    }
}

/// A message sent with `DATA` is delivered whole: after the `DATA` command,
/// lines that are no terminator, and then the terminator, the session hands
/// over the lines joined in their order, the terminator left out,
/// acknowledges the message, and takes commands again as the session it was.
pub proof fn lemma_data_round_trip(
    s: SessionState,
    data: Seq<char>,
    lines: Seq<Seq<char>>,
    terminator: Seq<char>,
)
    requires
        s.phase == PhaseState::CommandLoop,
        verb_of(data) == Command::Data,
        forall|i: int| 0 <= i < lines.len() ==> !is_terminator(#[trigger] lines[i]),
        is_terminator(terminator),
    ensures
        step_of(s, Input::Line(data)).1 == say(DATA_READY_MESSAGE@, Next::Read),
        step_of(feed_lines(step_of(s, Input::Line(data)).0, lines), Input::Line(terminator)) == (
            s,
            Effect {
                deliver: Some(lines.flatten()),
                publish: Some(WebSocketCommand::Update),
                reply: Some(QUEUED_MESSAGE@),
                next: Next::Read,
            },
        ),
{
    let started = step_of(s, Input::Line(data)).0;
    lemma_feed_lines_collects(started, Seq::empty(), lines);
    assert(Seq::<Seq<char>>::empty() + lines == lines);
}

/// One notification is published for each message that is delivered, and
/// none otherwise; and a message is delivered only by a session that is
/// inside `DATA`.
pub proof fn lemma_one_update_per_message(s: SessionState, input: Input)
    ensures
        step_of(s, input).1.publish == if step_of(s, input).1.deliver.is_some() {
            Some(WebSocketCommand::Update)
        } else {
            None
        },
        step_of(s, input).1.deliver.is_some() ==> s.phase is DataCollection,
{
}

/// Every command is answered, and with a complete line: whatever line a
/// session that waits for a command is given, there is a reply, and the
/// reply ends in CR LF.
pub proof fn lemma_every_command_is_answered(s: SessionState, line: Seq<char>)
    requires
        s.phase == PhaseState::CommandLoop,
    ensures
        step_of(s, Input::Line(line)).1.reply matches Some(reply) && ends_with_crlf(reply),
{
    reveal_strlit("250 Hello\r\n");
    reveal_strlit("250-MyRustSMTP\r\n250-STARTTLS\r\n250 AUTH PLAIN LOGIN\r\n");
    reveal_strlit("250 Ok\r\n");
    reveal_strlit("354 End data with <CR><LF>.<CR><LF>\r\n");
    reveal_strlit("221 Bye\r\n");
    reveal_strlit("220 Ready to start TLS\r\n");
    reveal_strlit("500 STARTTLS not supported\r\n");
    reveal_strlit("503 TLS already active\r\n");
    reveal_strlit("500 Unrecongnized command\r\n");
    reveal_strlit("235 Authentication successful\r\n");
    reveal_strlit("535 Authentication failed\r\n");
    reveal_strlit("501 Syntax: AUTH PLAIN <credentials>\r\n");
    reveal_strlit("501 Missing credentials\r\n");
    reveal_strlit("501 Invalid base64 encoding\r\n");
}

} // verus!
