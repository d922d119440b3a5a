//! The `AUTH PLAIN` authenticator: from a command line to an outcome, and
//! from the outcome to the session's authentication state and the reply.

use crate::constants::{
    AUTH_FAILED_MESSAGE, AUTH_PLAIN, AUTH_SUCCESS_MESSAGE, AUTH_SYNTAX_MESSAGE,
    INVALID_BASE64_MESSAGE, MISSING_CREDENTIALS_MESSAGE,
};
use crate::text::{
    first_index_of, from_utf8_lossy, lemma_first_index_of, lossy_text_of, splitn, splitn_of,
};
use crate::util::base64::{decoded_bytes, deocde_bytes};
use vstd::prelude::*;
use vstd::slice::{slice_subrange, slice_to_vec};
use vstd::string::StringSliceAdditionalSpecFns;
use vstd::utf8::encode_utf8;

verus! {

/// What is malformed in an `AUTH PLAIN` command.
#[derive(Clone, Copy, Debug, PartialEq, Eq, Structural)]
pub enum SyntaxFault {
    /// The command carries no credentials token.
    MissingToken,
    /// The token decodes to an empty user name.
    MissingCredentials,
}

/// How one `AUTH PLAIN` command ended.
#[derive(Debug, PartialEq, Eq)]
pub enum AuthOutcome {
    Success { username: String, password: String },
    SyntaxError(SyntaxFault),
    EncodingError,
    AuthFailed,
}

/// An `AuthOutcome` with its strings as texts.
pub enum Outcome {
    Success { username: Seq<char>, password: Seq<char> },
    SyntaxError(SyntaxFault),
    EncodingError,
    AuthFailed,
}

impl View for AuthOutcome {
    type V = Outcome;

    open spec fn view(&self) -> Outcome {
        match *self {
            AuthOutcome::Success { username, password } => Outcome::Success {
                username: username@,
                password: password@,
            },
            AuthOutcome::SyntaxError(fault) => Outcome::SyntaxError(fault),
            AuthOutcome::EncodingError => Outcome::EncodingError,
            AuthOutcome::AuthFailed => Outcome::AuthFailed,
        }
    }
}

/// The pieces of `bytes` between occurrences of `sep`.
pub open spec fn segments_of(bytes: Seq<u8>, sep: u8) -> Seq<Seq<u8>>
    decreases bytes.len(),
{
    let at = first_index_of(bytes, sep) as int;
    if at >= bytes.len() {
        seq![bytes]
    } else {
        seq![bytes.subrange(0, at)] + segments_of(
            bytes.subrange(at + 1, bytes.len() as int),
            sep,
        )
    }
}

/// The outcome for a decoded credentials blob `authzid NUL username NUL
/// password`: the blob fails with fewer than three pieces, an empty user
/// name is a syntax error, and any other user name is accepted with whatever
/// password comes with it.
pub open spec fn credentials_outcome(bytes: Seq<u8>) -> Outcome {
    let segments = segments_of(bytes, 0u8);
    if segments.len() < 3 {
        Outcome::AuthFailed
    } else if segments[1].len() == 0 {
        Outcome::SyntaxError(SyntaxFault::MissingCredentials)
    } else {
        Outcome::Success {
            username: lossy_text_of(segments[1]),
            password: lossy_text_of(segments[2]),
        }
    }
}

/// The outcome for a whole command line `AUTH PLAIN <token>`.
pub open spec fn plain_outcome(line: Seq<char>) -> Outcome {
    let parts = splitn_of(line, 3, ' ');
    if parts.len() < 3 {
        Outcome::SyntaxError(SyntaxFault::MissingToken)
    } else {
        match decoded_bytes(parts[2]) {
            None => Outcome::EncodingError,
            Some(bytes) => credentials_outcome(bytes),
        }
    }
}

/// The reply that answers an outcome.
pub open spec fn reply_text(outcome: Outcome) -> Seq<char> {
    match outcome {
        Outcome::Success { .. } => AUTH_SUCCESS_MESSAGE@,
        Outcome::SyntaxError(SyntaxFault::MissingToken) => AUTH_SYNTAX_MESSAGE@,
        Outcome::SyntaxError(SyntaxFault::MissingCredentials) => MISSING_CREDENTIALS_MESSAGE@,
        Outcome::EncodingError => INVALID_BASE64_MESSAGE@,
        Outcome::AuthFailed => AUTH_FAILED_MESSAGE@,
    }
}

/// The byte strings that a vector of vectors holds.
pub open spec fn pieces_of(segments: Seq<Vec<u8>>) -> Seq<Seq<u8>> {
    Seq::new(segments.len(), |i: int| segments[i]@)
}

/// Splits `bytes` at every `sep`.
pub fn split_bytes(bytes: &[u8], sep: u8) -> (segments: Vec<Vec<u8>>)
    ensures
        pieces_of(segments@) == segments_of(bytes@, sep),
{
    let mut segments: Vec<Vec<u8>> = Vec::new();
    let mut start: usize = 0;
    let mut at: usize = 0;
    assert(bytes@.subrange(0, bytes@.len() as int) == bytes@);
    assert(pieces_of(segments@) + segments_of(bytes@, sep) == segments_of(bytes@, sep));
    while at < bytes.len()
        invariant
            start <= at <= bytes@.len(),
            forall|k: int| start <= k < at ==> bytes@[k] != sep,
            segments_of(bytes@, sep) == pieces_of(segments@) + segments_of(
                bytes@.subrange(start as int, bytes@.len() as int),
                sep,
            ),
        decreases bytes@.len() - at,
    {
        if bytes[at] == sep {
            let piece = slice_to_vec(slice_subrange(bytes, start, at));
            proof {
                let rest = bytes@.subrange(start as int, bytes@.len() as int);
                lemma_first_index_of(rest, sep, at - start);
                assert(rest.subrange(0, at - start) == piece@);
                assert(rest.subrange(at - start + 1, rest.len() as int) == bytes@.subrange(
                    at + 1,
                    bytes@.len() as int,
                ));
                assert(pieces_of(segments@.push(piece)) + segments_of(
                    bytes@.subrange(at + 1, bytes@.len() as int),
                    sep,
                ) == pieces_of(segments@) + segments_of(rest, sep));
            }
            segments.push(piece);
            start = at + 1;
        }
        at += 1;
    }
    let piece = slice_to_vec(slice_subrange(bytes, start, bytes.len()));
    proof {
        lemma_first_index_of(piece@, sep, piece@.len() as int);
        assert(pieces_of(segments@.push(piece)) == pieces_of(segments@) + seq![piece@]);
    }
    segments.push(piece);
    segments
}

/// Decides on a decoded credentials blob.
pub fn check_credentials(bytes: &[u8]) -> (outcome: AuthOutcome)
    ensures
        outcome@ == credentials_outcome(bytes@),
{
    let segments = split_bytes(bytes, 0u8);
    if segments.len() < 3 {
        return AuthOutcome::AuthFailed;
    }
    assert(pieces_of(segments@)[1] == segments@[1]@);
    assert(pieces_of(segments@)[2] == segments@[2]@);
    let username = from_utf8_lossy(segments[1].as_slice());
    let password = from_utf8_lossy(segments[2].as_slice());
    if username.as_str().is_empty() {
        return AuthOutcome::SyntaxError(SyntaxFault::MissingCredentials);
    }
    AuthOutcome::Success { username, password }
}

/// Decides on a command line `AUTH PLAIN <token>`: the token is what
/// follows the second space, and it must be the Base64 form of a
/// credentials blob.
pub fn authenticate_plain(line: &str) -> (outcome: AuthOutcome)
    ensures
        outcome@ == plain_outcome(line@),
{
    let parts = splitn(line, 3, ' ');
    if parts.len() < 3 {
        return AuthOutcome::SyntaxError(SyntaxFault::MissingToken);
    }
    match deocde_bytes(parts[2]) {
        Ok(bytes) => check_credentials(bytes.as_slice()),
        Err(_) => AuthOutcome::EncodingError,
    }
}

/// The reply that answers `outcome`.
pub fn reply_to(outcome: &AuthOutcome) -> (reply: &'static str)
    ensures
        reply@ == reply_text(outcome@),
{
    match outcome {
        AuthOutcome::Success { .. } => AUTH_SUCCESS_MESSAGE,
        AuthOutcome::SyntaxError(SyntaxFault::MissingToken) => AUTH_SYNTAX_MESSAGE,
        AuthOutcome::SyntaxError(SyntaxFault::MissingCredentials) => MISSING_CREDENTIALS_MESSAGE,
        AuthOutcome::EncodingError => INVALID_BASE64_MESSAGE,
        AuthOutcome::AuthFailed => AUTH_FAILED_MESSAGE,
    }
}

/// The authentication state of one session.
#[derive(Debug)]
pub struct Auth {
    authenticated: bool,
    username: String,
    password: String,
}

/// An `Auth` with its strings as texts.
pub struct AuthState {
    pub authenticated: bool,
    pub username: Seq<char>,
    pub password: Seq<char>,
}

/// The state of a session that has not authenticated.
pub open spec fn unauthenticated() -> AuthState {
    AuthState { authenticated: false, username: Seq::empty(), password: Seq::empty() }
}

/// The state after an `AUTH PLAIN` command with the given outcome: a success
/// records its credentials, anything else changes nothing.
pub open spec fn state_after(before: AuthState, outcome: Outcome) -> AuthState {
    match outcome {
        Outcome::Success { username, password } => AuthState {
            authenticated: true,
            username,
            password,
        },
        _ => before,
    }
}

impl View for Auth {
    type V = AuthState;

    closed spec fn view(&self) -> AuthState {
        AuthState {
            authenticated: self.authenticated,
            username: self.username@,
            password: self.password@,
        }
    }
}

impl Default for Auth {
    fn default() -> (auth: Auth)
        ensures
            auth@ == unauthenticated(),
    {
        Auth { authenticated: false, username: String::new(), password: String::new() }
    }
}

impl Auth {
    /// The state with the given fields.
    pub fn new(authenticated: bool, username: String, password: String) -> (auth: Auth)
        ensures
            auth@ == (AuthState { authenticated, username: username@, password: password@ }),
    {
        Auth { authenticated, username, password }
    }

    pub fn get_authenticated(&self) -> (r: bool)
        ensures
            r == self@.authenticated,
    {
        self.authenticated
    }

    pub fn get_username(&self) -> (r: &String)
        ensures
            r@ == self@.username,
    {
        &self.username
    }

    pub fn get_password(&self) -> (r: &String)
        ensures
            r@ == self@.password,
    {
        &self.password
    }

    pub fn set_authenticated(&mut self, authenticated: bool)
        ensures
            final(self)@ == (AuthState { authenticated, ..old(self)@ }),
    {
        self.authenticated = authenticated;
    }

    pub fn set_username(&mut self, username: String)
        ensures
            final(self)@ == (AuthState { username: username@, ..old(self)@ }),
    {
        self.username = username;
    }

    pub fn set_password(&mut self, password: String)
        ensures
            final(self)@ == (AuthState { password: password@, ..old(self)@ }),
    {
        self.password = password;
    }

    /// Records what `outcome` says: the credentials of a success, and
    /// nothing otherwise.
    pub fn record(&mut self, outcome: AuthOutcome)
        ensures
            final(self)@ == state_after(old(self)@, outcome@),
    {
        match outcome {
            AuthOutcome::Success { username, password } => {
                self.username = username;
                self.password = password;
                self.authenticated = true;
            },
            _ => {},
        }
    }

    /// Handles one `AUTH PLAIN` command line: decides on it, records a
    /// success, and returns the bytes of the reply.
    pub fn parse_plain_credentials(&mut self, input: &str) -> (reply: &'static [u8])
        ensures
            final(self)@ == state_after(old(self)@, plain_outcome(input@)),
            reply@ == encode_utf8(reply_text(plain_outcome(input@))),
    {
        let outcome = authenticate_plain(input);
        let reply = reply_to(&outcome);
        self.record(outcome);
        reply.as_bytes()
    }
}

/// Each outcome with the command lines that it comes on: a line of fewer
/// than three parts lacks its token; a token that is not Base64 is an
/// encoding error; a blob of fewer than three pieces fails; a blob with an
/// empty second piece lacks its credentials; and every other blob succeeds.
pub proof fn lemma_outcome_cases(line: Seq<char>)
    ensures
        plain_outcome(line) == Outcome::SyntaxError(SyntaxFault::MissingToken) <==> splitn_of(
            line,
            3,
            ' ',
        ).len() < 3,
        plain_outcome(line) == Outcome::EncodingError <==> splitn_of(line, 3, ' ').len() >= 3
            && decoded_bytes(splitn_of(line, 3, ' ')[2]).is_none(),
        plain_outcome(line) == Outcome::AuthFailed <==> splitn_of(line, 3, ' ').len() >= 3 && (
        decoded_bytes(splitn_of(line, 3, ' ')[2]) matches Some(blob) && segments_of(
            blob,
            0u8,
        ).len() < 3),
        plain_outcome(line) == Outcome::SyntaxError(SyntaxFault::MissingCredentials) <==> splitn_of(
            line,
            3,
            ' ',
        ).len() >= 3 && (decoded_bytes(splitn_of(line, 3, ' ')[2]) matches Some(blob)
            && segments_of(blob, 0u8).len() >= 3 && segments_of(blob, 0u8)[1].len() == 0),
        plain_outcome(line) is Success <==> splitn_of(line, 3, ' ').len() >= 3 && (decoded_bytes(
            splitn_of(line, 3, ' ')[2],
        ) matches Some(blob) && segments_of(blob, 0u8).len() >= 3 && segments_of(
            blob,
            0u8,
        )[1].len() > 0),
{
}

/// A byte string that holds no `sep` is its own single piece.
pub proof fn lemma_segments_of_whole(bytes: Seq<u8>, sep: u8)
    requires
        !bytes.contains(sep),
    ensures
        segments_of(bytes, sep) == seq![bytes],
{
    lemma_first_index_of(bytes, sep, bytes.len() as int);
}

/// The pieces of `head sep tail`, where `head` holds no `sep`, are `head`
/// and then the pieces of `tail`.
pub proof fn lemma_segments_of_joined(head: Seq<u8>, tail: Seq<u8>, sep: u8)
    requires
        !head.contains(sep),
    ensures
        segments_of(head + seq![sep] + tail, sep) == seq![head] + segments_of(tail, sep),
{
    let bytes = head + seq![sep] + tail;
    lemma_first_index_of(bytes, sep, head.len() as int);
    assert(bytes.subrange(0, head.len() as int) == head);
    assert(bytes.subrange(head.len() as int + 1, bytes.len() as int) == tail);
}

/// The three parts of a command line `AUTH PLAIN <token>` are the two words
/// and the token, whatever the token holds.
pub proof fn lemma_auth_plain_token(token: Seq<char>)
    ensures
        splitn_of(AUTH_PLAIN@ + seq![' '] + token, 3, ' ').len() == 3,
        splitn_of(AUTH_PLAIN@ + seq![' '] + token, 3, ' ')[2] == token,
{
    reveal_strlit("AUTH PLAIN");
    let line = AUTH_PLAIN@ + seq![' '] + token;
    lemma_first_index_of(line, ' ', 4);
    let rest = line.subrange(5, line.len() as int);
    lemma_first_index_of(rest, ' ', 5);
    let last = rest.subrange(6, rest.len() as int);
    assert(last == token);
    assert(splitn_of(last, 1, ' ') == seq![last]);
    assert(splitn_of(rest, 2, ' ') == seq![rest.subrange(0, 5)] + splitn_of(last, 1, ' '));
    assert(splitn_of(line, 3, ' ') == seq![line.subrange(0, 4)] + splitn_of(rest, 2, ' '));
}

/// A command `AUTH PLAIN <token>` whose token is the Base64 form of
/// `authzid NUL user NUL password` leaves the session authenticated as that
/// user, with the success reply, unless the user name is empty: then it is
/// answered as a syntax error and changes nothing.
pub proof fn lemma_plain_blob_decides(
    before: AuthState,
    token: Seq<char>,
    authzid: Seq<u8>,
    user: Seq<u8>,
    password: Seq<u8>,
)
    requires
        decoded_bytes(token) == Some(authzid + seq![0u8] + user + seq![0u8] + password),
        !authzid.contains(0u8),
        !user.contains(0u8),
        !password.contains(0u8),
    ensures
        user.len() > 0 ==> plain_outcome(AUTH_PLAIN@ + seq![' '] + token) == (Outcome::Success {
            username: lossy_text_of(user),
            password: lossy_text_of(password),
        }),
        user.len() > 0 ==> state_after(
            before,
            plain_outcome(AUTH_PLAIN@ + seq![' '] + token),
        ) == (AuthState {
            authenticated: true,
            username: lossy_text_of(user),
            password: lossy_text_of(password),
        }),
        user.len() > 0 ==> reply_text(plain_outcome(AUTH_PLAIN@ + seq![' '] + token))
            == AUTH_SUCCESS_MESSAGE@,
        user.len() == 0 ==> plain_outcome(AUTH_PLAIN@ + seq![' '] + token)
            == Outcome::SyntaxError(SyntaxFault::MissingCredentials),
        user.len() == 0 ==> state_after(before, plain_outcome(AUTH_PLAIN@ + seq![' '] + token))
            == before,
        user.len() == 0 ==> reply_text(plain_outcome(AUTH_PLAIN@ + seq![' '] + token))
            == MISSING_CREDENTIALS_MESSAGE@,
{
    lemma_auth_plain_token(token);
    let tail = user + seq![0u8] + password;
    let blob = authzid + seq![0u8] + user + seq![0u8] + password;
    assert(blob == authzid + seq![0u8] + tail);
    lemma_segments_of_joined(authzid, tail, 0u8);
    lemma_segments_of_joined(user, password, 0u8);
    lemma_segments_of_whole(password, 0u8);
    assert(segments_of(blob, 0u8) == seq![authzid, user, password]);
}

/// A command `AUTH PLAIN <token>` whose token is not valid Base64 is
/// answered with the encoding error and changes nothing.
pub proof fn lemma_invalid_base64_rejected(before: AuthState, token: Seq<char>)
    requires
        decoded_bytes(token).is_none(),
    ensures
        plain_outcome(AUTH_PLAIN@ + seq![' '] + token) == Outcome::EncodingError,
        state_after(before, plain_outcome(AUTH_PLAIN@ + seq![' '] + token)) == before,
        reply_text(plain_outcome(AUTH_PLAIN@ + seq![' '] + token)) == INVALID_BASE64_MESSAGE@,
{
    lemma_auth_plain_token(token);
}

} // verus!
