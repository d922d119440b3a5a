//! The command parser: from one line of input to the verb it begins with.

use crate::constants::{
    AUTH_LOGIN, AUTH_PLAIN, DATA, EHLO, HELO, MAILFROM, QUIT, RCPTTO, STARTTLS, UPDATE,
};
use crate::text::starts_with;
use vstd::prelude::*;

verus! {

/// The verb that a line of input begins with.
#[derive(Clone, Copy, Debug, PartialEq, Eq, Structural)]
pub enum Command {
    Helo,
    Ehlo,
    MailFrom,
    RcptTo,
    Data,
    Quit,
    AuthPlain,
    AuthLogin,
    StartTls,
    Unknown,
}

/// What is published to the observers of the message store.
#[derive(Clone, Copy, Debug, PartialEq, Eq, Structural)]
pub enum WebSocketCommand {
    Update,
}

impl WebSocketCommand {
    /// The text that stands for this notification on the wire.
    pub open spec fn text(self) -> Seq<char> {
        UPDATE@
    }

    /// The notification as the string that is sent to the observers.
    pub fn into(self) -> (r: String)
        ensures
            r@ == self.text(),
    {
        match self {
            WebSocketCommand::Update => UPDATE.to_owned(),
        }
    }
}

/// The verb table, in the order in which the verbs are tried.
pub open spec fn verb_table() -> Seq<(Seq<char>, Command)> {
    seq![
        (HELO@, Command::Helo),
        (EHLO@, Command::Ehlo),
        (MAILFROM@, Command::MailFrom),
        (RCPTTO@, Command::RcptTo),
        (DATA@, Command::Data),
        (QUIT@, Command::Quit),
        (STARTTLS@, Command::StartTls),
        (AUTH_PLAIN@, Command::AuthPlain),
        (AUTH_LOGIN@, Command::AuthLogin),
    ]
}

/// The command of the first entry of `table` whose verb `line` begins with,
/// and `Unknown` if there is none.
pub open spec fn first_match(table: Seq<(Seq<char>, Command)>, line: Seq<char>) -> Command
    decreases table.len(),
{
    if table.len() == 0 {
        Command::Unknown
    } else if table.first().0.is_prefix_of(line) {
        table.first().1
    } else {
        first_match(table.drop_first(), line)
    }
}

/// The command that a line stands for: the first verb of the table that the
/// line begins with decides.
pub open spec fn command_of(line: Seq<char>) -> Command {
    first_match(verb_table(), line)
}

/// Finds the command that `input` begins with. Matching is exact: a caller
/// that wants letter case and surrounding whitespace ignored trims the input
/// and puts it in upper case first.
pub fn get_command_from_str(input: &str) -> (command: Command)
    ensures
        command == command_of(input@),
{
    proof {
        reveal_with_fuel(first_match, 10);
    }
    if starts_with(input, HELO) {
        Command::Helo
    } else if starts_with(input, EHLO) {
        Command::Ehlo
    } else if starts_with(input, MAILFROM) {
        Command::MailFrom
    } else if starts_with(input, RCPTTO) {
        Command::RcptTo
    } else if starts_with(input, DATA) {
        Command::Data
    } else if starts_with(input, QUIT) {
        Command::Quit
    } else if starts_with(input, STARTTLS) {
        Command::StartTls
    } else if starts_with(input, AUTH_PLAIN) {
        Command::AuthPlain
    } else if starts_with(input, AUTH_LOGIN) {
        Command::AuthLogin
    } else {
        Command::Unknown
    }
}

/// No line begins with two verbs of the table, so the order of the table
/// decides nothing: a line's command is the one whose verb it begins with,
/// and `Unknown` exactly when it begins with none.
pub proof fn lemma_command_iff_verb(line: Seq<char>)
    ensures
        command_of(line) == Command::Helo <==> HELO@.is_prefix_of(line),
        command_of(line) == Command::Ehlo <==> EHLO@.is_prefix_of(line),
        command_of(line) == Command::MailFrom <==> MAILFROM@.is_prefix_of(line),
        command_of(line) == Command::RcptTo <==> RCPTTO@.is_prefix_of(line),
        command_of(line) == Command::Data <==> DATA@.is_prefix_of(line),
        command_of(line) == Command::Quit <==> QUIT@.is_prefix_of(line),
        command_of(line) == Command::StartTls <==> STARTTLS@.is_prefix_of(line),
        command_of(line) == Command::AuthPlain <==> AUTH_PLAIN@.is_prefix_of(line),
        command_of(line) == Command::AuthLogin <==> AUTH_LOGIN@.is_prefix_of(line),
        command_of(line) == Command::Unknown <==> forall|i: int|
            0 <= i < verb_table().len() ==> !(#[trigger] verb_table()[i]).0.is_prefix_of(line),
{
    reveal_with_fuel(first_match, 10);
    reveal_strlit("HELO");
    reveal_strlit("EHLO");
    reveal_strlit("MAIL FROM:");
    reveal_strlit("RCPT TO:");
    reveal_strlit("DATA");
    reveal_strlit("QUIT");
    reveal_strlit("STARTTLS");
    reveal_strlit("AUTH PLAIN");
    reveal_strlit("AUTH LOGIN");
    assert(HELO@.is_prefix_of(line) ==> line[0] == 'H') by {
        if HELO@.is_prefix_of(line) {
            assert(line.subrange(0, 4)[0] == HELO@[0]);
        }
    }
    assert(EHLO@.is_prefix_of(line) ==> line[0] == 'E') by {
        if EHLO@.is_prefix_of(line) {
            assert(line.subrange(0, 4)[0] == EHLO@[0]);
        }
    }
    assert(MAILFROM@.is_prefix_of(line) ==> line[0] == 'M') by {
        if MAILFROM@.is_prefix_of(line) {
            assert(line.subrange(0, 10)[0] == MAILFROM@[0]);
        }
    }
    assert(RCPTTO@.is_prefix_of(line) ==> line[0] == 'R') by {
        if RCPTTO@.is_prefix_of(line) {
            assert(line.subrange(0, 8)[0] == RCPTTO@[0]);
        }
    }
    assert(DATA@.is_prefix_of(line) ==> line[0] == 'D') by {
        if DATA@.is_prefix_of(line) {
            assert(line.subrange(0, 4)[0] == DATA@[0]);
        }
    }
    assert(QUIT@.is_prefix_of(line) ==> line[0] == 'Q') by {
        if QUIT@.is_prefix_of(line) {
            assert(line.subrange(0, 4)[0] == QUIT@[0]);
        }
    }
    assert(STARTTLS@.is_prefix_of(line) ==> line[0] == 'S') by {
        if STARTTLS@.is_prefix_of(line) {
            assert(line.subrange(0, 8)[0] == STARTTLS@[0]);
        }
    }
    assert(AUTH_PLAIN@.is_prefix_of(line) ==> line[0] == 'A' && line[5] == 'P') by {
        if AUTH_PLAIN@.is_prefix_of(line) {
            assert(line.subrange(0, 10)[0] == AUTH_PLAIN@[0]);
            assert(line.subrange(0, 10)[5] == AUTH_PLAIN@[5]);
        }
    }
    assert(AUTH_LOGIN@.is_prefix_of(line) ==> line[0] == 'A' && line[5] == 'L') by {
        if AUTH_LOGIN@.is_prefix_of(line) {
            assert(line.subrange(0, 10)[0] == AUTH_LOGIN@[0]);
            assert(line.subrange(0, 10)[5] == AUTH_LOGIN@[5]);
        }
    }
    let t = verb_table();
    assert(t[0].0 == HELO@ && t[1].0 == EHLO@ && t[2].0 == MAILFROM@ && t[3].0 == RCPTTO@);
    assert(t[4].0 == DATA@ && t[5].0 == QUIT@ && t[6].0 == STARTTLS@);
    assert(t[7].0 == AUTH_PLAIN@ && t[8].0 == AUTH_LOGIN@);
}

} // verus!
