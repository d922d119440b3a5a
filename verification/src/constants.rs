//! The verbs of the protocol and the replies that the server sends.

use vstd::prelude::*;

verus! {

pub const HELO: &'static str = "HELO";

pub const EHLO: &'static str = "EHLO";

pub const MAILFROM: &'static str = "MAIL FROM:";

pub const RCPTTO: &'static str = "RCPT TO:";

pub const DATA: &'static str = "DATA";

pub const QUIT: &'static str = "QUIT";

pub const STARTTLS: &'static str = "STARTTLS";

pub const AUTH_PLAIN: &'static str = "AUTH PLAIN";

pub const AUTH_LOGIN: &'static str = "AUTH LOGIN";

pub const TEXT_PLAIN: &'static str = "text/plain";

pub const TEXT_HTML: &'static str = "text/html";

pub const GREETING_MESSAGE: &'static str = "220 Rust SMTP Server Ready\r\n";

pub const HELLO_MESSAGE: &'static str = "250 Hello\r\n";

pub const CAPABILITIES_MESSAGE: &'static str =
    "250-MyRustSMTP\r\n250-STARTTLS\r\n250 AUTH PLAIN LOGIN\r\n";

pub const OK_MESSAGE: &'static str = "250 Ok\r\n";

pub const DATA_READY_MESSAGE: &'static str = "354 End data with <CR><LF>.<CR><LF>\r\n";

pub const QUEUED_MESSAGE: &'static str = "250 Ok:queued\r\n";

pub const BYE_MESSAGE: &'static str = "221 Bye\r\n";

pub const STARTTLS_MESSAGE: &'static str = "220 Ready to start TLS\r\n";

pub const STARTTLS_NO_SUPPORTED_MESSAGE: &'static str = "500 STARTTLS not supported\r\n";

pub const STARTTLS_ACTIVE_MESSAGE: &'static str = "503 TLS already active\r\n";

pub const UNRECOGNIZED_MESSAGE: &'static str = "500 Unrecongnized command\r\n";

pub const AUTH_SUCCESS_MESSAGE: &'static str = "235 Authentication successful\r\n";

pub const AUTH_FAILED_MESSAGE: &'static str = "535 Authentication failed\r\n";

pub const AUTH_SYNTAX_MESSAGE: &'static str = "501 Syntax: AUTH PLAIN <credentials>\r\n";

pub const MISSING_CREDENTIALS_MESSAGE: &'static str = "501 Missing credentials\r\n";

pub const INVALID_BASE64_MESSAGE: &'static str = "501 Invalid base64 encoding\r\n";

pub const UPDATE: &'static str = "UPDATE";

} // verus!
