//! The messages of the bot's errors.

use vstd::prelude::*;
use vstd::string::*;

verus! {

/// Where an error came from.
#[derive(Debug, Clone, Copy, PartialEq, Eq)]
pub enum ErrorKind {
    Config,
    Http,
    Database,
    Telegram,
    Io,
    Serde,
}

/// The words that introduce an error of each kind.
pub open spec fn error_prefix(kind: ErrorKind) -> Seq<char> {
    match kind {
        ErrorKind::Config => "Configuration error: "@,
        ErrorKind::Http => "HTTP error: "@,
        ErrorKind::Database => "Database error: "@,
        ErrorKind::Telegram => "Telegram API error: "@,
        ErrorKind::Io => "IO error: "@,
        ErrorKind::Serde => "Serialization error: "@,
    }
}

/// The message of an error: its kind, then what the cause says of itself.
pub fn error_description(kind: ErrorKind, detail: &str) -> (s: String)
    ensures
        s@ == error_prefix(kind) + detail@,
{
    let mut s = match kind {
        ErrorKind::Config => String::from_str("Configuration error: "),
        ErrorKind::Http => String::from_str("HTTP error: "),
        ErrorKind::Database => String::from_str("Database error: "),
        ErrorKind::Telegram => String::from_str("Telegram API error: "),
        ErrorKind::Io => String::from_str("IO error: "),
        ErrorKind::Serde => String::from_str("Serialization error: "),
    };
    s.append(detail);
    s
}

} // verus!
