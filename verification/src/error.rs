//! What can go wrong with a login and with a command.
//!
//! The two operations fail in different ways, and the same answer of the
//! server means different things to them, so each has an error type of its
//! own. [`SendError`] is what the two have in common before a request is sent.

use crate::fault::io_error_text;
use vstd::prelude::*;

verus! {

/// A request that could not be put together.
#[derive(Debug)]
pub enum SendError {
    /// An I/O error occurred.
    IO(std::io::Error),
    /// The payload is longer than a server accepts.
    PayloadTooLong,
}

/// A failed attempt to log in.
#[derive(Debug)]
pub enum LogInError {
    /// An I/O error occurred.
    IO(std::io::Error),
    /// The password was too long.
    PasswordTooLong,
    /// The client is already logged in.
    AlreadyLoggedIn,
    /// The password was incorrect.
    BadPassword,
}

/// A failed attempt to send a command.
#[derive(Debug)]
pub enum CommandError {
    /// An I/O error occurred.
    IO(std::io::Error),
    /// The command was too long.
    CommandTooLong,
    /// The client is not logged in.
    NotLoggedIn,
}

impl From<std::io::Error> for SendError {
    fn from(e: std::io::Error) -> (r: SendError) {
        SendError::IO(e)
    }
}

impl vstd::std_specs::convert::FromSpecImpl<std::io::Error> for SendError {
    open spec fn obeys_from_spec() -> bool {
        true
    }

    open spec fn from_spec(e: std::io::Error) -> SendError {
        SendError::IO(e)
    }
}

impl From<std::io::Error> for LogInError {
    fn from(e: std::io::Error) -> (r: LogInError) {
        LogInError::IO(e)
    }
}

impl vstd::std_specs::convert::FromSpecImpl<std::io::Error> for LogInError {
    open spec fn obeys_from_spec() -> bool {
        true
    }

    open spec fn from_spec(e: std::io::Error) -> LogInError {
        LogInError::IO(e)
    }
}

impl From<SendError> for LogInError {
    fn from(e: SendError) -> (r: LogInError) {
        match e {
            SendError::IO(e) => LogInError::IO(e),
            SendError::PayloadTooLong => LogInError::PasswordTooLong,
        }
    }
}

impl vstd::std_specs::convert::FromSpecImpl<SendError> for LogInError {
    open spec fn obeys_from_spec() -> bool {
        true
    }

    open spec fn from_spec(e: SendError) -> LogInError {
        match e {
            SendError::IO(e) => LogInError::IO(e),
            SendError::PayloadTooLong => LogInError::PasswordTooLong,
        }
    }
}

impl From<std::io::Error> for CommandError {
    fn from(e: std::io::Error) -> (r: CommandError) {
        CommandError::IO(e)
    }
}

impl vstd::std_specs::convert::FromSpecImpl<std::io::Error> for CommandError {
    open spec fn obeys_from_spec() -> bool {
        true
    }

    open spec fn from_spec(e: std::io::Error) -> CommandError {
        CommandError::IO(e)
    }
}

impl From<SendError> for CommandError {
    fn from(e: SendError) -> (r: CommandError) {
        match e {
            SendError::IO(e) => CommandError::IO(e),
            SendError::PayloadTooLong => CommandError::CommandTooLong,
        }
    }
}

impl vstd::std_specs::convert::FromSpecImpl<SendError> for CommandError {
    open spec fn obeys_from_spec() -> bool {
        true
    }

    open spec fn from_spec(e: SendError) -> CommandError {
        match e {
            SendError::IO(e) => CommandError::IO(e),
            SendError::PayloadTooLong => CommandError::CommandTooLong,
        }
    }
}

impl LogInError {
    /// The text that describes the error, where it is not an I/O error.
    pub open spec fn description(self) -> Option<Seq<char>> {
        match self {
            LogInError::IO(_) => None,
            LogInError::PasswordTooLong => Some("password must be no longer than 1446 bytes"@),
            LogInError::AlreadyLoggedIn => Some("tried to log in when already logged in"@),
            LogInError::BadPassword => Some("tried to log in with incorrect password"@),
        }
    }

    /// Describes the error in words. An I/O error describes itself.
    pub fn message(&self) -> (text: String)
        ensures
            self.description() matches Some(words) ==> text@ == words,
    {
        match self {
            LogInError::IO(e) => io_error_text(e),
            LogInError::PasswordTooLong => "password must be no longer than 1446 bytes".to_owned(),
            LogInError::AlreadyLoggedIn => "tried to log in when already logged in".to_owned(),
            LogInError::BadPassword => "tried to log in with incorrect password".to_owned(),
        }
    }
}

impl CommandError {
    /// The text that describes the error, where it is not an I/O error.
    pub open spec fn description(self) -> Option<Seq<char>> {
        match self {
            CommandError::IO(_) => None,
            CommandError::CommandTooLong => Some("command must be no longer than 1446 bytes"@),
            CommandError::NotLoggedIn => Some("tried to send a command before logging in"@),
        }
    }

    /// Describes the error in words. An I/O error describes itself.
    pub fn message(&self) -> (text: String)
        ensures
            self.description() matches Some(words) ==> text@ == words,
    {
        match self {
            CommandError::IO(e) => io_error_text(e),
            CommandError::CommandTooLong => "command must be no longer than 1446 bytes".to_owned(),
            CommandError::NotLoggedIn => "tried to send a command before logging in".to_owned(),
        }
    }
}

} // verus!
