//! The errors of the timer, and how each reads.

use vstd::prelude::*;
use vstd::string::StringExecFns;

verus! {

/// The kinds of failure the timer distinguishes.
#[derive(Debug, Clone, Copy, PartialEq, Eq, Hash, Structural)]
pub enum PomodoroError {
    NotificationError,
    ConfigurationError,
    UdsHandlerError,
    UserInputHandlerError,
    ParseError,
}

/// What a notification call hands back.
pub type NotifyResult = Result<(), NotificationError>;

/// A piece of input that could not be read.
#[derive(Debug, Clone, PartialEq, Eq)]
pub struct ParseError {
    pub message: Option<String>,
}

impl ParseError {
    /// A parse error that says what went wrong.
    pub fn new(message: String) -> (error: Self)
        ensures
            error.message == Some(message),
    {
        Self { message: Some(message) }
    }

    /// How this error reads.
    pub open spec fn text(&self) -> Seq<char> {
        match self.message {
            Some(message) => "error occurred while parsing: "@ + message@,
            None => "error occurred while parsing"@,
        }
    }

    /// Writes this error out for a reader.
    pub fn describe(&self) -> (text: String)
        ensures
            text@ == self.text(),
    {
        match &self.message {
            Some(message) => {
                String::from_str("error occurred while parsing: ").concat(message.as_str())
            },
            None => String::from_str("error occurred while parsing"),
        }
    }
}

/// NotificationError enumerates all errors related to notification.
#[derive(Debug, Clone, PartialEq, Eq)]
pub enum NotificationError {
    /// The desktop refused or failed to show a notification; holds what the
    /// desktop said of it.
    Desktop(String),
    EmptyConfiguration,
    NewNotification(ParseError),
    DeletionFail(String),
}

impl NotificationError {
    /// How this error reads. What the desktop said is not repeated.
    pub open spec fn text(&self) -> Seq<char> {
        match self {
            NotificationError::Desktop(_) => "NotificationError::Desktop"@,
            NotificationError::EmptyConfiguration => "configuration is empty"@,
            NotificationError::NewNotification(error) => "failed to get new notification: "@
                + error.text(),
            NotificationError::DeletionFail(message) => message@,
        }
    }

    /// Writes this error out for a reader.
    pub fn describe(&self) -> (text: String)
        ensures
            text@ == self.text(),
    {
        match self {
            NotificationError::Desktop(_) => String::from_str("NotificationError::Desktop"),
            NotificationError::EmptyConfiguration => String::from_str("configuration is empty"),
            NotificationError::NewNotification(error) => {
                let inner = error.describe();
                String::from_str("failed to get new notification: ").concat(inner.as_str())
            },
            NotificationError::DeletionFail(message) => message.clone(),
        }
    }
}

} // verus!
