//! What can go wrong while the agent's settings are read and checked.

use vstd::prelude::*;
use vstd::string::StringExecFns;

verus! {

/// An error in the agent's settings.
#[derive(Debug)]
pub enum ErrorKind {
    /// The application of this name has no `params.access_token`.
    MissingAccessToken(String),
    /// The application of this name has no targets.
    MissingTargets(String),
    /// The settings file could not be read or understood.
    ProcessFileFailed,
    /// The setting of this name has a value that cannot be used.
    BadInput(&'static str, String),
}

/// An error with its texts as sequences of characters.
pub enum ErrorView {
    MissingAccessToken(Seq<char>),
    MissingTargets(Seq<char>),
    ProcessFileFailed,
    BadInput(Seq<char>, Seq<char>),
}

impl View for ErrorKind {
    type V = ErrorView;

    open spec fn view(&self) -> ErrorView {
        match self {
            ErrorKind::MissingAccessToken(name) => ErrorView::MissingAccessToken(name@),
            ErrorKind::MissingTargets(name) => ErrorView::MissingTargets(name@),
            ErrorKind::ProcessFileFailed => ErrorView::ProcessFileFailed,
            ErrorKind::BadInput(key, value) => ErrorView::BadInput(key@, value@),
        }
    }
}

/// The sentence that tells a user about an error.
pub open spec fn message_of(error: ErrorView) -> Seq<char> {
    match error {
        ErrorView::MissingAccessToken(name) => "app:"@ + name + " is missing params.access_token"@,
        ErrorView::MissingTargets(name) => "app:"@ + name + " is missing targets"@,
        ErrorView::ProcessFileFailed => "process_file failed"@,
        ErrorView::BadInput(key, value) => key + " had a bad value: "@ + value,
    }
}

/// The short name of an error's kind.
pub open spec fn description_of(error: ErrorView) -> Seq<char> {
    match error {
        ErrorView::MissingAccessToken(_) => "access_token is missing"@,
        ErrorView::MissingTargets(_) => "targets is missing"@,
        ErrorView::ProcessFileFailed => "process_file failed"@,
        ErrorView::BadInput(_, _) => "bad configuration file input"@,
    }
}

impl ErrorKind {
    /// The sentence that tells a user about this error.
    pub fn to_string(&self) -> (message: String)
        ensures
            message@ == message_of(self@),
    {
        match self {
            ErrorKind::MissingAccessToken(name) => {
                let mut message = "app:".to_owned();
                message.append(name.as_str());
                message.append(" is missing params.access_token");
                message
            },
            ErrorKind::MissingTargets(name) => {
                let mut message = "app:".to_owned();
                message.append(name.as_str());
                message.append(" is missing targets");
                message
            },
            ErrorKind::ProcessFileFailed => "process_file failed".to_owned(),
            ErrorKind::BadInput(key, value) => {
                let mut message = (*key).to_owned();
                message.append(" had a bad value: ");
                message.append(value.as_str());
                message
            },
        }
    }

    /// The short name of this error's kind.
    pub fn description(&self) -> (description: &'static str)
        ensures
            description@ == description_of(self@),
    {
        match self {
            ErrorKind::MissingAccessToken(_) => "access_token is missing",
            ErrorKind::MissingTargets(_) => "targets is missing",
            ErrorKind::ProcessFileFailed => "process_file failed",
            ErrorKind::BadInput(_, _) => "bad configuration file input",
        }
    }
}

} // verus!
