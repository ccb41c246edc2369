use vstd::prelude::*;

verus! {

/// The error taxonomy of the library.
///
/// Every variant but `HostError` is a *domain* error: the command dispatcher
/// renders it as a styled message and returns a default value instead of
/// propagating it. `HostError` carries a failure of the host editor's own
/// API and is always re-raised to the host unchanged.
#[derive(Debug, PartialEq, Eq)]
pub enum Error {
    /// Setup was called a second time in the same session.
    AlreadySetup,
    /// The host-supplied preferences violate the configuration schema;
    /// `option` is the path of the offending field.
    BadPreferences { option: String, why: String },
    /// A command received malformed input.
    InvalidArguments { command: String, why: String },
    /// An internal invariant was violated, e.g. a malformed bracket token
    /// reached the reference parser.
    InternalError { why: String },
    /// The cursor is not on any reference.
    NoReference,
    /// The resolved note file does not exist on disk.
    FileNotFound { file: String },
    /// An opaque failure originating from the host API.
    HostError { why: String },
}

/// The one-line message rendered for an error, exactly as the user sees it.
pub open spec fn spec_message(e: Error) -> Seq<char> {
    match e {
        Error::AlreadySetup => "can't setup more than once per session"@,
        Error::BadPreferences { option, why } => "error parsing `"@ + option@ + "`: "@ + why@,
        Error::InvalidArguments { command, why } => "invalid arguments to command `"@ + command@
            + "`: "@ + why@,
        Error::InternalError { why } => "internal error: "@ + why@,
        Error::NoReference => "cursor is not on a reference"@,
        Error::FileNotFound { file } => "file '"@ + file@ + "' not found"@,
        Error::HostError { why } => why@,
    }
}

impl Error {
    /// Render the user-facing message for this error.
    pub fn message(&self) -> (r: String)
        ensures
            r@ == spec_message(*self),
    {
        match self {
            Error::AlreadySetup => String::from_str("can't setup more than once per session"),
            Error::BadPreferences { option, why } => {
                let mut s = String::from_str("error parsing `");
                s.append(option.as_str());
                s.append("`: ");
                s.append(why.as_str());
                s
            },
            Error::InvalidArguments { command, why } => {
                let mut s = String::from_str("invalid arguments to command `");
                s.append(command.as_str());
                s.append("`: ");
                s.append(why.as_str());
                s
            },
            Error::InternalError { why } => {
                let mut s = String::from_str("internal error: ");
                s.append(why.as_str());
                s
            },
            Error::NoReference => String::from_str("cursor is not on a reference"),
            Error::FileNotFound { file } => {
                let mut s = String::from_str("file '");
                s.append(file.as_str());
                s.append("' not found");
                s
            },
            Error::HostError { why } => why.clone(),
        }
    }
}

} // verus!
