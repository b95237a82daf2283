//! The error taxonomy of the logging pipeline.

use vstd::prelude::*;
use vstd::string::*;

verus! {

/// The ways in which the logging pipeline can fail.
#[derive(Debug, Clone, PartialEq, Eq)]
pub enum Error {
    /// An input/output failure, carrying the host's description of it.
    Io(String),
    /// The logger was used before a successful initialization.
    NotInitialized,
    /// A second initialization was attempted after a successful one.
    AlreadyInitialized,
    /// A lock guarding shared state (a file handle, the hook registry) was
    /// left in an inconsistent state by a panicking holder.
    Poisoned,
    /// A string or integer does not name a known severity level.
    ParseLogLevel,
}

impl Error {
    /// The text that `message` returns for this error.
    pub open spec fn message_spec(self) -> Seq<char> {
        match self {
            Error::Io(m) => "IO error: "@ + m@,
            Error::NotInitialized => "A logger has not been initialized"@,
            Error::AlreadyInitialized => "A logger has already been initialized"@,
            Error::Poisoned => "Mutex is poisoned"@,
            Error::ParseLogLevel => "Could not parse log level from string"@,
        }
    }

    /// A human-readable description of the error.
    pub fn message(&self) -> (r: String)
        ensures
            r@ == self.message_spec(),
    {
        match self {
            Error::Io(m) => {
                let mut s = String::from_str("IO error: ");
                s.append(m.as_str());
                s
            },
            Error::NotInitialized => String::from_str("A logger has not been initialized"),
            Error::AlreadyInitialized => String::from_str("A logger has already been initialized"),
            Error::Poisoned => String::from_str("Mutex is poisoned"),
            Error::ParseLogLevel => String::from_str("Could not parse log level from string"),
        }
    }
}

} // verus!
