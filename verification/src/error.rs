//! The failures that the entry points report.

use vstd::prelude::*;
use vstd::string::StringExecFns;

verus! {

/// Why an entry point failed.
#[derive(Debug)]
pub enum ExTokenizersError {
    /// A number that was meant as a character is not a Unicode scalar value.
    InvalidChar,
    /// The tokenization engine refused the request; the payload is its message.
    Tokenizer(String),
    /// Reading or writing failed; the payload is the message.
    Io(String),
    /// An invariant of the library's own data was found broken.
    Internal(String),
    /// The request itself was malformed.
    Other(String),
    /// A failure of a kind that has no variant of its own; the payload is its message.
    Unknown(String),
}

/// The one thing that a maker of resources says when it refuses its arguments: they
/// are not acceptable.
#[derive(Clone, Copy, Debug, PartialEq, Eq, Structural)]
pub struct BadArg;

/// The text that `message` gives for an error.
pub open spec fn message_text(e: ExTokenizersError) -> Seq<char> {
    match e {
        ExTokenizersError::InvalidChar => "Invalid Char"@,
        ExTokenizersError::Tokenizer(_) => "Tokenizer Error"@,
        ExTokenizersError::Io(_) => "IO Error"@,
        ExTokenizersError::Internal(m) => "Internal Error: "@ + m@,
        ExTokenizersError::Other(m) => "Other error: "@ + m@,
        ExTokenizersError::Unknown(m) => m@,
    }
}

impl ExTokenizersError {
    /// The human-readable form of the error.
    pub fn message(&self) -> (text: String)
        ensures
            text@ == message_text(*self),
    {
        match self {
            ExTokenizersError::InvalidChar => "Invalid Char".to_owned(),
            ExTokenizersError::Tokenizer(_) => "Tokenizer Error".to_owned(),
            ExTokenizersError::Io(_) => "IO Error".to_owned(),
            ExTokenizersError::Internal(m) => String::from_str("Internal Error: ").concat(m.as_str()),
            ExTokenizersError::Other(m) => String::from_str("Other error: ").concat(m.as_str()),
            ExTokenizersError::Unknown(m) => m.clone(),
        }
    }
}

} // verus!
