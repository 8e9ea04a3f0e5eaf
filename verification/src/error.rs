//! Errors of the embedded library.
//!
//! Each variant carries the description of what went wrong; errors raised by the
//! storage engine are carried by their message.
use vstd::prelude::*;
use vstd::string::*;

verus! {

/// Errors of the embedded library.
#[derive(Debug, Clone, PartialEq, Eq)]
pub enum EmbeddedError {
    Storage(String),
    Operation(String),
    CollectionNotFound(String),
    InvalidConfig(String),
    Io(String),
}

impl EmbeddedError {
    /// The text that the error is reported with: its kind, `": "`, and its detail.
    pub open spec fn message_of(self) -> Seq<char> {
        match self {
            EmbeddedError::Storage(s) => "Storage error: "@ + s@,
            EmbeddedError::Operation(s) => "Operation error: "@ + s@,
            EmbeddedError::CollectionNotFound(s) => "Collection not found: "@ + s@,
            EmbeddedError::InvalidConfig(s) => "Invalid configuration: "@ + s@,
            EmbeddedError::Io(s) => "IO error: "@ + s@,
        }
    }

    /// The text that the error is reported with.
    pub fn message(&self) -> (res: String)
        ensures
            res@ == self.message_of(),
    {
        match self {
            EmbeddedError::Storage(s) => String::from_str("Storage error: ").concat(s.as_str()),
            EmbeddedError::Operation(s) => String::from_str("Operation error: ").concat(s.as_str()),
            EmbeddedError::CollectionNotFound(s) => String::from_str("Collection not found: ").concat(
                s.as_str(),
            ),
            EmbeddedError::InvalidConfig(s) => String::from_str("Invalid configuration: ").concat(
                s.as_str(),
            ),
            EmbeddedError::Io(s) => String::from_str("IO error: ").concat(s.as_str()),
        }
    }
}

} // verus!
