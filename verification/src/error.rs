//! The error taxonomy shared by the whole library.

use vstd::prelude::*;

verus! {

/// Categorizes errors so that callers can route them: parse failures,
/// third-party (external API / CDN) failures, store and cache failures,
/// configuration problems, and the explicit cache-miss signal, which is a
/// normal negative-lookup result rather than an error condition.
#[derive(Debug, Clone, Copy, PartialEq, Eq, Structural)]
pub enum ErrorType {
    ParseError,
    ThirdPartyError,
    MissingConfig,
    DatabaseError,
    InvalidConfig,
    GrpcError,
    CacheError,
    CacheMiss,
    UnknownError,
}

/// An error with its category and a human-readable message.
#[derive(Debug)]
pub struct Error {
    pub error_type: ErrorType,
    pub message: String,
}

/// The name of an error category, as a character sequence.
pub open spec fn error_type_name(t: ErrorType) -> Seq<char> {
    match t {
        ErrorType::ParseError => "ParseError"@,
        ErrorType::ThirdPartyError => "ThirdPartyError"@,
        ErrorType::MissingConfig => "MissingConfig"@,
        ErrorType::DatabaseError => "DatabaseError"@,
        ErrorType::InvalidConfig => "InvalidConfig"@,
        ErrorType::GrpcError => "GrpcError"@,
        ErrorType::CacheError => "CacheError"@,
        ErrorType::CacheMiss => "CacheMiss"@,
        ErrorType::UnknownError => "UnknownError"@,
    }
}

impl Error {
    pub fn new(error_type: ErrorType, message: String) -> (r: Error)
        ensures
            r.error_type == error_type,
            r.message == message,
    {
        Error { error_type, message }
    }

    /// Renders the error as `<category>: <message>` for reporting.
    pub fn display_string(&self) -> (r: String)
        ensures
            r@ == error_type_name(self.error_type) + ": "@ + self.message@,
    {
        let name: &str = match self.error_type {
            ErrorType::ParseError => "ParseError",
            ErrorType::ThirdPartyError => "ThirdPartyError",
            ErrorType::MissingConfig => "MissingConfig",
            ErrorType::DatabaseError => "DatabaseError",
            ErrorType::InvalidConfig => "InvalidConfig",
            ErrorType::GrpcError => "GrpcError",
            ErrorType::CacheError => "CacheError",
            ErrorType::CacheMiss => "CacheMiss",
            ErrorType::UnknownError => "UnknownError",
        };
        let mut r = String::from_str(name);
        r.append(": ");
        r.append(self.message.as_str());
        r
    }
}

} // verus!
