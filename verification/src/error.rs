//! The error kinds that the framework reports.

use vstd::prelude::*;

verus! {

/// Everything that can go wrong while configuring the handler, dispatching
/// an interaction, or talking to the REST API.
#[derive(Debug, Clone, Copy, PartialEq, Eq, Structural)]
pub enum Error {
    /// The inbound request is missing its signature headers or carries a
    /// signature that does not verify against the application public key.
    AuthenticationFailed,
    /// The interaction names a command that is not registered locally.
    CommandNotFound,
    /// A raw option value's tag does not match the statically expected type.
    WrongOptionType,
    /// A required option is absent from the interaction payload.
    MissingOption,
    /// The application public key is absent or malformed at build time.
    ConfigurationError,
    /// A JSON number is outside the range of `i64` or `u64`.
    JsonValueError,
    /// The bot lacks permission for the attempted REST operation.
    Forbidden,
    /// The REST endpoint was not found.
    NotFound,
    /// The REST call failed with some other status.
    HttpError,
}

impl Error {
    /// A short human-readable description of the error.
    pub fn message(&self) -> (r: String)
        ensures
            r@ == self.spec_message(),
    {
        match self {
            Error::AuthenticationFailed => String::from_str("interaction verification failed"),
            Error::CommandNotFound => String::from_str("command not found"),
            Error::WrongOptionType => String::from_str("wrong option type was passed"),
            Error::MissingOption => String::from_str("required option is missing"),
            Error::ConfigurationError => String::from_str("invalid handler configuration"),
            Error::JsonValueError => String::from_str("parsing json value is out of i64 or u64"),
            Error::Forbidden => String::from_str("Bot don't have permission for the operation"),
            Error::NotFound => String::from_str("The Endpoint is not found"),
            Error::HttpError => String::from_str("An Http Exception is raised"),
        }
    }

    pub open spec fn spec_message(&self) -> Seq<char> {
        match self {
            Error::AuthenticationFailed => "interaction verification failed"@,
            Error::CommandNotFound => "command not found"@,
            Error::WrongOptionType => "wrong option type was passed"@,
            Error::MissingOption => "required option is missing"@,
            Error::ConfigurationError => "invalid handler configuration"@,
            Error::JsonValueError => "parsing json value is out of i64 or u64"@,
            Error::Forbidden => "Bot don't have permission for the operation"@,
            Error::NotFound => "The Endpoint is not found"@,
            Error::HttpError => "An Http Exception is raised"@,
        }
    }
}

} // verus!
