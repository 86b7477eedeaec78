//! The errors the stores and the query logic report.

use vstd::prelude::*;

verus! {

/// Why an operation of this library did not succeed.
#[derive(Debug, Clone, Copy, PartialEq, Eq, Structural)]
pub enum Error {
    /// Neither the environment nor the store holds what was asked for.
    NotFound,
    /// The settings file is not the JSON it should be.
    ConfigCorrupt,
    /// An encrypted blob is too short to hold its header, or what it
    /// decrypts to is not text.
    MalformedInput,
    /// The blob was tampered with, or the password is not the one it was
    /// sealed with.
    AuthenticationFailure,
    /// An API key that is empty or only whitespace.
    InvalidSecret,
    /// A model name outside the supported set.
    UnknownModel,
    /// The file system or the operating system refused.
    IOError,
    /// The request never reached the chat service.
    NetworkFailure,
    /// The chat service answered with an error of its own.
    UpstreamError,
    /// The operating system reports no user name to derive a password from.
    NoUsername,
    /// A message is too long for the cipher.
    MessageTooLong,
    /// A query was built before a model was chosen.
    MissingModel,
    /// A query was built without any message.
    NoMessages,
    /// The chat service answered without a single choice.
    EmptyResponse,
}

impl Error {
    /// The text shown to the user for this error.
    pub open spec fn text(self) -> Seq<char> {
        match self {
            Error::NotFound => "Not found"@,
            Error::ConfigCorrupt => "The configuration file is corrupt"@,
            Error::MalformedInput => "Malformed input"@,
            Error::AuthenticationFailure => "Could not decrypt the API key; enter it again"@,
            Error::InvalidSecret => "Received empty API key"@,
            Error::UnknownModel => "Not a valid model"@,
            Error::IOError => "Input/output error"@,
            Error::NetworkFailure => "The request failed"@,
            Error::UpstreamError => "The chat service reported an error"@,
            Error::NoUsername => "Could not determine the current user"@,
            Error::MessageTooLong => "The message is too long to encrypt"@,
            Error::MissingModel => "Cannot build query without model!"@,
            Error::NoMessages => "Cannot build query with no messages!"@,
            Error::EmptyResponse => "The chat service returned no choices"@,
        }
    }

    /// Returns the text shown to the user for this error.
    pub fn message(&self) -> (text: String)
        ensures
            text@ == self.text(),
    {
        match self {
            Error::NotFound => "Not found".to_owned(),
            Error::ConfigCorrupt => "The configuration file is corrupt".to_owned(),
            Error::MalformedInput => "Malformed input".to_owned(),
            Error::AuthenticationFailure => "Could not decrypt the API key; enter it again".to_owned(),
            Error::InvalidSecret => "Received empty API key".to_owned(),
            Error::UnknownModel => "Not a valid model".to_owned(),
            Error::IOError => "Input/output error".to_owned(),
            Error::NetworkFailure => "The request failed".to_owned(),
            Error::UpstreamError => "The chat service reported an error".to_owned(),
            Error::NoUsername => "Could not determine the current user".to_owned(),
            Error::MessageTooLong => "The message is too long to encrypt".to_owned(),
            Error::MissingModel => "Cannot build query without model!".to_owned(),
            Error::NoMessages => "Cannot build query with no messages!".to_owned(),
            Error::EmptyResponse => "The chat service returned no choices".to_owned(),
        }
    }
}

} // verus!
