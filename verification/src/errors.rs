use vstd::prelude::*;
use crate::status::canonical_phrase_of;
use crate::status::map_response_codes_to_error_message;

verus! {

/// Why credential resolution failed: the chain ran out of sources for one of
/// the two fields.
#[derive(Debug, Clone, PartialEq, Eq)]
pub enum CredentialError {
    MissingUsername,
    MissingPassword,
}

/// Why the configuration file could not even be looked for.
#[derive(Debug, Clone, PartialEq, Eq)]
pub enum ConfigError {
    NoHomeDirectory,
}

/// A request that cannot be built because the command context lacks or
/// over-determines a field.
#[derive(Debug, Clone, PartialEq, Eq)]
pub enum ValidationError {
    MissingContainerName,
    MissingImageName,
    TagDigestConflict,
}

/// A response body that does not have the shape the registry promises.
#[derive(Debug, Clone, PartialEq, Eq)]
pub enum ParseError {
    InvalidJson,
    BadShape,
    BadObjectShape,
}

/// Everything that can go wrong between resolving credentials and reading a
/// registry response. `Transport` carries the HTTP status code of a failed
/// exchange or of a non-success response, 0 when none was obtainable.
#[derive(Debug, Clone, PartialEq, Eq)]
pub enum RegistryError {
    Credential(CredentialError),
    Config(ConfigError),
    ProtocolUnsupported,
    Transport(u16),
    Auth,
    Validation(ValidationError),
    Parse(ParseError),
}

/// The message printed for each error, as a sequence of characters; for
/// `Transport` it is the status code's canonical reason phrase or its
/// fallback.
pub open spec fn spec_message(e: RegistryError) -> Seq<char> {
    match e {
        RegistryError::Credential(CredentialError::MissingUsername) => "Could not find username in credential chain."@,
        RegistryError::Credential(CredentialError::MissingPassword) => "Could not find password in credential chain."@,
        RegistryError::Config(ConfigError::NoHomeDirectory) => "Unable to detect home directory"@,
        RegistryError::ProtocolUnsupported => "The Docker v2 API is not supported."@,
        RegistryError::Transport(code) => match canonical_phrase_of(code) {
            Some(p) => p,
            None => "Unknown status code received"@,
        },
        RegistryError::Auth => "Invalid username and password"@,
        RegistryError::Validation(ValidationError::MissingContainerName) => "Must provide the container name"@,
        RegistryError::Validation(ValidationError::MissingImageName) => "Must provide an image name."@,
        RegistryError::Validation(ValidationError::TagDigestConflict) => "Must either specify a tag or a digest."@,
        RegistryError::Parse(ParseError::InvalidJson) => "Failed to deserialize response"@,
        RegistryError::Parse(ParseError::BadShape) => "Failed to parse response"@,
        RegistryError::Parse(ParseError::BadObjectShape) => "Failed to parse response object"@,
    }
}

impl RegistryError {
    /// The human-readable message for this error.
    pub fn message(&self) -> (r: String)
        ensures
            r@ == spec_message(*self),
    {
        match self {
            RegistryError::Credential(CredentialError::MissingUsername) => "Could not find username in credential chain.".to_owned(),
            RegistryError::Credential(CredentialError::MissingPassword) => "Could not find password in credential chain.".to_owned(),
            RegistryError::Config(ConfigError::NoHomeDirectory) => "Unable to detect home directory".to_owned(),
            RegistryError::ProtocolUnsupported => "The Docker v2 API is not supported.".to_owned(),
            RegistryError::Transport(code) => map_response_codes_to_error_message(*code),
            RegistryError::Auth => "Invalid username and password".to_owned(),
            RegistryError::Validation(ValidationError::MissingContainerName) => "Must provide the container name".to_owned(),
            RegistryError::Validation(ValidationError::MissingImageName) => "Must provide an image name.".to_owned(),
            RegistryError::Validation(ValidationError::TagDigestConflict) => "Must either specify a tag or a digest.".to_owned(),
            RegistryError::Parse(ParseError::InvalidJson) => "Failed to deserialize response".to_owned(),
            RegistryError::Parse(ParseError::BadShape) => "Failed to parse response".to_owned(),
            RegistryError::Parse(ParseError::BadObjectShape) => "Failed to parse response object".to_owned(),
        }
    }
}

} // verus!
