use vstd::prelude::*;

verus! {

/// Failure reported by the HTTP transport layer, normalized to the status
/// code that came with it, or 0 when none was obtainable.
#[derive(Debug, Clone, PartialEq, Eq)]
pub struct Error {
    pub status_code: u16,
}

impl Error {
    /// The status code carried by this transport failure.
    pub fn status_code(self) -> (r: u16)
        ensures
            r == self.status_code,
    {
        self.status_code
    }
}

/// Username and password attached to a request as HTTP Basic auth.
#[derive(Debug, Clone, PartialEq, Eq)]
pub struct AuthContext {
    pub username: String,
    pub password: String,
}

/// Everything the protocol layer learns from one HTTP exchange: either a
/// response with its status and body, or a transport failure.
#[derive(Debug, Clone, PartialEq, Eq)]
pub enum HttpOutcome {
    Response { status: u16, body: String },
    Failed(Error),
}

} // verus!
