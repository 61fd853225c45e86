use vstd::prelude::*;

verus! {

/// What can go wrong in a call to the API.
#[derive(Debug, Clone)]
pub enum ApiError {
    /// The handle lacks what the call needs (an API key, a relay address).
    /// Raised before anything is sent.
    Configuration(String),
    /// The request could not be sent, or the reply carried an error status.
    Transport(String),
    /// The reply body does not have the shape that the endpoint documents.
    Parse(String),
}

impl ApiError {
    /// The message carried by the error.
    pub fn message(&self) -> (r: &String)
        ensures
            r == match self {
                ApiError::Configuration(m) => m,
                ApiError::Transport(m) => m,
                ApiError::Parse(m) => m,
            },
    {
        match self {
            ApiError::Configuration(m) => m,
            ApiError::Transport(m) => m,
            ApiError::Parse(m) => m,
        }
    }
}

} // verus!
