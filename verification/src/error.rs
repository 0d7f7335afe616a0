use vstd::prelude::*;

use crate::text::join_str;

verus! {

/// Errors surfaced by the player core.
#[derive(Debug, Clone, PartialEq, Eq)]
pub enum MusicbirbError {
    /// The server answered with an API level error.
    Api(String),
    /// The request never reached the server, or the connection broke.
    Network(String),
    /// The audio engine failed.
    Player(String),
    /// An internal invariant of the core was violated.
    Internal(String),
    /// The server refused the credentials.
    Auth(String),
}

/// The text that describes `e` to a user.
pub open spec fn error_text(e: MusicbirbError) -> Seq<char> {
    match e {
        MusicbirbError::Api(m) => "Subsonic API error: "@ + m@,
        MusicbirbError::Network(m) => "Network error: "@ + m@,
        MusicbirbError::Player(m) => "Player error: "@ + m@,
        MusicbirbError::Internal(m) => "Internal core error: "@ + m@,
        MusicbirbError::Auth(m) => "Authentication error: "@ + m@,
    }
}

impl MusicbirbError {
    /// The text that describes the error to a user.
    pub fn message(&self) -> (r: String)
        ensures
            r@ == error_text(*self),
    {
        match self {
            MusicbirbError::Api(m) => join_str("Subsonic API error: ", m.as_str()),
            MusicbirbError::Network(m) => join_str("Network error: ", m.as_str()),
            MusicbirbError::Player(m) => join_str("Player error: ", m.as_str()),
            MusicbirbError::Internal(m) => join_str("Internal core error: ", m.as_str()),
            MusicbirbError::Auth(m) => join_str("Authentication error: ", m.as_str()),
        }
    }
}

/// Why the player could not be set up for an embedding application.
#[derive(Debug, Clone, PartialEq, Eq)]
pub enum FfiInitError {
    Init(String),
}

impl FfiInitError {
    /// The text that describes the error to a user.
    pub fn message(&self) -> (r: String)
        ensures
            r@ == match *self {
                FfiInitError::Init(m) => "Initialization error: "@ + m@,
            },
    {
        match self {
            FfiInitError::Init(m) => join_str("Initialization error: ", m.as_str()),
        }
    }
}

/// Errors that can say whether retrying the failed operation may help.
pub trait Retryable {
    /// Whether the failure is transient, so that a retry may succeed.
    fn is_transient(&self) -> bool;
}

impl Retryable for MusicbirbError {
    /// Only network failures are considered transient.
    fn is_transient(&self) -> (r: bool)
        ensures
            r == (self is Network),
    {
        match self {
            MusicbirbError::Network(_) => true,
            _ => false,
        }
    }
}

} // verus!
