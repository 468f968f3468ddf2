//! The errors of the engine, by kind.
use vstd::prelude::*;

verus! {

/// What went wrong, with a message for the log.
#[derive(Debug)]
pub enum EngineError {
    /// The configuration cannot be used.
    Config(String),
    /// The stream or the store could not be reached; the event is delivered again.
    Transport(String),
    /// An event or a record could not be decoded.
    Codec(String),
    /// A key of the store holds nothing.
    NotFound(String),
    /// The event does not fit the job's current status.
    State(String),
    /// A certificate could not be issued.
    Crypto(String),
}

impl EngineError {
    /// The message carried by the error.
    pub fn message(&self) -> (r: &String)
        ensures
            r == match self {
                EngineError::Config(m) => m,
                EngineError::Transport(m) => m,
                EngineError::Codec(m) => m,
                EngineError::NotFound(m) => m,
                EngineError::State(m) => m,
                EngineError::Crypto(m) => m,
            },
    {
        match self {
            EngineError::Config(m) => m,
            EngineError::Transport(m) => m,
            EngineError::Codec(m) => m,
            EngineError::NotFound(m) => m,
            EngineError::State(m) => m,
            EngineError::Crypto(m) => m,
        }
    }
}

} // verus!
