//! The error taxonomy of the encoder.

use vstd::prelude::*;

verus! {

/// Everything that can end an encode early.
///
/// The in-memory sink never rejects a write, so the encoder itself raises
/// only `KeyMustBeAString`; the other kinds exist for the callers that drive
/// it: `Message` carries an opaque text surfaced by the value-description
/// mechanism, and `Io` reports a sink that refused bytes.
#[derive(Debug)]
pub enum Error {
    /// Opaque text from the mechanism that describes values to the encoder.
    Message(String),
    /// The byte sink rejected a write.
    Io,
    /// A map key of any kind other than a string was offered.
    KeyMustBeAString,
}

impl Error {
    /// A short text for each error kind.
    pub fn description(&self) -> (r: String)
        ensures
            match self {
                Error::Message(msg) => r@ == msg@,
                Error::Io => r@ == "io error"@,
                Error::KeyMustBeAString => r@ == "key must be a string"@,
            },
    {
        match self {
            Error::Message(msg) => msg.clone(),
            Error::Io => "io error".to_owned(),
            Error::KeyMustBeAString => "key must be a string".to_owned(),
        }
    }
}

} // verus!
