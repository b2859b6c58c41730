//! What can go wrong while building or comparing fingerprints.

use vstd::prelude::*;

verus! {

/// The reasons for which an operation of this library gives no result.
#[derive(Clone, Copy, Debug, PartialEq, Eq, Structural)]
pub enum Error {
    /// A JSON text or a corpus entry is malformed.
    Parse,
    /// A candidate fingerprint does not have the required length.
    InvalidFingerprint,
    /// A text is longer than the hashers accept.
    Oversized,
}

impl Error {
    /// The text shown to the user for each error.
    pub open spec fn message_text(self) -> Seq<char> {
        match self {
            Error::Parse => "Malformed input: expected JSON text, or a corpus entry of the form <name>----<fingerprint>"@,
            Error::InvalidFingerprint => "Invalid length, please check your fingerprint, it must be 152 characters long"@,
            Error::Oversized => "Input too long, it cannot be hashed"@,
        }
    }

    /// A diagnostic for the user. For a candidate of the wrong length it
    /// states the length that is required.
    pub fn message(&self) -> (text: String)
        ensures
            text@ == self.message_text(),
    {
        match self {
            Error::Parse => "Malformed input: expected JSON text, or a corpus entry of the form <name>----<fingerprint>".to_owned(),
            Error::InvalidFingerprint => "Invalid length, please check your fingerprint, it must be 152 characters long".to_owned(),
            Error::Oversized => "Input too long, it cannot be hashed".to_owned(),
        }
    }
}

} // verus!
