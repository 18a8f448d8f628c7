use vstd::prelude::*;

verus! {

/// Why an operation of this crate failed. Each stage has a variant of its own,
/// so a caller can tell an address that does not parse from a log entry whose
/// signature or fields do not fit.
#[derive(Clone, Copy, Debug, PartialEq, Eq, Structural)]
pub enum BridgeError {
    /// An address was not the bare hex text of exactly 20 bytes.
    Format,
    /// Topic 0 of a log entry is not the signature hash of the event asked for.
    SchemaMismatch,
    /// The wire form, the topic count or the packed data of a log entry is malformed.
    Decode,
    /// The prover denied the proof, or its answer never arrived.
    VerificationFailed,
    /// The caller is neither the owner of the asset nor an approved delegate.
    Unauthorized,
    /// No asset is recorded under the identifier.
    NotFound,
}

impl BridgeError {
    /// The stage that failed, as a short text without byte offsets.
    pub fn message(&self) -> (text: &'static str)
        ensures
            text@ == self.message_text(),
    {
        match self {
            BridgeError::Format => "address should be the hex text of 20 bytes",
            BridgeError::SchemaMismatch => "event signature does not match topic 0",
            BridgeError::Decode => "log entry is malformed",
            BridgeError::VerificationFailed => "proof was not verified",
            BridgeError::Unauthorized => "Unauthorized",
            BridgeError::NotFound => "Token not found",
        }
    }

    /// The text that `message` returns for each variant.
    pub open spec fn message_text(&self) -> Seq<char> {
        match self {
            BridgeError::Format => "address should be the hex text of 20 bytes"@,
            BridgeError::SchemaMismatch => "event signature does not match topic 0"@,
            BridgeError::Decode => "log entry is malformed"@,
            BridgeError::VerificationFailed => "proof was not verified"@,
            BridgeError::Unauthorized => "Unauthorized"@,
            BridgeError::NotFound => "Token not found"@,
        }
    }
}

} // verus!
