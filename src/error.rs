use vstd::prelude::*;

verus! {

/// Every way in which the library's pipeline can refuse its inputs.
#[derive(Debug, Clone, Copy, PartialEq, Eq, Structural)]
pub enum EmbedError {
    /// No program-identifier source, or more than one, was given.
    Usage,
    /// The hex form of the program identifier is not valid hex.
    HexDecode,
    /// The verifying-key bytes are empty.
    EmptyKey,
    /// The verifying-key bytes decode under neither supported encoding.
    UnrecognizedKeyFormat,
    /// A validated key could not be re-encoded (an internal defect).
    SerializationFault,
}

impl EmbedError {
    /// A one-line human-readable description of the error.
    pub fn message(&self) -> (r: &'static str) {
        match self {
            EmbedError::Usage => "provide exactly one of --program-id-str | --program-id-hex | --program-id-file",
            EmbedError::HexDecode => "program-id-hex: invalid hex string",
            EmbedError::EmptyKey => "verifying key file is empty",
            EmbedError::UnrecognizedKeyFormat => "failed to deserialize verifying key (neither compressed nor uncompressed)",
            EmbedError::SerializationFault => "failed to serialize VK in compressed canonical form",
        }
    }
}

} // verus!
