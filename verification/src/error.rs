//! Why a rules database was refused.
use vstd::prelude::*;

verus! {

/// The reasons for which loading a rules database fails.
#[derive(Debug, Clone, Copy, PartialEq, Eq, Structural)]
pub enum ConfigError {
    /// The file is shorter than the fixed header.
    FileTooSmall,
    /// The header announces more payload bytes than the file holds.
    PayloadTruncated,
    /// The configured public key is not a valid Ed25519 point, or the
    /// signature does not verify over the payload with it.
    InvalidSignature,
    /// The payload is not a well-formed rules table.
    InvalidPayload,
}

} // verus!
