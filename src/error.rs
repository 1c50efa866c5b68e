use vstd::prelude::*;

verus! {

/// Every failure a protocol operation can report; each one is scoped to the
/// single call that returned it.
#[derive(Debug, Clone, Copy, PartialEq, Eq, Structural)]
pub enum ProtocolError {
    /// A key, signature or nonce does not have its fixed byte length.
    InvalidKeyLength,
    /// A token encoding is too short, too long or holds an out-of-range field.
    MalformedToken,
    /// An envelope could not be opened: wrong key, tampered or truncated input.
    DecryptionFailed,
    /// A token decrypted and parsed, but its signature does not verify.
    InvalidSignature,
    /// No pending session exists under the requested identifier.
    SessionNotFound,
    /// Key storage could not supply the requested key material.
    KeyUnavailable,
}

} // verus!
