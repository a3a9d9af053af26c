//! The error taxonomy shared by every capability.
use vstd::prelude::*;

pub use crate::key::KeyError;

verus! {

/// Errors of the authenticated-encryption capability.
#[derive(Debug, Clone, Copy, PartialEq, Eq, Structural)]
pub enum SymmetricError {
    /// The key length differs from the scheme's key size.
    InvalidKeySize,
    /// The nonce length differs from the scheme's nonce size.
    InvalidNonceSize,
    /// The caller's output buffer cannot hold the result.
    OutputTooSmall,
    /// The ciphertext is shorter than an authentication tag.
    InvalidCiphertext,
    /// The primitive refused to seal the plaintext.
    Encryption,
    /// Authentication failed: the ciphertext, tag, nonce or associated data
    /// is not what was sealed.
    Decryption,
}

/// Errors of the signature capability.
#[derive(Debug, Clone, Copy, PartialEq, Eq, Structural)]
pub enum SignatureError {
    /// The private key could not be used to sign.
    Signing,
    /// The signature does not verify for this key and message.
    Verification,
    /// The signature bytes are not a well-formed signature encoding.
    InvalidSignature,
}

/// Errors of the key-agreement capability.
#[derive(Debug, Clone, Copy, PartialEq, Eq, Structural)]
pub enum KeyAgreementError {
    /// The peer's public key is not a valid encoding of a curve point.
    InvalidPeerPublicKey,
}

/// Errors of the key-derivation capability.
#[derive(Debug, Clone, Copy, PartialEq, Eq, Structural)]
pub enum KdfError {
    /// The requested output is longer than the derivation can produce.
    InvalidOutputLength,
}

/// Every error a capability operation can return.
#[derive(Debug, Clone, Copy, PartialEq, Eq, Structural)]
pub enum Error {
    Key(KeyError),
    Symmetric(SymmetricError),
    Signature(SignatureError),
    KeyAgreement(KeyAgreementError),
    Kdf(KdfError),
}

impl Error {
    /// A short human-readable description of the error.
    pub fn message(&self) -> (r: &'static str) {
        match self {
            Error::Key(KeyError::GenerationFailed) => "key generation failed",
            Error::Key(KeyError::InvalidEncoding) => "invalid key encoding",
            Error::Key(KeyError::InvalidLength) => "invalid key length",
            Error::Symmetric(SymmetricError::InvalidKeySize) => "invalid key size",
            Error::Symmetric(SymmetricError::InvalidNonceSize) => "invalid nonce size",
            Error::Symmetric(SymmetricError::OutputTooSmall) => "output buffer too small",
            Error::Symmetric(SymmetricError::InvalidCiphertext) => "invalid ciphertext",
            Error::Symmetric(SymmetricError::Encryption) => "encryption failed",
            Error::Symmetric(SymmetricError::Decryption) => "decryption failed",
            Error::Signature(SignatureError::Signing) => "signing failed",
            Error::Signature(SignatureError::Verification) => "signature verification failed",
            Error::Signature(SignatureError::InvalidSignature) => "invalid signature encoding",
            Error::KeyAgreement(KeyAgreementError::InvalidPeerPublicKey) => "invalid peer public key",
            Error::Kdf(KdfError::InvalidOutputLength) => "invalid output length",
        }
    }
}

} // verus!
