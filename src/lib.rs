//! A uniform capability layer over authenticated encryption, post-quantum
//! signatures, elliptic-curve key agreement and key derivation.
//!
//! Each algorithm family is one generic implementation instantiated by a
//! sealed parameter type; the sizes a parameter type declares are the ones
//! every operation checks its inputs against.
pub mod error;
pub mod algorithm;
pub mod key;
mod sealed;
pub mod aead;
pub mod dilithium;
pub mod ecdh;
pub mod kdf;
