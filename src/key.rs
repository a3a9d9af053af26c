//! The key lifecycle capability and the owned byte buffers that carry keys,
//! signatures and secrets.
use vstd::prelude::*;
use vstd::slice::slice_to_vec;

use crate::algorithm::Algorithm;
use crate::error::Error;

verus! {

/// Errors of the key lifecycle.
#[derive(Debug, Clone, Copy, PartialEq, Eq, Structural)]
pub enum KeyError {
    /// Generating a key failed.
    GenerationFailed,
    /// The bytes are not a valid encoding of a key.
    InvalidEncoding,
    /// The bytes have the wrong length for a key.
    InvalidLength,
}

/// Serialization support a key type offers. Serialized forms are built from
/// `Key::to_bytes` and checked by `Key::from_bytes`, so every type has it.
pub trait ConditionallySerde {}

impl<T> ConditionallySerde for T {}

/// Byte-level (de)serialization shared by every key type.
pub trait Key: Sized + Clone + ConditionallySerde {
    /// The byte strings that `from_bytes` accepts.
    spec fn accepts(bytes: Seq<u8>) -> bool;

    /// The error `from_bytes` returns for a byte string it does not accept.
    spec fn rejection() -> Error;

    /// The byte encoding of this key.
    spec fn encoding(&self) -> Seq<u8>;

    /// Validates `bytes` against the scheme and builds the key from them.
    fn from_bytes(bytes: &[u8]) -> (r: Result<Self, Error>)
        ensures
            match r {
                Ok(k) => Self::accepts(bytes@) && k.encoding() == bytes@,
                Err(e) => !Self::accepts(bytes@) && e == Self::rejection(),
            },
    ;

    /// The key's byte encoding.
    fn to_bytes(&self) -> (r: Result<Vec<u8>, Error>)
        ensures
            match r {
                Ok(v) => v@ == self.encoding(),
                Err(_) => false,
            },
    ;
}

/// A public key: freely copyable and compared by content.
pub trait PublicKey: Key {}

/// A private key, whose bytes are wiped when it is released.
pub trait PrivateKey<P: PublicKey>: Key {
    /// Overwrites the key bytes and empties the key.
    fn zeroize(&mut self)
        ensures
            final(self).encoding() == Seq::<u8>::empty(),
    ;
}

/// The keys of an asymmetric scheme.
pub trait AsymmetricKeySet: Algorithm {
    type PublicKey: PublicKey;
    type PrivateKey: PrivateKey<Self::PublicKey>;
}

/// The key of a symmetric scheme.
pub trait SymmetricKeySet: Algorithm {
    type Key: Key;
}

/// Relies on `zeroize::Zeroize` for `Vec<u8>`: every byte, including spare
/// capacity, is overwritten with zero and the vector is cleared.
#[verifier::external_body]
pub(crate) fn wipe(bytes: &mut Vec<u8>)
    ensures
        final(bytes)@ == Seq::<u8>::empty(),
    opens_invariants none
    no_unwind
{
    zeroize::Zeroize::zeroize(bytes);
}

/// A secret symmetric key; its bytes are wiped when it is dropped.
#[derive(Debug, Clone)]
pub struct SymmetricKey {
    bytes: Vec<u8>,
}

impl View for SymmetricKey {
    type V = Seq<u8>;

    closed spec fn view(&self) -> Seq<u8> {
        self.bytes@
    }
}

impl SymmetricKey {
    /// Takes ownership of `bytes` as key material.
    pub fn new(bytes: Vec<u8>) -> (r: SymmetricKey)
        ensures
            r@ == bytes@,
    {
        SymmetricKey { bytes }
    }

    pub fn len(&self) -> (r: usize)
        ensures
            r == self@.len(),
    {
        self.bytes.len()
    }

    pub fn as_bytes(&self) -> (r: &[u8])
        ensures
            r@ == self@,
    {
        self.bytes.as_slice()
    }

    /// A copy of the key bytes.
    pub fn to_vec(&self) -> (r: Vec<u8>)
        ensures
            r@ == self@,
    {
        slice_to_vec(self.bytes.as_slice())
    }
}

impl Key for SymmetricKey {
    open spec fn accepts(bytes: Seq<u8>) -> bool {
        true
    }

    open spec fn rejection() -> Error {
        Error::Key(KeyError::InvalidLength)
    }

    open spec fn encoding(&self) -> Seq<u8> {
        self@
    }

    fn from_bytes(bytes: &[u8]) -> (r: Result<Self, Error>) {
        Ok(SymmetricKey { bytes: slice_to_vec(bytes) })
    }

    fn to_bytes(&self) -> (r: Result<Vec<u8>, Error>) {
        Ok(self.to_vec())
    }
}

impl Drop for SymmetricKey {
    fn drop(&mut self)
        opens_invariants none
        no_unwind
    {
        wipe(&mut self.bytes);
    }
}

/// A detached signature: opaque bytes whose length depends on the scheme.
#[derive(Debug, Clone, PartialEq, Eq)]
pub struct Signature(pub Vec<u8>);

impl View for Signature {
    type V = Seq<u8>;

    open spec fn view(&self) -> Seq<u8> {
        self.0@
    }
}

impl Signature {
    pub fn as_bytes(&self) -> (r: &[u8])
        ensures
            r@ == self@,
    {
        self.0.as_slice()
    }

    pub fn len(&self) -> (r: usize)
        ensures
            r == self@.len(),
    {
        self.0.len()
    }
}

/// Raw keying material produced by key agreement; its bytes are wiped when
/// it is dropped. It is not fit for direct use as a symmetric key: run it
/// through a key derivation first.
#[derive(Debug, Clone)]
pub struct SharedSecret {
    bytes: Vec<u8>,
}

impl View for SharedSecret {
    type V = Seq<u8>;

    closed spec fn view(&self) -> Seq<u8> {
        self.bytes@
    }
}

impl SharedSecret {
    pub(crate) fn new(bytes: Vec<u8>) -> (r: SharedSecret)
        ensures
            r@ == bytes@,
    {
        SharedSecret { bytes }
    }

    pub fn as_bytes(&self) -> (r: &[u8])
        ensures
            r@ == self@,
    {
        self.bytes.as_slice()
    }
}

impl PartialEq for SharedSecret {
    fn eq(&self, other: &SharedSecret) -> (r: bool) {
        bytes_equal(self.bytes.as_slice(), other.bytes.as_slice())
    }
}

impl vstd::std_specs::cmp::PartialEqSpecImpl for SharedSecret {
    open spec fn obeys_eq_spec() -> bool {
        true
    }

    open spec fn eq_spec(&self, other: &SharedSecret) -> bool {
        self@ == other@
    }
}

impl Drop for SharedSecret {
    fn drop(&mut self)
        opens_invariants none
        no_unwind
    {
        wipe(&mut self.bytes);
    }
}

/// Key material of a caller-chosen length produced by a key derivation.
#[derive(Debug, Clone, PartialEq, Eq)]
pub struct DerivedKey {
    bytes: Vec<u8>,
}

impl View for DerivedKey {
    type V = Seq<u8>;

    closed spec fn view(&self) -> Seq<u8> {
        self.bytes@
    }
}

impl DerivedKey {
    pub(crate) fn new(bytes: Vec<u8>) -> (r: DerivedKey)
        ensures
            r@ == bytes@,
    {
        DerivedKey { bytes }
    }

    pub fn as_bytes(&self) -> (r: &[u8])
        ensures
            r@ == self@,
    {
        self.bytes.as_slice()
    }
}

/// Compares two byte strings by content.
pub fn bytes_equal(a: &[u8], b: &[u8]) -> (r: bool)
    ensures
        r == (a@ == b@),
{
    if a.len() != b.len() {
        return false;
    }
    let mut i: usize = 0;
    while i < a.len()
        invariant
            a@.len() == b@.len(),
            i <= a@.len(),
            a@.subrange(0, i as int) == b@.subrange(0, i as int),
        decreases a@.len() - i,
    {
        if a[i] != b[i] {
            assert(a@[i as int] != b@[i as int]);
            return false;
        }
        assert(a@.subrange(0, i + 1) == a@.subrange(0, i as int).push(a@[i as int]));
        assert(b@.subrange(0, i + 1) == b@.subrange(0, i as int).push(b@[i as int]));
        i = i + 1;
    }
    assert(a@ == a@.subrange(0, a@.len() as int));
    assert(b@ == b@.subrange(0, b@.len() as int));
    true
}

} // verus!
