//! Authenticated encryption with associated data: ChaCha20-Poly1305 with a
//! 96-bit nonce and XChaCha20-Poly1305 with a 192-bit nonce, both from one
//! generic implementation.
//!
//! A ciphertext is the encrypted plaintext followed by a fixed-size tag.
//! Nonce uniqueness per key is the caller's responsibility: nothing here
//! tracks the nonces that were used.
use vstd::prelude::*;
use vstd::slice::slice_subrange;
use vstd::slice::slice_to_vec;
use vstd::string::StringExecFns;

use chacha20poly1305::aead::rand_core::RngCore;
use chacha20poly1305::aead::AeadInPlace;
use chacha20poly1305::aead::KeyInit;

use crate::algorithm::Algorithm;
use crate::algorithm::SchemeParams;
use crate::error::Error;
use crate::error::SymmetricError;
use crate::key::KeyError;
use crate::key::SymmetricKey;
use crate::key::SymmetricKeySet;
use crate::sealed::Sealed;

verus! {

/// Associated data: authenticated, not encrypted.
pub type AssociatedData<'a> = &'a [u8];

/// The associated data handed to the primitive: absent means empty.
pub open spec fn aad_bytes(aad: Option<&[u8]>) -> Seq<u8> {
    match aad {
        Some(a) => a@,
        None => Seq::empty(),
    }
}

/// Whether the cipher's 32-bit block counter covers a message of `len`
/// bytes: block 0 keys the authenticator, so the message has at most
/// `2^32 - 2` blocks of 64 bytes.
pub open spec fn within_block_limit(len: nat) -> bool {
    len <= 64 * 0xffff_fffe
}

/// The ciphertext-and-tag that ChaCha20-Poly1305 produces.
pub uninterp spec fn chacha20poly1305_sealing(
    key: Seq<u8>,
    nonce: Seq<u8>,
    aad: Seq<u8>,
    plaintext: Seq<u8>,
) -> Seq<u8>;

/// The ciphertext-and-tag that XChaCha20-Poly1305 produces.
pub uninterp spec fn xchacha20poly1305_sealing(
    key: Seq<u8>,
    nonce: Seq<u8>,
    aad: Seq<u8>,
    plaintext: Seq<u8>,
) -> Seq<u8>;

/// Relies on `ChaCha20Poly1305::encrypt_in_place_detached`: it encrypts the
/// buffer in place and returns the tag that the combined output ends with;
/// within the block limit it neither fails nor panics.
#[verifier::external_body]
fn chacha20poly1305_seal_in_place(key: &[u8], nonce: &[u8], aad: &[u8], buffer: &mut Vec<u8>) -> (tag: Option<Vec<u8>>)
    requires
        key@.len() == 32,
        nonce@.len() == 12,
        within_block_limit(old(buffer)@.len()),
    ensures
        final(buffer)@.len() == old(buffer)@.len(),
        tag is Some,
        tag matches Some(t) ==> t@.len() == 16 && final(buffer)@ + t@
            == chacha20poly1305_sealing(key@, nonce@, aad@, old(buffer)@),
{
    let cipher = chacha20poly1305::ChaCha20Poly1305::new(chacha20poly1305::Key::from_slice(key));
    let nonce = chacha20poly1305::Nonce::from_slice(nonce);
    cipher.encrypt_in_place_detached(nonce, aad, buffer.as_mut_slice()).ok().map(|t| t.to_vec())
}

/// Relies on `ChaCha20Poly1305::decrypt_in_place_detached`: it checks the tag
/// before touching the buffer, leaves the buffer as it was on failure, and
/// on success leaves the plaintext whose sealing is the buffer followed by
/// the tag.
#[verifier::external_body]
fn chacha20poly1305_open_in_place(key: &[u8], nonce: &[u8], aad: &[u8], buffer: &mut Vec<u8>, tag: &[u8]) -> (ok: bool)
    requires
        key@.len() == 32,
        nonce@.len() == 12,
        tag@.len() == 16,
        within_block_limit(old(buffer)@.len()),
    ensures
        final(buffer)@.len() == old(buffer)@.len(),
        ok ==> chacha20poly1305_sealing(
            key@,
            nonce@,
            aad@,
            final(buffer)@,
        ) == old(buffer)@ + tag@,
        !ok ==> final(buffer)@ == old(buffer)@,
        forall|p: Seq<u8>|
            within_block_limit(p.len()) && chacha20poly1305_sealing(key@, nonce@, aad@, p) == old(
                buffer,
            )@ + tag@ ==> ok && final(buffer)@ == p,
{
    let cipher = chacha20poly1305::ChaCha20Poly1305::new(chacha20poly1305::Key::from_slice(key));
    let nonce = chacha20poly1305::Nonce::from_slice(nonce);
    let tag = chacha20poly1305::Tag::from_slice(tag);
    cipher.decrypt_in_place_detached(nonce, aad, buffer.as_mut_slice(), tag).is_ok()
}

/// Relies on `XChaCha20Poly1305::encrypt_in_place_detached`, as for the
/// 96-bit-nonce variant.
#[verifier::external_body]
fn xchacha20poly1305_seal_in_place(key: &[u8], nonce: &[u8], aad: &[u8], buffer: &mut Vec<u8>) -> (tag: Option<Vec<u8>>)
    requires
        key@.len() == 32,
        nonce@.len() == 24,
        within_block_limit(old(buffer)@.len()),
    ensures
        final(buffer)@.len() == old(buffer)@.len(),
        tag is Some,
        tag matches Some(t) ==> t@.len() == 16 && final(buffer)@ + t@
            == xchacha20poly1305_sealing(key@, nonce@, aad@, old(buffer)@),
{
    let cipher = chacha20poly1305::XChaCha20Poly1305::new(chacha20poly1305::Key::from_slice(key));
    let nonce = chacha20poly1305::XNonce::from_slice(nonce);
    cipher.encrypt_in_place_detached(nonce, aad, buffer.as_mut_slice()).ok().map(|t| t.to_vec())
}

/// Relies on `XChaCha20Poly1305::decrypt_in_place_detached`, as for the
/// 96-bit-nonce variant.
#[verifier::external_body]
fn xchacha20poly1305_open_in_place(key: &[u8], nonce: &[u8], aad: &[u8], buffer: &mut Vec<u8>, tag: &[u8]) -> (ok: bool)
    requires
        key@.len() == 32,
        nonce@.len() == 24,
        tag@.len() == 16,
        within_block_limit(old(buffer)@.len()),
    ensures
        final(buffer)@.len() == old(buffer)@.len(),
        ok ==> xchacha20poly1305_sealing(
            key@,
            nonce@,
            aad@,
            final(buffer)@,
        ) == old(buffer)@ + tag@,
        !ok ==> final(buffer)@ == old(buffer)@,
        forall|p: Seq<u8>|
            within_block_limit(p.len()) && xchacha20poly1305_sealing(key@, nonce@, aad@, p) == old(
                buffer,
            )@ + tag@ ==> ok && final(buffer)@ == p,
{
    let cipher = chacha20poly1305::XChaCha20Poly1305::new(chacha20poly1305::Key::from_slice(key));
    let nonce = chacha20poly1305::XNonce::from_slice(nonce);
    let tag = chacha20poly1305::Tag::from_slice(tag);
    cipher.decrypt_in_place_detached(nonce, aad, buffer.as_mut_slice(), tag).is_ok()
}

/// Relies on `OsRng::try_fill_bytes`: on success every byte of the buffer
/// has been drawn from the operating system's secure randomness; the length
/// is unchanged either way.
#[verifier::external_body]
fn fill_random(buffer: &mut Vec<u8>) -> (ok: bool)
    ensures
        final(buffer)@.len() == old(buffer)@.len(),
{
    chacha20poly1305::aead::OsRng.try_fill_bytes(buffer.as_mut_slice()).is_ok()
}

/// The parameter set of one ChaCha20-Poly1305 variant: its sizes and its
/// primitive. Only this crate can implement it.
pub trait Chacha20Poly1305Params: Sealed + SchemeParams {
    /// Key size in bytes.
    const KEY_SIZE: usize;
    /// Nonce size in bytes.
    const NONCE_SIZE: usize;
    /// Authentication tag size in bytes.
    const TAG_SIZE: usize;

    /// The ciphertext followed by the tag that the primitive produces.
    spec fn sealing(key: Seq<u8>, nonce: Seq<u8>, aad: Seq<u8>, plaintext: Seq<u8>) -> Seq<u8>;

    /// The nonce size of the variant.
    spec fn nonce_len() -> nat;

    /// The declared sizes: both variants use a 256-bit key and a 128-bit
    /// tag; the nonce size is the variant's own.
    proof fn declared_sizes()
        ensures
            Self::KEY_SIZE == 32,
            Self::TAG_SIZE == 16,
            Self::NONCE_SIZE == Self::nonce_len(),
    ;

    /// Encrypts `buffer` in place and returns the tag.
    fn seal_in_place(key: &[u8], nonce: &[u8], aad: &[u8], buffer: &mut Vec<u8>) -> (tag: Option<Vec<u8>>)
        requires
            key@.len() == Self::KEY_SIZE,
            nonce@.len() == Self::NONCE_SIZE,
            within_block_limit(old(buffer)@.len()),
        ensures
            final(buffer)@.len() == old(buffer)@.len(),
            tag is Some,
            tag matches Some(t) ==> t@.len() == Self::TAG_SIZE && final(buffer)@ + t@
                == Self::sealing(key@, nonce@, aad@, old(buffer)@),
    ;

    /// Checks `tag` against `buffer` and, if it is authentic, decrypts
    /// `buffer` in place.
    fn open_in_place(key: &[u8], nonce: &[u8], aad: &[u8], buffer: &mut Vec<u8>, tag: &[u8]) -> (ok: bool)
        requires
            key@.len() == Self::KEY_SIZE,
            nonce@.len() == Self::NONCE_SIZE,
            tag@.len() == Self::TAG_SIZE,
            within_block_limit(old(buffer)@.len()),
        ensures
            final(buffer)@.len() == old(buffer)@.len(),
            ok ==> Self::sealing(
                key@,
                nonce@,
                aad@,
                final(buffer)@,
            ) == old(buffer)@ + tag@,
            !ok ==> final(buffer)@ == old(buffer)@,
            forall|p: Seq<u8>|
                within_block_limit(p.len()) && Self::sealing(key@, nonce@, aad@, p) == old(
                    buffer,
                )@ + tag@ ==> ok && final(buffer)@ == p,
    ;
}

/// ChaCha20-Poly1305 with a 96-bit nonce.
#[derive(Clone, Debug, Default)]
pub struct ChaCha20Poly1305Params;

impl Sealed for ChaCha20Poly1305Params {}

impl SchemeParams for ChaCha20Poly1305Params {
    const NAME: &'static str = "ChaCha20-Poly1305";
    const ID: u32 = 0x02_02_01_01;
}

impl Chacha20Poly1305Params for ChaCha20Poly1305Params {
    const KEY_SIZE: usize = 32;
    const NONCE_SIZE: usize = 12;
    const TAG_SIZE: usize = 16;

    open spec fn nonce_len() -> nat {
        12
    }

    proof fn declared_sizes() {
    }

    open spec fn sealing(key: Seq<u8>, nonce: Seq<u8>, aad: Seq<u8>, plaintext: Seq<u8>) -> Seq<u8> {
        chacha20poly1305_sealing(key, nonce, aad, plaintext)
    }

    fn seal_in_place(key: &[u8], nonce: &[u8], aad: &[u8], buffer: &mut Vec<u8>) -> (tag: Option<Vec<u8>>) {
        chacha20poly1305_seal_in_place(key, nonce, aad, buffer)
    }

    fn open_in_place(key: &[u8], nonce: &[u8], aad: &[u8], buffer: &mut Vec<u8>, tag: &[u8]) -> (ok: bool) {
        chacha20poly1305_open_in_place(key, nonce, aad, buffer, tag)
    }
}

/// XChaCha20-Poly1305 with a 192-bit nonce, long enough to draw nonces at
/// random without a practical risk of collision.
#[derive(Clone, Debug, Default)]
pub struct XChaCha20Poly1305Params;

impl Sealed for XChaCha20Poly1305Params {}

impl SchemeParams for XChaCha20Poly1305Params {
    const NAME: &'static str = "XChaCha20-Poly1305";
    const ID: u32 = 0x02_02_02_01;
}

impl Chacha20Poly1305Params for XChaCha20Poly1305Params {
    const KEY_SIZE: usize = 32;
    const NONCE_SIZE: usize = 24;
    const TAG_SIZE: usize = 16;

    open spec fn nonce_len() -> nat {
        24
    }

    proof fn declared_sizes() {
    }

    open spec fn sealing(key: Seq<u8>, nonce: Seq<u8>, aad: Seq<u8>, plaintext: Seq<u8>) -> Seq<u8> {
        xchacha20poly1305_sealing(key, nonce, aad, plaintext)
    }

    fn seal_in_place(key: &[u8], nonce: &[u8], aad: &[u8], buffer: &mut Vec<u8>) -> (tag: Option<Vec<u8>>) {
        xchacha20poly1305_seal_in_place(key, nonce, aad, buffer)
    }

    fn open_in_place(key: &[u8], nonce: &[u8], aad: &[u8], buffer: &mut Vec<u8>, tag: &[u8]) -> (ok: bool) {
        xchacha20poly1305_open_in_place(key, nonce, aad, buffer, tag)
    }
}

/// Authenticated encryption generic over a ChaCha20-Poly1305 parameter set.
#[derive(Debug, Default)]
pub struct Chacha20Poly1305Scheme<P: Chacha20Poly1305Params> {
    _params: core::marker::PhantomData<P>,
}

/// ChaCha20-Poly1305 with a 96-bit nonce.
pub type ChaCha20Poly1305 = Chacha20Poly1305Scheme<ChaCha20Poly1305Params>;

/// XChaCha20-Poly1305 with a 192-bit nonce.
pub type XChaCha20Poly1305 = Chacha20Poly1305Scheme<XChaCha20Poly1305Params>;

/// An authentication tag.
pub type Tag<'a> = &'a [u8];

impl<P: Chacha20Poly1305Params> Algorithm for Chacha20Poly1305Scheme<P> {
    const ID: u32 = P::ID;

    open spec fn spec_name() -> Seq<char> {
        P::NAME@
    }

    fn name() -> (r: String) {
        String::from_str(P::NAME)
    }
}

impl<P: Chacha20Poly1305Params> SymmetricKeySet for Chacha20Poly1305Scheme<P> {
    type Key = SymmetricKey;
}

/// Writes `src` into `output` at offset `at`, leaving every other byte as it
/// was.
fn write_at(output: &mut Vec<u8>, at: usize, src: &[u8])
    requires
        at + src@.len() <= old(output)@.len(),
    ensures
        final(output)@.len() == old(output)@.len(),
        final(output)@.subrange(at as int, at + src@.len()) == src@,
        final(output)@.subrange(0, at as int) == old(output)@.subrange(0, at as int),
        final(output)@.subrange(at + src@.len(), old(output)@.len() as int) == old(
            output,
        )@.subrange(at + src@.len(), old(output)@.len() as int),
{
    let ghost before = output@;
    let len = output.len();
    let mut i: usize = 0;
    while i < src.len()
        invariant
            at + src@.len() <= before.len(),
            len == before.len(),
            output@.len() == before.len(),
            i <= src@.len(),
            forall|j: int| 0 <= j < i ==> output@[at + j] == src@[j],
            forall|j: int| 0 <= j < at ==> output@[j] == before[j],
            forall|j: int| at + src@.len() <= j < before.len() ==> output@[j] == before[j],
        decreases src@.len() - i,
    {
        output.set(at + i, src[i]);
        i = i + 1;
    }
    assert(output@.subrange(at as int, at + src@.len()) =~= src@);
    assert(output@.subrange(0, at as int) =~= before.subrange(0, at as int));
    assert(output@.subrange(at + src@.len(), before.len() as int) =~= before.subrange(
        at + src@.len(),
        before.len() as int,
    ));
}

impl<P: Chacha20Poly1305Params> Chacha20Poly1305Scheme<P> {
    /// The error `encrypt_to_buffer` returns, checked in this order, or
    /// `None` when it succeeds.
    pub open spec fn encryption_error(key: Seq<u8>, nonce: Seq<u8>, plaintext_len: nat, output_len: nat) -> Option<Error> {
        if key.len() != P::KEY_SIZE {
            Some(Error::Symmetric(SymmetricError::InvalidKeySize))
        } else if nonce.len() != P::NONCE_SIZE {
            Some(Error::Symmetric(SymmetricError::InvalidNonceSize))
        } else if output_len < plaintext_len + P::TAG_SIZE {
            Some(Error::Symmetric(SymmetricError::OutputTooSmall))
        } else if !within_block_limit(plaintext_len) {
            Some(Error::Symmetric(SymmetricError::Encryption))
        } else {
            None
        }
    }

    /// The error `decrypt_to_buffer` returns before it looks at the tag,
    /// checked in this order, or `None` when every size is right. A
    /// ciphertext whose body exceeds the block limit is no sealing, so it
    /// fails authentication without being examined.
    pub open spec fn decryption_size_error(key: Seq<u8>, nonce: Seq<u8>, ciphertext_len: nat, output_len: nat) -> Option<Error> {
        if key.len() != P::KEY_SIZE {
            Some(Error::Symmetric(SymmetricError::InvalidKeySize))
        } else if nonce.len() != P::NONCE_SIZE {
            Some(Error::Symmetric(SymmetricError::InvalidNonceSize))
        } else if ciphertext_len < P::TAG_SIZE {
            Some(Error::Symmetric(SymmetricError::InvalidCiphertext))
        } else if output_len < ciphertext_len - P::TAG_SIZE {
            Some(Error::Symmetric(SymmetricError::OutputTooSmall))
        } else if !within_block_limit((ciphertext_len - P::TAG_SIZE) as nat) {
            Some(Error::Symmetric(SymmetricError::Decryption))
        } else {
            None
        }
    }

    /// Whether `ciphertext` is the sealing of some plaintext under this key,
    /// nonce and associated data.
    pub open spec fn is_sealing(key: Seq<u8>, nonce: Seq<u8>, aad: Seq<u8>, ciphertext: Seq<u8>) -> bool {
        exists|p: Seq<u8>| within_block_limit(p.len()) && P::sealing(key, nonce, aad, p) == ciphertext
    }

    /// Draws a fresh key of the scheme's key size from the operating
    /// system's secure randomness.
    pub fn generate_key() -> (r: Result<SymmetricKey, Error>)
        ensures
            match r {
                Ok(k) => k@.len() == P::KEY_SIZE,
                Err(e) => e == Error::Key(KeyError::GenerationFailed),
            },
    {
        let mut key_bytes: Vec<u8> = vec![0u8; P::KEY_SIZE];
        if !fill_random(&mut key_bytes) {
            return Err(Error::Key(KeyError::GenerationFailed));
        }
        Ok(SymmetricKey::new(key_bytes))
    }

    /// Seals `plaintext` into the front of `output`: the ciphertext followed
    /// by the tag. Every size is checked before `output` is touched, and a
    /// failed call leaves `output` as it was. Returns the number of bytes
    /// written.
    pub fn encrypt_to_buffer(
        key: &SymmetricKey,
        nonce: &[u8],
        plaintext: &[u8],
        output: &mut Vec<u8>,
        aad: Option<AssociatedData>,
    ) -> (r: Result<usize, Error>)
        ensures
            final(output)@.len() == old(output)@.len(),
            match Self::encryption_error(key@, nonce@, plaintext@.len(), old(output)@.len()) {
                Some(e) => r == Err::<usize, Error>(e) && final(output)@ == old(output)@,
                None => {
                    let n = plaintext@.len() + P::TAG_SIZE;
                    &&& r == Ok::<usize, Error>(n as usize)
                    &&& final(output)@.subrange(0, n as int) == P::sealing(
                        key@,
                        nonce@,
                        aad_bytes(aad),
                        plaintext@,
                    )
                    &&& final(output)@.subrange(n as int, old(output)@.len() as int) == old(
                        output,
                    )@.subrange(n as int, old(output)@.len() as int)
                },
            },
    {
        if key.len() != P::KEY_SIZE {
            return Err(Error::Symmetric(SymmetricError::InvalidKeySize));
        }
        if nonce.len() != P::NONCE_SIZE {
            return Err(Error::Symmetric(SymmetricError::InvalidNonceSize));
        }
        if plaintext.len() > output.len() || output.len() - plaintext.len() < P::TAG_SIZE {
            return Err(Error::Symmetric(SymmetricError::OutputTooSmall));
        }
        if plaintext.len() as u64 > 64 * 0xffff_fffe {
            return Err(Error::Symmetric(SymmetricError::Encryption));
        }
        let required_len = plaintext.len() + P::TAG_SIZE;
        let empty: Vec<u8> = Vec::new();
        let aad_slice: &[u8] = match aad {
            Some(a) => a,
            None => empty.as_slice(),
        };
        assert(aad_slice@ == aad_bytes(aad));
        let mut buffer = slice_to_vec(plaintext);
        match P::seal_in_place(key.as_bytes(), nonce, aad_slice, &mut buffer) {
            None => Err(Error::Symmetric(SymmetricError::Encryption)),
            Some(tag) => {
                let ghost before = output@;
                write_at(output, 0, buffer.as_slice());
                let ghost middle = output@;
                write_at(output, plaintext.len(), tag.as_slice());
                assert(output@.subrange(0, plaintext@.len() as int) =~= middle.subrange(
                    0,
                    plaintext@.len() as int,
                ));
                assert(output@.subrange(0, required_len as int) =~= buffer@ + tag@);
                assert(output@.subrange(required_len as int, before.len() as int)
                    =~= before.subrange(required_len as int, before.len() as int)) by {
                    assert forall|j: int| required_len <= j < before.len() implies output@[j]
                        == before[j] by {
                        assert(output@[j] == output@.subrange(
                            required_len as int,
                            before.len() as int,
                        )[j - required_len]);
                        assert(middle[j] == middle.subrange(
                            plaintext@.len() as int,
                            before.len() as int,
                        )[j - plaintext@.len()]);
                    }
                }
                Ok(required_len)
            },
        }
    }

    /// Authenticates `ciphertext_with_tag` and writes the plaintext into
    /// the front of `output`. Every size is checked before `output` is
    /// touched; a failed call leaves `output` as it was, and no plaintext is
    /// released unless the tag is authentic. Returns the plaintext length.
    pub fn decrypt_to_buffer(
        key: &SymmetricKey,
        nonce: &[u8],
        ciphertext_with_tag: &[u8],
        output: &mut Vec<u8>,
        aad: Option<AssociatedData>,
    ) -> (r: Result<usize, Error>)
        ensures
            final(output)@.len() == old(output)@.len(),
            match Self::decryption_size_error(
                key@,
                nonce@,
                ciphertext_with_tag@.len(),
                old(output)@.len(),
            ) {
                Some(e) => r == Err::<usize, Error>(e) && final(output)@ == old(output)@,
                None => {
                    let n = ciphertext_with_tag@.len() - P::TAG_SIZE;
                    &&& (r is Ok <==> Self::is_sealing(
                        key@,
                        nonce@,
                        aad_bytes(aad),
                        ciphertext_with_tag@,
                    ))
                    &&& r is Err ==> r == Err::<usize, Error>(
                        Error::Symmetric(SymmetricError::Decryption),
                    ) && final(output)@ == old(output)@
                    &&& r is Ok ==> r == Ok::<usize, Error>(n as usize) && P::sealing(
                        key@,
                        nonce@,
                        aad_bytes(aad),
                        final(output)@.subrange(0, n as int),
                    ) == ciphertext_with_tag@ && final(output)@.subrange(
                        n as int,
                        old(output)@.len() as int,
                    ) == old(output)@.subrange(n as int, old(output)@.len() as int)
                    &&& forall|p: Seq<u8>|
                        within_block_limit(p.len()) && P::sealing(key@, nonce@, aad_bytes(aad), p)
                            == ciphertext_with_tag@ ==> p.len() == n && r == Ok::<usize, Error>(
                            n as usize,
                        ) && final(output)@.subrange(0, n as int) == p
                },
            },
    {
        if key.len() != P::KEY_SIZE {
            return Err(Error::Symmetric(SymmetricError::InvalidKeySize));
        }
        if nonce.len() != P::NONCE_SIZE {
            return Err(Error::Symmetric(SymmetricError::InvalidNonceSize));
        }
        if ciphertext_with_tag.len() < P::TAG_SIZE {
            return Err(Error::Symmetric(SymmetricError::InvalidCiphertext));
        }
        let body_len = ciphertext_with_tag.len() - P::TAG_SIZE;
        if output.len() < body_len {
            return Err(Error::Symmetric(SymmetricError::OutputTooSmall));
        }
        if body_len as u64 > 64 * 0xffff_fffe {
            return Err(Error::Symmetric(SymmetricError::Decryption));
        }
        let empty: Vec<u8> = Vec::new();
        let aad_slice: &[u8] = match aad {
            Some(a) => a,
            None => empty.as_slice(),
        };
        assert(aad_slice@ == aad_bytes(aad));
        let mut buffer = slice_to_vec(slice_subrange(ciphertext_with_tag, 0, body_len));
        let tag = slice_subrange(ciphertext_with_tag, body_len, ciphertext_with_tag.len());
        assert(ciphertext_with_tag@ =~= buffer@ + tag@);
        if !P::open_in_place(key.as_bytes(), nonce, aad_slice, &mut buffer, tag) {
            assert(!Self::is_sealing(key@, nonce@, aad_bytes(aad), ciphertext_with_tag@));
            return Err(Error::Symmetric(SymmetricError::Decryption));
        }
        write_at(output, 0, buffer.as_slice());
        assert(output@.subrange(0, body_len as int) == buffer@);
        assert(within_block_limit(buffer@.len()) && P::sealing(key@, nonce@, aad_bytes(aad), buffer@)
            == ciphertext_with_tag@);
        Ok(body_len)
    }

    /// Seals `plaintext` and returns the ciphertext followed by the tag.
    pub fn encrypt(key: &SymmetricKey, nonce: &[u8], plaintext: &[u8], aad: Option<AssociatedData>) -> (r: Result<Vec<u8>, Error>)
        ensures
            match Self::encryption_error(key@, nonce@, plaintext@.len(), (plaintext@.len() + P::TAG_SIZE) as nat) {
                Some(e) => r == Err::<Vec<u8>, Error>(e),
                None => if plaintext@.len() + P::TAG_SIZE > usize::MAX {
                    r == Err::<Vec<u8>, Error>(Error::Symmetric(SymmetricError::Encryption))
                } else {
                    r matches Ok(c) && c@ == P::sealing(key@, nonce@, aad_bytes(aad), plaintext@)
                        && c@.len() == plaintext@.len() + P::TAG_SIZE
                },
            },
    {
        if key.len() != P::KEY_SIZE {
            return Err(Error::Symmetric(SymmetricError::InvalidKeySize));
        }
        if nonce.len() != P::NONCE_SIZE {
            return Err(Error::Symmetric(SymmetricError::InvalidNonceSize));
        }
        proof {
            P::declared_sizes();
        }
        if plaintext.len() > usize::MAX - P::TAG_SIZE {
            return Err(Error::Symmetric(SymmetricError::Encryption));
        }
        let required_len = plaintext.len() + P::TAG_SIZE;
        let mut output: Vec<u8> = vec![0u8; required_len];
        match Self::encrypt_to_buffer(key, nonce, plaintext, &mut output, aad) {
            Ok(_) => {
                assert(output@ =~= output@.subrange(0, output@.len() as int));
                Ok(output)
            },
            Err(e) => Err(e),
        }
    }

    /// Authenticates `ciphertext_with_tag` and returns the plaintext.
    pub fn decrypt(key: &SymmetricKey, nonce: &[u8], ciphertext_with_tag: &[u8], aad: Option<AssociatedData>) -> (r: Result<Vec<u8>, Error>)
        ensures
            match Self::decryption_size_error(key@, nonce@, ciphertext_with_tag@.len(), (ciphertext_with_tag@.len() - P::TAG_SIZE) as nat) {
                Some(e) => r == Err::<Vec<u8>, Error>(e),
                None => {
                    &&& (r is Ok <==> Self::is_sealing(key@, nonce@, aad_bytes(aad), ciphertext_with_tag@))
                    &&& r is Err ==> r == Err::<Vec<u8>, Error>(Error::Symmetric(SymmetricError::Decryption))
                    &&& (r matches Ok(p) ==> P::sealing(key@, nonce@, aad_bytes(aad), p@) == ciphertext_with_tag@)
                    &&& forall|p: Seq<u8>|
                        within_block_limit(p.len()) && P::sealing(key@, nonce@, aad_bytes(aad), p)
                            == ciphertext_with_tag@ ==> (r matches Ok(q) && q@ == p)
                },
            },
    {
        if key.len() != P::KEY_SIZE {
            return Err(Error::Symmetric(SymmetricError::InvalidKeySize));
        }
        if nonce.len() != P::NONCE_SIZE {
            return Err(Error::Symmetric(SymmetricError::InvalidNonceSize));
        }
        if ciphertext_with_tag.len() < P::TAG_SIZE {
            return Err(Error::Symmetric(SymmetricError::InvalidCiphertext));
        }
        let body_len = ciphertext_with_tag.len() - P::TAG_SIZE;
        let mut output: Vec<u8> = vec![0u8; body_len];
        match Self::decrypt_to_buffer(key, nonce, ciphertext_with_tag, &mut output, aad) {
            Ok(_) => {
                assert(output@ =~= output@.subrange(0, output@.len() as int));
                Ok(output)
            },
            Err(e) => Err(e),
        }
    }
}

} // verus!
