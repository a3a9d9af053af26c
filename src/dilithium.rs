//! The Dilithium post-quantum signature scheme at three security levels,
//! all from one generic implementation.
//!
//! Keys and signatures are raw fixed-length byte strings whose lengths are
//! the level's constants.
use vstd::prelude::*;
use vstd::slice::slice_to_vec;
use vstd::string::StringExecFns;

use pqcrypto_traits::sign::DetachedSignature as PqDetachedSignature;
use pqcrypto_traits::sign::PublicKey as PqPublicKey;
use pqcrypto_traits::sign::SecretKey as PqSecretKey;

use crate::algorithm::Algorithm;
use crate::algorithm::SchemeParams;
use crate::error::Error;
use crate::error::SignatureError;
use crate::key::bytes_equal;
use crate::key::wipe;
use crate::key::AsymmetricKeySet;
use crate::key::Key;
use crate::key::KeyError;
use crate::key::PrivateKey;
use crate::key::PublicKey;
use crate::key::Signature;
use crate::sealed::Sealed;

verus! {

/// The detached signature that Dilithium2 makes of a message.
pub uninterp spec fn dilithium2_signature(secret_key: Seq<u8>, message: Seq<u8>) -> Seq<u8>;

/// Whether Dilithium2 accepts a detached signature of a message.
pub uninterp spec fn dilithium2_verifies(public_key: Seq<u8>, message: Seq<u8>, signature: Seq<u8>) -> bool;

/// Relies on `dilithium2::keypair`: a fresh key pair, each key of its
/// fixed length. The signing loop of `detached_sign` only releases a
/// signature that passes verification under the matching public key, and
/// every signature it writes has the fixed signature length.
#[verifier::external_body]
fn dilithium2_keypair() -> (r: (Vec<u8>, Vec<u8>))
    ensures
        r.0@.len() == 1312,
        r.1@.len() == 2560,
        forall|m: Seq<u8>| #[trigger] dilithium2_signature(r.1@, m).len() == 2420 && dilithium2_verifies(r.0@, m, dilithium2_signature(r.1@, m)),
{
    let (pk, sk) = pqcrypto_dilithium::dilithium2::keypair();
    (pk.as_bytes().to_vec(), sk.as_bytes().to_vec())
}

/// Relies on `dilithium2::SecretKey::from_bytes`, which accepts exactly the
/// secret key length, and on `dilithium2::detached_sign`, which is
/// deterministic (its randomness input is fixed to zero) and writes a
/// signature of the fixed signature length.
#[verifier::external_body]
fn dilithium2_sign(secret_key: &[u8], message: &[u8]) -> (r: Option<Vec<u8>>)
    ensures
        r is Some <==> secret_key@.len() == 2560,
        r matches Some(s) ==> s@ == dilithium2_signature(secret_key@, message@) && s@.len() == 2420,
{
    let sk = pqcrypto_dilithium::dilithium2::SecretKey::from_bytes(secret_key).ok()?;
    Some(pqcrypto_dilithium::dilithium2::detached_sign(message, &sk).as_bytes().to_vec())
}

/// Relies on `dilithium2::verify_detached_signature`; the key and signature
/// are decoded by `from_bytes`, which accepts these lengths. The verifier
/// rejects a signature whose length is not the fixed signature length.
#[verifier::external_body]
fn dilithium2_verify(signature: &[u8], message: &[u8], public_key: &[u8]) -> (r: bool)
    requires
        public_key@.len() == 1312,
        signature@.len() <= 2420,
    ensures
        r == dilithium2_verifies(public_key@, message@, signature@),
        signature@.len() != 2420 ==> !r,
{
    match (
        pqcrypto_dilithium::dilithium2::PublicKey::from_bytes(public_key),
        pqcrypto_dilithium::dilithium2::DetachedSignature::from_bytes(signature),
    ) {
        (Ok(pk), Ok(sig)) => pqcrypto_dilithium::dilithium2::verify_detached_signature(&sig, message, &pk).is_ok(),
        _ => false,
    }
}

/// The detached signature that Dilithium3 makes of a message.
pub uninterp spec fn dilithium3_signature(secret_key: Seq<u8>, message: Seq<u8>) -> Seq<u8>;

/// Whether Dilithium3 accepts a detached signature of a message.
pub uninterp spec fn dilithium3_verifies(public_key: Seq<u8>, message: Seq<u8>, signature: Seq<u8>) -> bool;

/// Relies on `dilithium3::keypair`: a fresh key pair, each key of its
/// fixed length. The signing loop of `detached_sign` only releases a
/// signature that passes verification under the matching public key, and
/// every signature it writes has the fixed signature length.
#[verifier::external_body]
fn dilithium3_keypair() -> (r: (Vec<u8>, Vec<u8>))
    ensures
        r.0@.len() == 1952,
        r.1@.len() == 4032,
        forall|m: Seq<u8>| #[trigger] dilithium3_signature(r.1@, m).len() == 3309 && dilithium3_verifies(r.0@, m, dilithium3_signature(r.1@, m)),
{
    let (pk, sk) = pqcrypto_dilithium::dilithium3::keypair();
    (pk.as_bytes().to_vec(), sk.as_bytes().to_vec())
}

/// Relies on `dilithium3::SecretKey::from_bytes`, which accepts exactly the
/// secret key length, and on `dilithium3::detached_sign`, which is
/// deterministic (its randomness input is fixed to zero) and writes a
/// signature of the fixed signature length.
#[verifier::external_body]
fn dilithium3_sign(secret_key: &[u8], message: &[u8]) -> (r: Option<Vec<u8>>)
    ensures
        r is Some <==> secret_key@.len() == 4032,
        r matches Some(s) ==> s@ == dilithium3_signature(secret_key@, message@) && s@.len() == 3309,
{
    let sk = pqcrypto_dilithium::dilithium3::SecretKey::from_bytes(secret_key).ok()?;
    Some(pqcrypto_dilithium::dilithium3::detached_sign(message, &sk).as_bytes().to_vec())
}

/// Relies on `dilithium3::verify_detached_signature`; the key and signature
/// are decoded by `from_bytes`, which accepts these lengths. The verifier
/// rejects a signature whose length is not the fixed signature length.
#[verifier::external_body]
fn dilithium3_verify(signature: &[u8], message: &[u8], public_key: &[u8]) -> (r: bool)
    requires
        public_key@.len() == 1952,
        signature@.len() <= 3309,
    ensures
        r == dilithium3_verifies(public_key@, message@, signature@),
        signature@.len() != 3309 ==> !r,
{
    match (
        pqcrypto_dilithium::dilithium3::PublicKey::from_bytes(public_key),
        pqcrypto_dilithium::dilithium3::DetachedSignature::from_bytes(signature),
    ) {
        (Ok(pk), Ok(sig)) => pqcrypto_dilithium::dilithium3::verify_detached_signature(&sig, message, &pk).is_ok(),
        _ => false,
    }
}

/// The detached signature that Dilithium5 makes of a message.
pub uninterp spec fn dilithium5_signature(secret_key: Seq<u8>, message: Seq<u8>) -> Seq<u8>;

/// Whether Dilithium5 accepts a detached signature of a message.
pub uninterp spec fn dilithium5_verifies(public_key: Seq<u8>, message: Seq<u8>, signature: Seq<u8>) -> bool;

/// Relies on `dilithium5::keypair`: a fresh key pair, each key of its
/// fixed length. The signing loop of `detached_sign` only releases a
/// signature that passes verification under the matching public key, and
/// every signature it writes has the fixed signature length.
#[verifier::external_body]
fn dilithium5_keypair() -> (r: (Vec<u8>, Vec<u8>))
    ensures
        r.0@.len() == 2592,
        r.1@.len() == 4896,
        forall|m: Seq<u8>| #[trigger] dilithium5_signature(r.1@, m).len() == 4627 && dilithium5_verifies(r.0@, m, dilithium5_signature(r.1@, m)),
{
    let (pk, sk) = pqcrypto_dilithium::dilithium5::keypair();
    (pk.as_bytes().to_vec(), sk.as_bytes().to_vec())
}

/// Relies on `dilithium5::SecretKey::from_bytes`, which accepts exactly the
/// secret key length, and on `dilithium5::detached_sign`, which is
/// deterministic (its randomness input is fixed to zero) and writes a
/// signature of the fixed signature length.
#[verifier::external_body]
fn dilithium5_sign(secret_key: &[u8], message: &[u8]) -> (r: Option<Vec<u8>>)
    ensures
        r is Some <==> secret_key@.len() == 4896,
        r matches Some(s) ==> s@ == dilithium5_signature(secret_key@, message@) && s@.len() == 4627,
{
    let sk = pqcrypto_dilithium::dilithium5::SecretKey::from_bytes(secret_key).ok()?;
    Some(pqcrypto_dilithium::dilithium5::detached_sign(message, &sk).as_bytes().to_vec())
}

/// Relies on `dilithium5::verify_detached_signature`; the key and signature
/// are decoded by `from_bytes`, which accepts these lengths. The verifier
/// rejects a signature whose length is not the fixed signature length.
#[verifier::external_body]
fn dilithium5_verify(signature: &[u8], message: &[u8], public_key: &[u8]) -> (r: bool)
    requires
        public_key@.len() == 2592,
        signature@.len() <= 4627,
    ensures
        r == dilithium5_verifies(public_key@, message@, signature@),
        signature@.len() != 4627 ==> !r,
{
    match (
        pqcrypto_dilithium::dilithium5::PublicKey::from_bytes(public_key),
        pqcrypto_dilithium::dilithium5::DetachedSignature::from_bytes(signature),
    ) {
        (Ok(pk), Ok(sig)) => pqcrypto_dilithium::dilithium5::verify_detached_signature(&sig, message, &pk).is_ok(),
        _ => false,
    }
}

/// The parameter set of one Dilithium security level: its sizes and its
/// primitive. Only this crate can implement it.
pub trait DilithiumParams: Sealed + SchemeParams {
    spec fn spec_public_key_bytes() -> nat;

    spec fn spec_secret_key_bytes() -> nat;

    spec fn spec_signature_bytes() -> nat;

    /// The detached signature the primitive makes of `message`.
    spec fn signature(secret_key: Seq<u8>, message: Seq<u8>) -> Seq<u8>;

    /// Whether the primitive accepts `signature` of `message`.
    spec fn verifies(public_key: Seq<u8>, message: Seq<u8>, signature: Seq<u8>) -> bool;

    /// The public key length in bytes.
    fn public_key_bytes() -> (r: usize)
        ensures
            r == Self::spec_public_key_bytes(),
    ;

    /// The secret key length in bytes.
    fn secret_key_bytes() -> (r: usize)
        ensures
            r == Self::spec_secret_key_bytes(),
    ;

    /// The signature length in bytes.
    fn signature_bytes() -> (r: usize)
        ensures
            r == Self::spec_signature_bytes(),
    ;

    /// A fresh key pair: the public key, then the secret key. Every
    /// signature the secret key makes has the fixed length and verifies
    /// under the public key.
    fn keypair() -> (r: (Vec<u8>, Vec<u8>))
        ensures
            r.0@.len() == Self::spec_public_key_bytes(),
            r.1@.len() == Self::spec_secret_key_bytes(),
            forall|m: Seq<u8>|
                #[trigger] Self::signature(r.1@, m).len() == Self::spec_signature_bytes()
                    && Self::verifies(r.0@, m, Self::signature(r.1@, m)),
    ;

    /// Signs `message`; `None` when `secret_key` has the wrong length.
    fn sign(secret_key: &[u8], message: &[u8]) -> (r: Option<Vec<u8>>)
        ensures
            r is Some <==> secret_key@.len() == Self::spec_secret_key_bytes(),
            r matches Some(s) ==> s@ == Self::signature(secret_key@, message@) && s@.len()
                == Self::spec_signature_bytes(),
    ;

    /// Checks `signature` of `message` against `public_key`.
    fn verify(signature: &[u8], message: &[u8], public_key: &[u8]) -> (r: Result<(), Error>)
        requires
            public_key@.len() == Self::spec_public_key_bytes(),
            signature@.len() <= Self::spec_signature_bytes(),
        ensures
            r is Ok <==> Self::verifies(public_key@, message@, signature@),
            r is Err ==> r == Err::<(), Error>(Error::Signature(SignatureError::Verification)),
            signature@.len() != Self::spec_signature_bytes() ==> r is Err,
    ;
}

/// Dilithium2.
#[derive(Debug, Default, Clone)]
pub struct Dilithium2Params;

impl Sealed for Dilithium2Params {}

impl SchemeParams for Dilithium2Params {
    const NAME: &'static str = "Dilithium2";
    const ID: u32 = 0x01_02_01_02;
}

impl DilithiumParams for Dilithium2Params {
    open spec fn spec_public_key_bytes() -> nat {
        1312
    }

    open spec fn spec_secret_key_bytes() -> nat {
        2560
    }

    open spec fn spec_signature_bytes() -> nat {
        2420
    }

    open spec fn signature(secret_key: Seq<u8>, message: Seq<u8>) -> Seq<u8> {
        dilithium2_signature(secret_key, message)
    }

    open spec fn verifies(public_key: Seq<u8>, message: Seq<u8>, signature: Seq<u8>) -> bool {
        dilithium2_verifies(public_key, message, signature)
    }

    fn public_key_bytes() -> (r: usize) {
        1312
    }

    fn secret_key_bytes() -> (r: usize) {
        2560
    }

    fn signature_bytes() -> (r: usize) {
        2420
    }

    fn keypair() -> (r: (Vec<u8>, Vec<u8>)) {
        dilithium2_keypair()
    }

    fn sign(secret_key: &[u8], message: &[u8]) -> (r: Option<Vec<u8>>) {
        dilithium2_sign(secret_key, message)
    }

    fn verify(signature: &[u8], message: &[u8], public_key: &[u8]) -> (r: Result<(), Error>) {
        if dilithium2_verify(signature, message, public_key) {
            Ok(())
        } else {
            Err(Error::Signature(SignatureError::Verification))
        }
    }
}

/// Dilithium3.
#[derive(Debug, Default, Clone)]
pub struct Dilithium3Params;

impl Sealed for Dilithium3Params {}

impl SchemeParams for Dilithium3Params {
    const NAME: &'static str = "Dilithium3";
    const ID: u32 = 0x01_02_01_03;
}

impl DilithiumParams for Dilithium3Params {
    open spec fn spec_public_key_bytes() -> nat {
        1952
    }

    open spec fn spec_secret_key_bytes() -> nat {
        4032
    }

    open spec fn spec_signature_bytes() -> nat {
        3309
    }

    open spec fn signature(secret_key: Seq<u8>, message: Seq<u8>) -> Seq<u8> {
        dilithium3_signature(secret_key, message)
    }

    open spec fn verifies(public_key: Seq<u8>, message: Seq<u8>, signature: Seq<u8>) -> bool {
        dilithium3_verifies(public_key, message, signature)
    }

    fn public_key_bytes() -> (r: usize) {
        1952
    }

    fn secret_key_bytes() -> (r: usize) {
        4032
    }

    fn signature_bytes() -> (r: usize) {
        3309
    }

    fn keypair() -> (r: (Vec<u8>, Vec<u8>)) {
        dilithium3_keypair()
    }

    fn sign(secret_key: &[u8], message: &[u8]) -> (r: Option<Vec<u8>>) {
        dilithium3_sign(secret_key, message)
    }

    fn verify(signature: &[u8], message: &[u8], public_key: &[u8]) -> (r: Result<(), Error>) {
        if dilithium3_verify(signature, message, public_key) {
            Ok(())
        } else {
            Err(Error::Signature(SignatureError::Verification))
        }
    }
}

/// Dilithium5.
#[derive(Debug, Default, Clone)]
pub struct Dilithium5Params;

impl Sealed for Dilithium5Params {}

impl SchemeParams for Dilithium5Params {
    const NAME: &'static str = "Dilithium5";
    const ID: u32 = 0x01_02_01_05;
}

impl DilithiumParams for Dilithium5Params {
    open spec fn spec_public_key_bytes() -> nat {
        2592
    }

    open spec fn spec_secret_key_bytes() -> nat {
        4896
    }

    open spec fn spec_signature_bytes() -> nat {
        4627
    }

    open spec fn signature(secret_key: Seq<u8>, message: Seq<u8>) -> Seq<u8> {
        dilithium5_signature(secret_key, message)
    }

    open spec fn verifies(public_key: Seq<u8>, message: Seq<u8>, signature: Seq<u8>) -> bool {
        dilithium5_verifies(public_key, message, signature)
    }

    fn public_key_bytes() -> (r: usize) {
        2592
    }

    fn secret_key_bytes() -> (r: usize) {
        4896
    }

    fn signature_bytes() -> (r: usize) {
        4627
    }

    fn keypair() -> (r: (Vec<u8>, Vec<u8>)) {
        dilithium5_keypair()
    }

    fn sign(secret_key: &[u8], message: &[u8]) -> (r: Option<Vec<u8>>) {
        dilithium5_sign(secret_key, message)
    }

    fn verify(signature: &[u8], message: &[u8], public_key: &[u8]) -> (r: Result<(), Error>) {
        if dilithium5_verify(signature, message, public_key) {
            Ok(())
        } else {
            Err(Error::Signature(SignatureError::Verification))
        }
    }
}

/// A Dilithium public key: the raw encoding of the level's fixed length.
#[derive(Debug)]
pub struct DilithiumPublicKey<P: DilithiumParams> {
    bytes: Vec<u8>,
    _params: core::marker::PhantomData<P>,
}

impl<P: DilithiumParams> DilithiumPublicKey<P> {
    /// A public key always has the level's public key length.
    #[verifier::type_invariant]
    spec fn has_key_length(&self) -> bool {
        self.bytes@.len() == P::spec_public_key_bytes()
    }
}

impl<P: DilithiumParams> View for DilithiumPublicKey<P> {
    type V = Seq<u8>;

    closed spec fn view(&self) -> Seq<u8> {
        self.bytes@
    }
}

impl<P: DilithiumParams> Clone for DilithiumPublicKey<P> {
    fn clone(&self) -> (r: Self)
        ensures
            r@ == self@,
    {
        proof {
            use_type_invariant(self);
        }
        DilithiumPublicKey { bytes: slice_to_vec(self.bytes.as_slice()), _params: core::marker::PhantomData }
    }
}

impl<P: DilithiumParams> PartialEq for DilithiumPublicKey<P> {
    fn eq(&self, other: &Self) -> (r: bool) {
        bytes_equal(self.bytes.as_slice(), other.bytes.as_slice())
    }
}

impl<P: DilithiumParams> vstd::std_specs::cmp::PartialEqSpecImpl for DilithiumPublicKey<P> {
    open spec fn obeys_eq_spec() -> bool {
        true
    }

    open spec fn eq_spec(&self, other: &Self) -> bool {
        self@ == other@
    }
}

impl<P: DilithiumParams> Eq for DilithiumPublicKey<P> {}

impl<P: DilithiumParams> Key for DilithiumPublicKey<P> {
    open spec fn accepts(bytes: Seq<u8>) -> bool {
        bytes.len() == P::spec_public_key_bytes()
    }

    open spec fn rejection() -> Error {
        Error::Key(KeyError::InvalidEncoding)
    }

    open spec fn encoding(&self) -> Seq<u8> {
        self@
    }

    fn from_bytes(bytes: &[u8]) -> (r: Result<Self, Error>) {
        if bytes.len() != P::public_key_bytes() {
            return Err(Error::Key(KeyError::InvalidEncoding));
        }
        Ok(DilithiumPublicKey { bytes: slice_to_vec(bytes), _params: core::marker::PhantomData })
    }

    fn to_bytes(&self) -> (r: Result<Vec<u8>, Error>) {
        Ok(slice_to_vec(self.bytes.as_slice()))
    }
}

impl<P: DilithiumParams> PublicKey for DilithiumPublicKey<P> {}

impl<'a, P: DilithiumParams> From<&'a DilithiumPublicKey<P>> for DilithiumPublicKey<P> {
    fn from(key: &'a DilithiumPublicKey<P>) -> (r: Self) {
        key.clone()
    }
}

/// `from` returns a copy of the key with the same bytes, as `clone` does.
impl<'a, P: DilithiumParams> vstd::std_specs::convert::FromSpecImpl<&'a DilithiumPublicKey<P>> for DilithiumPublicKey<P> {
    open spec fn obeys_from_spec() -> bool {
        false
    }

    open spec fn from_spec(v: &'a DilithiumPublicKey<P>) -> Self {
        *v
    }
}

impl<'a, P: DilithiumParams> TryFrom<&'a [u8]> for DilithiumPublicKey<P> {
    type Error = Error;

    fn try_from(bytes: &'a [u8]) -> (r: Result<Self, Error>) {
        <Self as Key>::from_bytes(bytes)
    }
}

/// `try_from` is `Key::from_bytes`: it accepts exactly the encodings that
/// `from_bytes` accepts and keeps their bytes.
impl<'a, P: DilithiumParams> vstd::std_specs::convert::TryFromSpecImpl<&'a [u8]> for DilithiumPublicKey<P> {
    open spec fn obeys_try_from_spec() -> bool {
        false
    }

    open spec fn try_from_spec(v: &'a [u8]) -> Result<Self, Error> {
        if <Self as Key>::accepts(v@) {
            Ok(choose|k: Self| k@ == v@)
        } else {
            Err(<Self as Key>::rejection())
        }
    }
}

/// A Dilithium secret key: the raw encoding of the level's fixed length.
/// Its bytes are wiped when it is dropped.
#[derive(Debug)]
pub struct DilithiumSecretKey<P: DilithiumParams> {
    bytes: Vec<u8>,
    _params: core::marker::PhantomData<P>,
}

impl<P: DilithiumParams> DilithiumSecretKey<P> {
    /// A secret key has the level's secret key length until it is wiped,
    /// and is empty after.
    #[verifier::type_invariant]
    spec fn has_key_length_or_is_wiped(&self) -> bool {
        self.bytes@.len() == P::spec_secret_key_bytes() || self.bytes@.len() == 0
    }
}

impl<P: DilithiumParams> View for DilithiumSecretKey<P> {
    type V = Seq<u8>;

    closed spec fn view(&self) -> Seq<u8> {
        self.bytes@
    }
}

impl<P: DilithiumParams> Clone for DilithiumSecretKey<P> {
    fn clone(&self) -> (r: Self)
        ensures
            r@ == self@,
    {
        proof {
            use_type_invariant(self);
        }
        DilithiumSecretKey { bytes: slice_to_vec(self.bytes.as_slice()), _params: core::marker::PhantomData }
    }
}

impl<P: DilithiumParams> PartialEq for DilithiumSecretKey<P> {
    fn eq(&self, other: &Self) -> (r: bool) {
        bytes_equal(self.bytes.as_slice(), other.bytes.as_slice())
    }
}

impl<P: DilithiumParams> vstd::std_specs::cmp::PartialEqSpecImpl for DilithiumSecretKey<P> {
    open spec fn obeys_eq_spec() -> bool {
        true
    }

    open spec fn eq_spec(&self, other: &Self) -> bool {
        self@ == other@
    }
}

impl<P: DilithiumParams> Eq for DilithiumSecretKey<P> {}

impl<P: DilithiumParams> Key for DilithiumSecretKey<P> {
    open spec fn accepts(bytes: Seq<u8>) -> bool {
        bytes.len() == P::spec_secret_key_bytes()
    }

    open spec fn rejection() -> Error {
        Error::Key(KeyError::InvalidEncoding)
    }

    open spec fn encoding(&self) -> Seq<u8> {
        self@
    }

    fn from_bytes(bytes: &[u8]) -> (r: Result<Self, Error>) {
        if bytes.len() != P::secret_key_bytes() {
            return Err(Error::Key(KeyError::InvalidEncoding));
        }
        Ok(DilithiumSecretKey { bytes: slice_to_vec(bytes), _params: core::marker::PhantomData })
    }

    fn to_bytes(&self) -> (r: Result<Vec<u8>, Error>) {
        Ok(slice_to_vec(self.bytes.as_slice()))
    }
}

impl<P: DilithiumParams> PrivateKey<DilithiumPublicKey<P>> for DilithiumSecretKey<P> {
    fn zeroize(&mut self) {
        wipe(&mut self.bytes);
    }
}

impl<'a, P: DilithiumParams> TryFrom<&'a [u8]> for DilithiumSecretKey<P> {
    type Error = Error;

    fn try_from(bytes: &'a [u8]) -> (r: Result<Self, Error>) {
        <Self as Key>::from_bytes(bytes)
    }
}

/// `try_from` is `Key::from_bytes`: it accepts exactly the encodings that
/// `from_bytes` accepts and keeps their bytes.
impl<'a, P: DilithiumParams> vstd::std_specs::convert::TryFromSpecImpl<&'a [u8]> for DilithiumSecretKey<P> {
    open spec fn obeys_try_from_spec() -> bool {
        false
    }

    open spec fn try_from_spec(v: &'a [u8]) -> Result<Self, Error> {
        if <Self as Key>::accepts(v@) {
            Ok(choose|k: Self| k@ == v@)
        } else {
            Err(<Self as Key>::rejection())
        }
    }
}

impl<P: DilithiumParams> Drop for DilithiumSecretKey<P> {
    fn drop(&mut self)
        opens_invariants none
        no_unwind
    {
        wipe(&mut self.bytes);
    }
}

/// Signatures generic over a Dilithium security level.
#[derive(Debug, Default)]
pub struct DilithiumScheme<P: DilithiumParams> {
    _params: core::marker::PhantomData<P>,
}

/// Dilithium at NIST security level 2.
pub type Dilithium2 = DilithiumScheme<Dilithium2Params>;

/// Dilithium at NIST security level 3.
pub type Dilithium3 = DilithiumScheme<Dilithium3Params>;

/// Dilithium at NIST security level 5.
pub type Dilithium5 = DilithiumScheme<Dilithium5Params>;

impl<P: DilithiumParams> Algorithm for DilithiumScheme<P> {
    const ID: u32 = P::ID;

    open spec fn spec_name() -> Seq<char> {
        P::NAME@
    }

    fn name() -> (r: String) {
        String::from_str(P::NAME)
    }
}

impl<P: DilithiumParams> AsymmetricKeySet for DilithiumScheme<P> {
    type PublicKey = DilithiumPublicKey<P>;
    type PrivateKey = DilithiumSecretKey<P>;
}

impl<P: DilithiumParams> DilithiumScheme<P> {
    /// What `verify` returns: the public key is decoded first, then the
    /// signature, then the signature is checked.
    pub open spec fn verification(public_key: Seq<u8>, message: Seq<u8>, signature: Seq<u8>) -> Result<(), Error> {
        if public_key.len() != P::spec_public_key_bytes() {
            Err(Error::Key(KeyError::InvalidEncoding))
        } else if signature.len() > P::spec_signature_bytes() {
            Err(Error::Signature(SignatureError::InvalidSignature))
        } else if !P::verifies(public_key, message, signature) {
            Err(Error::Signature(SignatureError::Verification))
        } else {
            Ok(())
        }
    }

    /// Whether two encodings form a key pair: each has its fixed length, and
    /// every signature the secret key makes has the fixed length and verifies
    /// under the public key.
    pub open spec fn is_key_pair(public_key: Seq<u8>, secret_key: Seq<u8>) -> bool {
        &&& public_key.len() == P::spec_public_key_bytes()
        &&& secret_key.len() == P::spec_secret_key_bytes()
        &&& forall|m: Seq<u8>|
            #[trigger] P::signature(secret_key, m).len() == P::spec_signature_bytes() && P::verifies(
                public_key,
                m,
                P::signature(secret_key, m),
            )
    }

    /// Generates a fresh key pair.
    pub fn generate_keypair() -> (r: Result<(DilithiumPublicKey<P>, DilithiumSecretKey<P>), Error>)
        ensures
            r matches Ok((pk, sk)) && Self::is_key_pair(pk@, sk@),
    {
        let (pk, sk) = P::keypair();
        Ok(
            (
                DilithiumPublicKey { bytes: pk, _params: core::marker::PhantomData },
                DilithiumSecretKey { bytes: sk, _params: core::marker::PhantomData },
            ),
        )
    }

    /// Makes a detached signature of `message`. Only a wiped key fails.
    pub fn sign(private_key: &DilithiumSecretKey<P>, message: &[u8]) -> (r: Result<Signature, Error>)
        ensures
            match r {
                Ok(s) => private_key@.len() == P::spec_secret_key_bytes() && s@ == P::signature(
                    private_key@,
                    message@,
                ) && s@.len() == P::spec_signature_bytes(),
                Err(e) => private_key@.len() == 0 && e == Error::Signature(SignatureError::Signing),
            },
    {
        proof {
            use_type_invariant(private_key);
        }
        match P::sign(private_key.bytes.as_slice(), message) {
            Some(sig) => Ok(Signature(sig)),
            None => Err(Error::Signature(SignatureError::Signing)),
        }
    }

    /// Checks a detached signature of `message`. Malformed signature bytes
    /// give an error, never a panic.
    pub fn verify(public_key: &DilithiumPublicKey<P>, message: &[u8], signature: &Signature) -> (r: Result<(), Error>)
        ensures
            r == Self::verification(public_key@, message@, signature@),
            public_key@.len() == P::spec_public_key_bytes(),
            signature@.len() != P::spec_signature_bytes() ==> r is Err,
    {
        proof {
            use_type_invariant(public_key);
        }
        if public_key.bytes.len() != P::public_key_bytes() {
            return Err(Error::Key(KeyError::InvalidEncoding));
        }
        if signature.len() > P::signature_bytes() {
            return Err(Error::Signature(SignatureError::InvalidSignature));
        }
        match P::verify(signature.as_bytes(), message, public_key.bytes.as_slice()) {
            Ok(()) => Ok(()),
            Err(e) => Err(e),
        }
    }

    /// A signature made with the secret key of a key pair verifies under its
    /// public key, for every message, the empty one included.
    pub proof fn lemma_sign_then_verify(public_key: Seq<u8>, secret_key: Seq<u8>, message: Seq<u8>)
        requires
            Self::is_key_pair(public_key, secret_key),
        ensures
            Self::verification(public_key, message, P::signature(secret_key, message)) == Ok::<(), Error>(()),
    {
        assert(P::signature(secret_key, message).len() == P::spec_signature_bytes());
    }
}

} // verus!
