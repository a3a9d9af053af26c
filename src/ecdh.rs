//! Elliptic-curve Diffie-Hellman key agreement over NIST P-256.
//!
//! Public keys are SubjectPublicKeyInfo DER and private keys are PKCS#8 DER,
//! for interoperability with other tooling. Every key is validated as an
//! encoding when it is constructed, and again when it is used.
use vstd::prelude::*;
use vstd::slice::slice_to_vec;
use vstd::string::StringExecFns;

use elliptic_curve::pkcs8::DecodePrivateKey;
use elliptic_curve::pkcs8::DecodePublicKey;
use elliptic_curve::pkcs8::EncodePrivateKey;
use elliptic_curve::pkcs8::EncodePublicKey;

use crate::algorithm::Algorithm;
use crate::algorithm::SchemeParams;
use crate::error::Error;
use crate::error::KeyAgreementError;
use crate::key::bytes_equal;
use crate::key::wipe;
use crate::key::AsymmetricKeySet;
use crate::key::Key;
use crate::key::KeyError;
use crate::key::PrivateKey;
use crate::key::PublicKey;
use crate::key::SharedSecret;
use crate::sealed::Sealed;

verus! {

/// Whether a byte string is a SubjectPublicKeyInfo DER encoding of a P-256
/// point.
pub uninterp spec fn p256_public_key_der_decodes(der: Seq<u8>) -> bool;

/// Whether a byte string is a PKCS#8 DER encoding of a P-256 secret key.
pub uninterp spec fn p256_private_key_der_decodes(der: Seq<u8>) -> bool;

/// The SubjectPublicKeyInfo DER encoding of the public key of a P-256 secret
/// key given as PKCS#8 DER.
pub uninterp spec fn p256_public_key_of(private_der: Seq<u8>) -> Seq<u8>;

/// The raw x-coordinate of the Diffie-Hellman point of a P-256 secret key
/// and public key, both given as DER.
pub uninterp spec fn p256_shared_secret(private_der: Seq<u8>, public_der: Seq<u8>) -> Seq<u8>;

/// Relies on `p256::PublicKey::from_public_key_der`, which decodes the DER
/// and checks that the point is on the curve.
#[verifier::external_body]
fn p256_decode_public_key(der: &[u8]) -> (r: bool)
    ensures
        r == p256_public_key_der_decodes(der@),
{
    p256::PublicKey::from_public_key_der(der).is_ok()
}

/// Relies on `p256::SecretKey::from_pkcs8_der`, which decodes the DER and
/// checks that the scalar is in range.
#[verifier::external_body]
fn p256_decode_private_key(der: &[u8]) -> (r: bool)
    ensures
        r == p256_private_key_der_decodes(der@),
{
    p256::SecretKey::from_pkcs8_der(der).is_ok()
}

/// Relies on `p256::ecdh::diffie_hellman` on the keys decoded as in
/// `p256_decode_private_key` and `p256_decode_public_key`; the raw secret is
/// one 32-byte field element.
#[verifier::external_body]
fn p256_diffie_hellman(private_der: &[u8], public_der: &[u8]) -> (r: Option<Vec<u8>>)
    ensures
        r is Some <==> (p256_private_key_der_decodes(private_der@)
            && p256_public_key_der_decodes(public_der@)),
        r matches Some(s) ==> s@ == p256_shared_secret(private_der@, public_der@) && s@.len() == 32,
{
    let sk = p256::SecretKey::from_pkcs8_der(private_der).ok()?;
    let pk = p256::PublicKey::from_public_key_der(public_der).ok()?;
    let shared = p256::ecdh::diffie_hellman(sk.to_nonzero_scalar(), pk.as_affine());
    Some(shared.raw_secret_bytes().to_vec())
}

/// Relies on `p256::SecretKey::random` with the operating system's secure
/// randomness, which yields a nonzero scalar, and on the DER encoders of the
/// secret key and of its public key: both encodings succeed and decode again.
/// As the `p256::ecdh` documentation states, Diffie-Hellman is symmetric: the
/// new secret key with another party's public key gives the secret that the
/// other party's secret key gives with the new public key.
#[verifier::external_body]
fn p256_generate_keypair() -> (r: Option<(Vec<u8>, Vec<u8>)>)
    ensures
        r is Some,
        r matches Some((p, s)) ==> p256_public_key_der_decodes(p@) && p256_private_key_der_decodes(s@),
        r matches Some((p, s)) ==> p@ == p256_public_key_of(s@),
        r matches Some((p, s)) ==> forall|other: Seq<u8>| #[trigger] p256_private_key_der_decodes(other) ==> p256_shared_secret(s@, p256_public_key_of(other)) == p256_shared_secret(other, p@),
{
    let secret = p256::SecretKey::random(&mut rand_core::OsRng);
    let private_der = secret.to_pkcs8_der().ok()?;
    let public_der = secret.public_key().to_public_key_der().ok()?;
    Some((public_der.as_bytes().to_vec(), private_der.as_bytes().to_vec()))
}

/// The parameter set of one ECDH curve: its key validation and its
/// primitive. Only this crate can implement it.
pub trait EcdhParams: Sealed + SchemeParams {
    /// Whether `der` is a valid public key encoding for the curve.
    spec fn public_key_valid(der: Seq<u8>) -> bool;

    /// Whether `der` is a valid private key encoding for the curve.
    spec fn private_key_valid(der: Seq<u8>) -> bool;

    /// The public key encoding that belongs to a private key encoding.
    spec fn public_key_of(private_der: Seq<u8>) -> Seq<u8>;

    /// The raw shared secret of a private key and a peer public key.
    spec fn shared_secret(private_der: Seq<u8>, public_der: Seq<u8>) -> Seq<u8>;

    /// The length of a raw shared secret in bytes.
    spec fn shared_secret_len() -> nat;

    /// Checks that `bytes` encode a public key of the curve.
    fn validate_public_key(bytes: &[u8]) -> (r: Result<(), Error>)
        ensures
            r is Ok <==> Self::public_key_valid(bytes@),
            r is Err ==> r == Err::<(), Error>(
                Error::KeyAgreement(KeyAgreementError::InvalidPeerPublicKey),
            ),
    ;

    /// Checks that `bytes` encode a private key of the curve.
    fn validate_private_key(bytes: &[u8]) -> (r: Result<(), Error>)
        ensures
            r is Ok <==> Self::private_key_valid(bytes@),
            r is Err ==> r == Err::<(), Error>(Error::Key(KeyError::InvalidEncoding)),
    ;

    /// A fresh key pair as DER: the public key, then the private key.
    fn generate_der() -> (r: Option<(Vec<u8>, Vec<u8>)>)
        ensures
            r matches Some((p, s)) && Self::public_key_valid(p@) && Self::private_key_valid(s@)
                && p@ == Self::public_key_of(s@) && forall|other: Seq<u8>|
                #[trigger] Self::private_key_valid(other) ==> Self::shared_secret(
                    s@,
                    Self::public_key_of(other),
                ) == Self::shared_secret(other, p@),
    ;

    /// The raw shared secret; `None` unless both encodings are valid.
    fn diffie_hellman(private_der: &[u8], public_der: &[u8]) -> (r: Option<Vec<u8>>)
        ensures
            r is Some <==> Self::private_key_valid(private_der@) && Self::public_key_valid(
                public_der@,
            ),
            r matches Some(s) ==> s@ == Self::shared_secret(private_der@, public_der@) && s@.len()
                == Self::shared_secret_len(),
    ;
}

/// ECDH over NIST P-256.
#[derive(Debug, Default, Clone)]
pub struct EcdhP256Params;

impl Sealed for EcdhP256Params {}

impl SchemeParams for EcdhP256Params {
    const NAME: &'static str = "ECDH-P256";
    const ID: u32 = 0x01_01_03_01;
}

impl EcdhParams for EcdhP256Params {
    open spec fn public_key_valid(der: Seq<u8>) -> bool {
        p256_public_key_der_decodes(der)
    }

    open spec fn private_key_valid(der: Seq<u8>) -> bool {
        p256_private_key_der_decodes(der)
    }

    open spec fn public_key_of(private_der: Seq<u8>) -> Seq<u8> {
        p256_public_key_of(private_der)
    }

    open spec fn shared_secret(private_der: Seq<u8>, public_der: Seq<u8>) -> Seq<u8> {
        p256_shared_secret(private_der, public_der)
    }

    open spec fn shared_secret_len() -> nat {
        32
    }

    fn validate_public_key(bytes: &[u8]) -> (r: Result<(), Error>) {
        if p256_decode_public_key(bytes) {
            Ok(())
        } else {
            Err(Error::KeyAgreement(KeyAgreementError::InvalidPeerPublicKey))
        }
    }

    fn validate_private_key(bytes: &[u8]) -> (r: Result<(), Error>) {
        if p256_decode_private_key(bytes) {
            Ok(())
        } else {
            Err(Error::Key(KeyError::InvalidEncoding))
        }
    }

    fn generate_der() -> (r: Option<(Vec<u8>, Vec<u8>)>) {
        p256_generate_keypair()
    }

    fn diffie_hellman(private_der: &[u8], public_der: &[u8]) -> (r: Option<Vec<u8>>) {
        p256_diffie_hellman(private_der, public_der)
    }
}

/// An ECDH public key, held as its DER encoding.
#[derive(Debug)]
pub struct EcdhPublicKey<P: EcdhParams> {
    bytes: Vec<u8>,
    _params: core::marker::PhantomData<P>,
}

impl<P: EcdhParams> View for EcdhPublicKey<P> {
    type V = Seq<u8>;

    closed spec fn view(&self) -> Seq<u8> {
        self.bytes@
    }
}

impl<P: EcdhParams> Clone for EcdhPublicKey<P> {
    fn clone(&self) -> (r: Self)
        ensures
            r@ == self@,
    {
        EcdhPublicKey { bytes: slice_to_vec(self.bytes.as_slice()), _params: core::marker::PhantomData }
    }
}

impl<P: EcdhParams> PartialEq for EcdhPublicKey<P> {
    fn eq(&self, other: &Self) -> (r: bool) {
        bytes_equal(self.bytes.as_slice(), other.bytes.as_slice())
    }
}

impl<P: EcdhParams> vstd::std_specs::cmp::PartialEqSpecImpl for EcdhPublicKey<P> {
    open spec fn obeys_eq_spec() -> bool {
        true
    }

    open spec fn eq_spec(&self, other: &Self) -> bool {
        self@ == other@
    }
}

impl<P: EcdhParams> Eq for EcdhPublicKey<P> {}

impl<P: EcdhParams> Key for EcdhPublicKey<P> {
    open spec fn accepts(bytes: Seq<u8>) -> bool {
        P::public_key_valid(bytes)
    }

    open spec fn rejection() -> Error {
        Error::Key(KeyError::InvalidEncoding)
    }

    open spec fn encoding(&self) -> Seq<u8> {
        self@
    }

    fn from_bytes(bytes: &[u8]) -> (r: Result<Self, Error>) {
        match P::validate_public_key(bytes) {
            Ok(()) => Ok(EcdhPublicKey { bytes: slice_to_vec(bytes), _params: core::marker::PhantomData }),
            Err(_) => Err(Error::Key(KeyError::InvalidEncoding)),
        }
    }

    fn to_bytes(&self) -> (r: Result<Vec<u8>, Error>) {
        Ok(slice_to_vec(self.bytes.as_slice()))
    }
}

impl<P: EcdhParams> PublicKey for EcdhPublicKey<P> {}

impl<'a, P: EcdhParams> From<&'a EcdhPublicKey<P>> for EcdhPublicKey<P> {
    fn from(key: &'a EcdhPublicKey<P>) -> (r: Self) {
        key.clone()
    }
}

/// `from` returns a copy of the key with the same bytes, as `clone` does.
impl<'a, P: EcdhParams> vstd::std_specs::convert::FromSpecImpl<&'a EcdhPublicKey<P>> for EcdhPublicKey<P> {
    open spec fn obeys_from_spec() -> bool {
        false
    }

    open spec fn from_spec(v: &'a EcdhPublicKey<P>) -> Self {
        *v
    }
}

impl<'a, P: EcdhParams> TryFrom<&'a [u8]> for EcdhPublicKey<P> {
    type Error = Error;

    fn try_from(bytes: &'a [u8]) -> (r: Result<Self, Error>) {
        <Self as Key>::from_bytes(bytes)
    }
}

/// `try_from` is `Key::from_bytes`: it accepts exactly the encodings that
/// `from_bytes` accepts and keeps their bytes.
impl<'a, P: EcdhParams> vstd::std_specs::convert::TryFromSpecImpl<&'a [u8]> for EcdhPublicKey<P> {
    open spec fn obeys_try_from_spec() -> bool {
        false
    }

    open spec fn try_from_spec(v: &'a [u8]) -> Result<Self, Error> {
        if <Self as Key>::accepts(v@) {
            Ok(choose|k: Self| k@ == v@)
        } else {
            Err(<Self as Key>::rejection())
        }
    }
}

/// An ECDH private key, held as its DER encoding. Its bytes are wiped when
/// it is dropped.
#[derive(Debug)]
pub struct EcdhPrivateKey<P: EcdhParams> {
    bytes: Vec<u8>,
    _params: core::marker::PhantomData<P>,
}

impl<P: EcdhParams> View for EcdhPrivateKey<P> {
    type V = Seq<u8>;

    closed spec fn view(&self) -> Seq<u8> {
        self.bytes@
    }
}

impl<P: EcdhParams> Clone for EcdhPrivateKey<P> {
    fn clone(&self) -> (r: Self)
        ensures
            r@ == self@,
    {
        EcdhPrivateKey { bytes: slice_to_vec(self.bytes.as_slice()), _params: core::marker::PhantomData }
    }
}

impl<P: EcdhParams> PartialEq for EcdhPrivateKey<P> {
    fn eq(&self, other: &Self) -> (r: bool) {
        bytes_equal(self.bytes.as_slice(), other.bytes.as_slice())
    }
}

impl<P: EcdhParams> vstd::std_specs::cmp::PartialEqSpecImpl for EcdhPrivateKey<P> {
    open spec fn obeys_eq_spec() -> bool {
        true
    }

    open spec fn eq_spec(&self, other: &Self) -> bool {
        self@ == other@
    }
}

impl<P: EcdhParams> Eq for EcdhPrivateKey<P> {}

impl<P: EcdhParams> Key for EcdhPrivateKey<P> {
    open spec fn accepts(bytes: Seq<u8>) -> bool {
        P::private_key_valid(bytes)
    }

    open spec fn rejection() -> Error {
        Error::Key(KeyError::InvalidEncoding)
    }

    open spec fn encoding(&self) -> Seq<u8> {
        self@
    }

    fn from_bytes(bytes: &[u8]) -> (r: Result<Self, Error>) {
        match P::validate_private_key(bytes) {
            Ok(()) => Ok(EcdhPrivateKey { bytes: slice_to_vec(bytes), _params: core::marker::PhantomData }),
            Err(e) => Err(e),
        }
    }

    fn to_bytes(&self) -> (r: Result<Vec<u8>, Error>) {
        Ok(slice_to_vec(self.bytes.as_slice()))
    }
}

impl<P: EcdhParams> PrivateKey<EcdhPublicKey<P>> for EcdhPrivateKey<P> {
    fn zeroize(&mut self) {
        wipe(&mut self.bytes);
    }
}

impl<'a, P: EcdhParams> TryFrom<&'a [u8]> for EcdhPrivateKey<P> {
    type Error = Error;

    fn try_from(bytes: &'a [u8]) -> (r: Result<Self, Error>) {
        <Self as Key>::from_bytes(bytes)
    }
}

/// `try_from` is `Key::from_bytes`: it accepts exactly the encodings that
/// `from_bytes` accepts and keeps their bytes.
impl<'a, P: EcdhParams> vstd::std_specs::convert::TryFromSpecImpl<&'a [u8]> for EcdhPrivateKey<P> {
    open spec fn obeys_try_from_spec() -> bool {
        false
    }

    open spec fn try_from_spec(v: &'a [u8]) -> Result<Self, Error> {
        if <Self as Key>::accepts(v@) {
            Ok(choose|k: Self| k@ == v@)
        } else {
            Err(<Self as Key>::rejection())
        }
    }
}

impl<P: EcdhParams> Drop for EcdhPrivateKey<P> {
    fn drop(&mut self)
        opens_invariants none
        no_unwind
    {
        wipe(&mut self.bytes);
    }
}

/// Key agreement generic over an ECDH parameter set.
#[derive(Debug, Default)]
pub struct EcdhScheme<P: EcdhParams> {
    _params: core::marker::PhantomData<P>,
}

/// ECDH over NIST P-256.
pub type EcdhP256 = EcdhScheme<EcdhP256Params>;

impl<P: EcdhParams> Algorithm for EcdhScheme<P> {
    const ID: u32 = P::ID;

    open spec fn spec_name() -> Seq<char> {
        P::NAME@
    }

    fn name() -> (r: String) {
        String::from_str(P::NAME)
    }
}

impl<P: EcdhParams> AsymmetricKeySet for EcdhScheme<P> {
    type PublicKey = EcdhPublicKey<P>;
    type PrivateKey = EcdhPrivateKey<P>;
}

impl<P: EcdhParams> EcdhScheme<P> {
    /// What `agree` returns for a private key and a peer public key, given
    /// as their encodings: the peer key is validated first.
    pub open spec fn agreement(private_der: Seq<u8>, public_der: Seq<u8>) -> Result<Seq<u8>, Error> {
        if !P::public_key_valid(public_der) {
            Err(Error::KeyAgreement(KeyAgreementError::InvalidPeerPublicKey))
        } else if !P::private_key_valid(private_der) {
            Err(Error::Key(KeyError::InvalidEncoding))
        } else {
            Ok(P::shared_secret(private_der, public_der))
        }
    }

    /// Builds a key pair from its two DER encodings, validating each: `Ok`
    /// exactly when both are valid, with the bytes kept as they are.
    pub fn keypair_from_der(public_der: Vec<u8>, private_der: Vec<u8>) -> (r: Result<(EcdhPublicKey<P>, EcdhPrivateKey<P>), Error>)
        ensures
            match r {
                Ok((pk, sk)) => P::public_key_valid(public_der@) && P::private_key_valid(private_der@)
                    && pk@ == public_der@ && sk@ == private_der@,
                Err(e) => !(P::public_key_valid(public_der@) && P::private_key_valid(private_der@))
                    && e == Error::Key(KeyError::InvalidEncoding),
            },
    {
        if P::validate_public_key(public_der.as_slice()).is_err() {
            return Err(Error::Key(KeyError::InvalidEncoding));
        }
        if P::validate_private_key(private_der.as_slice()).is_err() {
            return Err(Error::Key(KeyError::InvalidEncoding));
        }
        Ok(
            (
                EcdhPublicKey { bytes: public_der, _params: core::marker::PhantomData },
                EcdhPrivateKey { bytes: private_der, _params: core::marker::PhantomData },
            ),
        )
    }

    /// Whether two encodings form a generated key pair: both are valid, the
    /// public key belongs to the private key, and the private key agrees
    /// with any other party as that party agrees with the public key.
    pub open spec fn is_key_pair(public_der: Seq<u8>, private_der: Seq<u8>) -> bool {
        &&& P::public_key_valid(public_der)
        &&& P::private_key_valid(private_der)
        &&& public_der == P::public_key_of(private_der)
        &&& forall|other: Seq<u8>|
            #[trigger] P::private_key_valid(other) ==> P::shared_secret(
                private_der,
                P::public_key_of(other),
            ) == P::shared_secret(other, public_der)
    }

    /// Generates a fresh key pair: two valid encodings, the public key being
    /// the one that belongs to the private key.
    pub fn generate_keypair() -> (r: Result<(EcdhPublicKey<P>, EcdhPrivateKey<P>), Error>)
        ensures
            r matches Ok((pk, sk)) && Self::is_key_pair(pk@, sk@),
    {
        match P::generate_der() {
            None => Err(Error::Key(KeyError::GenerationFailed)),
            Some((public_der, private_der)) => match Self::keypair_from_der(public_der, private_der) {
                Ok(pair) => Ok(pair),
                Err(_) => Err(Error::Key(KeyError::GenerationFailed)),
            },
        }
    }

    /// Derives the raw shared secret of `private_key` and the peer's
    /// `public_key`. The peer key's encoding is checked before use. The
    /// result must go through a key derivation before it serves as a key.
    pub fn agree(private_key: &EcdhPrivateKey<P>, public_key: &EcdhPublicKey<P>) -> (r: Result<SharedSecret, Error>)
        ensures
            match r {
                Ok(s) => Self::agreement(private_key@, public_key@) == Ok::<Seq<u8>, Error>(s@),
                Err(e) => Self::agreement(private_key@, public_key@) == Err::<Seq<u8>, Error>(e),
            },
            r matches Ok(s) ==> s@.len() == P::shared_secret_len(),
    {
        P::validate_public_key(public_key.bytes.as_slice())?;
        P::validate_private_key(private_key.bytes.as_slice())?;
        match P::diffie_hellman(private_key.bytes.as_slice(), public_key.bytes.as_slice()) {
            Some(secret) => Ok(SharedSecret::new(secret)),
            None => Err(Error::Key(KeyError::InvalidEncoding)),
        }
    }

    /// Two generated key pairs agree on one secret: A's private key with B's
    /// public key gives what B's private key gives with A's public key, and
    /// both agreements succeed.
    pub proof fn lemma_agreement_symmetric(
        a_public: Seq<u8>,
        a_private: Seq<u8>,
        b_public: Seq<u8>,
        b_private: Seq<u8>,
    )
        requires
            Self::is_key_pair(a_public, a_private),
            Self::is_key_pair(b_public, b_private),
        ensures
            Self::agreement(a_private, b_public) is Ok,
            Self::agreement(a_private, b_public) == Self::agreement(b_private, a_public),
    {
        assert(P::private_key_valid(b_private));
    }

    /// A private key rebuilt from its own encoding agrees on the same
    /// secret, or fails the same way, with every peer key.
    pub proof fn lemma_agreement_survives_reencoding(
        private_key: &EcdhPrivateKey<P>,
        reloaded: &EcdhPrivateKey<P>,
        peer: &EcdhPublicKey<P>,
    )
        requires
            reloaded.encoding() == private_key.encoding(),
        ensures
            Self::agreement(reloaded@, peer@) == Self::agreement(private_key@, peer@),
    {
    }
}

} // verus!
