//! Key derivation in two deliberately different shapes: HKDF for
//! high-entropy input, where salt and context are optional, and PBKDF2 for
//! passwords, where the salt is a required argument and the iteration count
//! is fixed when the scheme value is made.
//!
//! Both are deterministic: equal inputs give equal output bytes.
use vstd::prelude::*;
use vstd::string::StringExecFns;

use crate::algorithm::Algorithm;
use crate::algorithm::SchemeParams;
use crate::error::Error;
use crate::error::KdfError;
use crate::key::DerivedKey;
use crate::sealed::Sealed;

verus! {

/// The iteration count of a PBKDF2 scheme made by `default`. Choose a count
/// that suits the deployment's threat model: no minimum is enforced.
pub const PBKDF2_DEFAULT_ITERATIONS: u32 = 600_000;

/// The bytes of an optional argument: absent means empty.
pub open spec fn or_empty(bytes: Option<&[u8]>) -> Seq<u8> {
    match bytes {
        Some(b) => b@,
        None => Seq::empty(),
    }
}

/// The first `len` bytes of HKDF-SHA256 output.
pub uninterp spec fn hkdf_sha256_output(ikm: Seq<u8>, salt: Seq<u8>, info: Seq<u8>, len: nat) -> Seq<u8>;

/// The `len` bytes of PBKDF2-HMAC-SHA256 output.
pub uninterp spec fn pbkdf2_sha256_output(password: Seq<u8>, salt: Seq<u8>, iterations: nat, len: nat) -> Seq<u8>;

/// Relies on `hkdf::Hkdf::<Sha256>::new` and `expand`: `expand` fills the
/// whole output and refuses one longer than 255 hash lengths.
#[verifier::external_body]
fn hkdf_sha256(ikm: &[u8], salt: &[u8], info: &[u8], len: usize) -> (r: Option<Vec<u8>>)
    ensures
        r is Some <==> len <= 255 * 32,
        r matches Some(v) ==> v@ == hkdf_sha256_output(ikm@, salt@, info@, len as nat) && v@.len() == len,
{
    let mut okm = vec![0u8; len];
    hkdf::Hkdf::<sha2::Sha256>::new(Some(salt), ikm).expand(info, &mut okm).ok()?;
    Some(okm)
}

/// Relies on `pbkdf2::pbkdf2_hmac::<Sha256>`, which fills the whole output
/// and does not fail.
#[verifier::external_body]
fn pbkdf2_sha256(password: &[u8], salt: &[u8], iterations: u32, len: usize) -> (r: Vec<u8>)
    ensures
        r@ == pbkdf2_sha256_output(password@, salt@, iterations as nat, len as nat),
        r@.len() == len,
{
    let mut out = vec![0u8; len];
    pbkdf2::pbkdf2_hmac::<sha2::Sha256>(password, salt, iterations, &mut out);
    out
}

/// The first `len` bytes of HKDF-SHA512 output.
pub uninterp spec fn hkdf_sha512_output(ikm: Seq<u8>, salt: Seq<u8>, info: Seq<u8>, len: nat) -> Seq<u8>;

/// The `len` bytes of PBKDF2-HMAC-SHA512 output.
pub uninterp spec fn pbkdf2_sha512_output(password: Seq<u8>, salt: Seq<u8>, iterations: nat, len: nat) -> Seq<u8>;

/// Relies on `hkdf::Hkdf::<Sha512>::new` and `expand`: `expand` fills the
/// whole output and refuses one longer than 255 hash lengths.
#[verifier::external_body]
fn hkdf_sha512(ikm: &[u8], salt: &[u8], info: &[u8], len: usize) -> (r: Option<Vec<u8>>)
    ensures
        r is Some <==> len <= 255 * 64,
        r matches Some(v) ==> v@ == hkdf_sha512_output(ikm@, salt@, info@, len as nat) && v@.len() == len,
{
    let mut okm = vec![0u8; len];
    hkdf::Hkdf::<sha2::Sha512>::new(Some(salt), ikm).expand(info, &mut okm).ok()?;
    Some(okm)
}

/// Relies on `pbkdf2::pbkdf2_hmac::<Sha512>`, which fills the whole output
/// and does not fail.
#[verifier::external_body]
fn pbkdf2_sha512(password: &[u8], salt: &[u8], iterations: u32, len: usize) -> (r: Vec<u8>)
    ensures
        r@ == pbkdf2_sha512_output(password@, salt@, iterations as nat, len as nat),
        r@.len() == len,
{
    let mut out = vec![0u8; len];
    pbkdf2::pbkdf2_hmac::<sha2::Sha512>(password, salt, iterations, &mut out);
    out
}

/// The parameter set of one HKDF hash. Only this crate can implement it.
pub trait HkdfParams: Sealed + SchemeParams {
    /// The hash output length in bytes.
    spec fn hash_size() -> nat;

    /// The first `len` bytes of HKDF output.
    spec fn output(ikm: Seq<u8>, salt: Seq<u8>, info: Seq<u8>, len: nat) -> Seq<u8>;

    /// HKDF extract-then-expand; `None` when `len` exceeds 255 hash lengths.
    fn expand(ikm: &[u8], salt: &[u8], info: &[u8], len: usize) -> (r: Option<Vec<u8>>)
        ensures
            r is Some <==> len <= 255 * Self::hash_size(),
            r matches Some(v) ==> v@ == Self::output(ikm@, salt@, info@, len as nat),
    ;
}

/// The parameter set of one PBKDF2 hash. Only this crate can implement it.
pub trait Pbkdf2Params: Sealed + SchemeParams {
    /// The `len` bytes of PBKDF2 output.
    spec fn output(password: Seq<u8>, salt: Seq<u8>, iterations: nat, len: nat) -> Seq<u8>;

    /// PBKDF2 with HMAC over the parameter set's hash.
    fn stretch(password: &[u8], salt: &[u8], iterations: u32, len: usize) -> (r: Vec<u8>)
        ensures
            r@ == Self::output(password@, salt@, iterations as nat, len as nat),
    ;
}

/// HKDF over SHA-256.
#[derive(Clone, Debug, Default)]
pub struct HkdfSha256Params;

impl Sealed for HkdfSha256Params {}

impl SchemeParams for HkdfSha256Params {
    const NAME: &'static str = "HKDF-SHA256";
    const ID: u32 = 0x03_01_01_01;
}

impl HkdfParams for HkdfSha256Params {
    open spec fn hash_size() -> nat {
        32
    }

    open spec fn output(ikm: Seq<u8>, salt: Seq<u8>, info: Seq<u8>, len: nat) -> Seq<u8> {
        hkdf_sha256_output(ikm, salt, info, len)
    }

    fn expand(ikm: &[u8], salt: &[u8], info: &[u8], len: usize) -> (r: Option<Vec<u8>>) {
        hkdf_sha256(ikm, salt, info, len)
    }
}

/// PBKDF2 with HMAC-SHA-256.
#[derive(Clone, Debug, Default)]
pub struct Pbkdf2Sha256Params;

impl Sealed for Pbkdf2Sha256Params {}

impl SchemeParams for Pbkdf2Sha256Params {
    const NAME: &'static str = "PBKDF2-SHA256";
    const ID: u32 = 0x03_02_01_01;
}

impl Pbkdf2Params for Pbkdf2Sha256Params {
    open spec fn output(password: Seq<u8>, salt: Seq<u8>, iterations: nat, len: nat) -> Seq<u8> {
        pbkdf2_sha256_output(password, salt, iterations, len)
    }

    fn stretch(password: &[u8], salt: &[u8], iterations: u32, len: usize) -> (r: Vec<u8>) {
        pbkdf2_sha256(password, salt, iterations, len)
    }
}

/// HKDF over SHA-512.
#[derive(Clone, Debug, Default)]
pub struct HkdfSha512Params;

impl Sealed for HkdfSha512Params {}

impl SchemeParams for HkdfSha512Params {
    const NAME: &'static str = "HKDF-SHA512";
    const ID: u32 = 0x03_01_01_02;
}

impl HkdfParams for HkdfSha512Params {
    open spec fn hash_size() -> nat {
        64
    }

    open spec fn output(ikm: Seq<u8>, salt: Seq<u8>, info: Seq<u8>, len: nat) -> Seq<u8> {
        hkdf_sha512_output(ikm, salt, info, len)
    }

    fn expand(ikm: &[u8], salt: &[u8], info: &[u8], len: usize) -> (r: Option<Vec<u8>>) {
        hkdf_sha512(ikm, salt, info, len)
    }
}

/// PBKDF2 with HMAC-SHA-512.
#[derive(Clone, Debug, Default)]
pub struct Pbkdf2Sha512Params;

impl Sealed for Pbkdf2Sha512Params {}

impl SchemeParams for Pbkdf2Sha512Params {
    const NAME: &'static str = "PBKDF2-SHA512";
    const ID: u32 = 0x03_02_01_02;
}

impl Pbkdf2Params for Pbkdf2Sha512Params {
    open spec fn output(password: Seq<u8>, salt: Seq<u8>, iterations: nat, len: nat) -> Seq<u8> {
        pbkdf2_sha512_output(password, salt, iterations, len)
    }

    fn stretch(password: &[u8], salt: &[u8], iterations: u32, len: usize) -> (r: Vec<u8>) {
        pbkdf2_sha512(password, salt, iterations, len)
    }
}

/// Key derivation from high-entropy input, generic over the hash.
#[derive(Debug, Default)]
pub struct HkdfScheme<P: HkdfParams> {
    _params: core::marker::PhantomData<P>,
}

/// HKDF over SHA-256.
pub type HkdfSha256 = HkdfScheme<HkdfSha256Params>;

/// HKDF over SHA-512.
pub type HkdfSha512 = HkdfScheme<HkdfSha512Params>;

impl<P: HkdfParams> Algorithm for HkdfScheme<P> {
    const ID: u32 = P::ID;

    open spec fn spec_name() -> Seq<char> {
        P::NAME@
    }

    fn name() -> (r: String) {
        String::from_str(P::NAME)
    }
}

impl<P: HkdfParams> HkdfScheme<P> {
    /// What `derive` returns for the input key material, the salt and the
    /// context, with absent ones already taken as empty.
    pub open spec fn derivation(ikm: Seq<u8>, salt: Seq<u8>, info: Seq<u8>, output_len: nat) -> Result<Seq<u8>, Error> {
        if output_len > 255 * P::hash_size() {
            Err(Error::Kdf(KdfError::InvalidOutputLength))
        } else {
            Ok(P::output(ikm, salt, info, output_len))
        }
    }

    pub fn new() -> (r: Self) {
        HkdfScheme { _params: core::marker::PhantomData }
    }

    /// Derives `output_len` bytes from `ikm`. An absent salt or context is
    /// valid and is the same as an empty one.
    pub fn derive(&self, ikm: &[u8], salt: Option<&[u8]>, info: Option<&[u8]>, output_len: usize) -> (r: Result<DerivedKey, Error>)
        ensures
            match r {
                Ok(k) => Self::derivation(ikm@, or_empty(salt), or_empty(info), output_len as nat)
                    == Ok::<Seq<u8>, Error>(k@),
                Err(e) => Self::derivation(ikm@, or_empty(salt), or_empty(info), output_len as nat)
                    == Err::<Seq<u8>, Error>(e),
            },
    {
        let empty: Vec<u8> = Vec::new();
        let salt_bytes: &[u8] = match salt {
            Some(s) => s,
            None => empty.as_slice(),
        };
        let info_bytes: &[u8] = match info {
            Some(i) => i,
            None => empty.as_slice(),
        };
        match P::expand(ikm, salt_bytes, info_bytes, output_len) {
            Some(okm) => Ok(DerivedKey::new(okm)),
            None => Err(Error::Kdf(KdfError::InvalidOutputLength)),
        }
    }

    /// Derivation is deterministic: the same input key material, salt,
    /// context and length always give the same result.
    pub proof fn lemma_derivation_deterministic(
        ikm1: Seq<u8>,
        ikm2: Seq<u8>,
        salt1: Seq<u8>,
        salt2: Seq<u8>,
        info1: Seq<u8>,
        info2: Seq<u8>,
        output_len: nat,
    )
        requires
            ikm1 == ikm2,
            salt1 == salt2,
            info1 == info2,
        ensures
            Self::derivation(ikm1, salt1, info1, output_len) == Self::derivation(
                ikm2,
                salt2,
                info2,
                output_len,
            ),
    {
    }
}

/// Key derivation from passwords, generic over the hash. The salt is a
/// required argument of `derive`; the iteration count is fixed when the
/// scheme value is made.
#[derive(Debug)]
pub struct Pbkdf2Scheme<P: Pbkdf2Params> {
    /// The PBKDF2 iteration count.
    pub iterations: u32,
    _params: core::marker::PhantomData<P>,
}

/// PBKDF2 with HMAC-SHA-256.
pub type Pbkdf2Sha256 = Pbkdf2Scheme<Pbkdf2Sha256Params>;

/// PBKDF2 with HMAC-SHA-512.
pub type Pbkdf2Sha512 = Pbkdf2Scheme<Pbkdf2Sha512Params>;

impl<P: Pbkdf2Params> Default for Pbkdf2Scheme<P> {
    fn default() -> (r: Self)
        ensures
            r.spec_iterations() == PBKDF2_DEFAULT_ITERATIONS,
    {
        Pbkdf2Scheme { iterations: PBKDF2_DEFAULT_ITERATIONS, _params: core::marker::PhantomData }
    }
}

impl<P: Pbkdf2Params> Algorithm for Pbkdf2Scheme<P> {
    const ID: u32 = P::ID;

    open spec fn spec_name() -> Seq<char> {
        P::NAME@
    }

    fn name() -> (r: String) {
        String::from_str(P::NAME)
    }
}

impl<P: Pbkdf2Params> Pbkdf2Scheme<P> {
    /// The iteration count this scheme runs.
    pub closed spec fn spec_iterations(&self) -> u32 {
        self.iterations
    }

    /// What `derive` returns for a password, salt, iteration count and
    /// length.
    pub open spec fn derivation(password: Seq<u8>, salt: Seq<u8>, iterations: nat, output_len: nat) -> Result<Seq<u8>, Error> {
        Ok(P::output(password, salt, iterations, output_len))
    }

    /// A scheme that runs `iterations` rounds.
    pub fn new(iterations: u32) -> (r: Self)
        ensures
            r.spec_iterations() == iterations,
    {
        Pbkdf2Scheme { iterations, _params: core::marker::PhantomData }
    }

    /// Stretches `password` with `salt` into `output_len` bytes. This is a
    /// blocking call whose cost grows with the iteration count.
    pub fn derive(&self, password: &[u8], salt: &[u8], output_len: usize) -> (r: Result<DerivedKey, Error>)
        ensures
            match r {
                Ok(k) => Self::derivation(password@, salt@, self.spec_iterations() as nat, output_len as nat)
                    == Ok::<Seq<u8>, Error>(k@),
                Err(e) => false,
            },
    {
        Ok(DerivedKey::new(P::stretch(password, salt, self.iterations, output_len)))
    }

    /// Derivation is deterministic: the same password, salt, iteration
    /// count and length always give the same result.
    pub proof fn lemma_derivation_deterministic(
        password1: Seq<u8>,
        password2: Seq<u8>,
        salt1: Seq<u8>,
        salt2: Seq<u8>,
        iterations: nat,
        output_len: nat,
    )
        requires
            password1 == password2,
            salt1 == salt2,
        ensures
            Self::derivation(password1, salt1, iterations, output_len) == Self::derivation(
                password2,
                salt2,
                iterations,
                output_len,
            ),
    {
    }
}

} // verus!
