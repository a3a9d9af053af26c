use seal_crypto::algorithm::Algorithm;
use seal_crypto::dilithium::Dilithium2;
use seal_crypto::dilithium::Dilithium2Params;
use seal_crypto::dilithium::Dilithium3Params;
use seal_crypto::dilithium::Dilithium5Params;
use seal_crypto::dilithium::DilithiumParams;
use seal_crypto::dilithium::DilithiumPublicKey;
use seal_crypto::dilithium::DilithiumScheme;
use seal_crypto::dilithium::DilithiumSecretKey;
use seal_crypto::error::Error;
use seal_crypto::error::SignatureError;
use seal_crypto::key::Key;
use seal_crypto::key::KeyError;
use seal_crypto::key::PrivateKey;
use seal_crypto::key::Signature;

fn run_dilithium_tests<P: DilithiumParams + Default + Clone + std::fmt::Debug>() {
    // Key generation
    let (pk, sk) = DilithiumScheme::<P>::generate_keypair().unwrap();
    assert_eq!(pk.to_bytes().unwrap().len(), P::public_key_bytes());
    assert_eq!(sk.to_bytes().unwrap().len(), P::secret_key_bytes());

    // Key serialization
    let pk_bytes = pk.to_bytes().unwrap();
    let sk_bytes = sk.to_bytes().unwrap();
    let pk2 = DilithiumPublicKey::<P>::from_bytes(&pk_bytes).unwrap();
    let sk2 = DilithiumSecretKey::<P>::from_bytes(&sk_bytes).unwrap();
    assert_eq!(pk, pk2);
    assert_eq!(sk.to_bytes(), sk2.to_bytes());

    // Sign/verify round trip
    let message = b"this is the message to be signed";
    let signature = DilithiumScheme::<P>::sign(&sk, message).unwrap();
    assert!(DilithiumScheme::<P>::verify(&pk, message, &signature).is_ok());

    // A tampered message does not verify
    let tampered_message = b"this is a different message";
    assert!(DilithiumScheme::<P>::verify(&pk, tampered_message, &signature).is_err());

    // Empty message
    let empty_message = b"";
    let signature_empty = DilithiumScheme::<P>::sign(&sk, empty_message).unwrap();
    assert!(DilithiumScheme::<P>::verify(&pk, empty_message, &signature_empty).is_ok());
}

#[test]
fn test_dilithium2() {
    run_dilithium_tests::<Dilithium2Params>();
}

#[test]
fn test_dilithium3() {
    run_dilithium_tests::<Dilithium3Params>();
}

#[test]
fn test_dilithium5() {
    run_dilithium_tests::<Dilithium5Params>();
}

#[test]
fn dilithium_sizes_per_level() {
    assert_eq!(Dilithium2Params::public_key_bytes(), 1312);
    assert_eq!(Dilithium2Params::secret_key_bytes(), 2560);
    assert_eq!(Dilithium2Params::signature_bytes(), 2420);
    assert_eq!(Dilithium3Params::public_key_bytes(), 1952);
    assert_eq!(Dilithium3Params::secret_key_bytes(), 4032);
    assert_eq!(Dilithium3Params::signature_bytes(), 3309);
    assert_eq!(Dilithium5Params::public_key_bytes(), 2592);
    assert_eq!(Dilithium5Params::secret_key_bytes(), 4896);
    assert_eq!(Dilithium5Params::signature_bytes(), 4627);
}

#[test]
fn dilithium_signature_has_fixed_length_and_is_deterministic() {
    let (_pk, sk) = Dilithium2::generate_keypair().unwrap();
    let a = Dilithium2::sign(&sk, b"msg").unwrap();
    let b = Dilithium2::sign(&sk, b"msg").unwrap();
    assert_eq!(a.len(), 2420);
    assert_eq!(a, b);
}

#[test]
fn dilithium_rejects_wrong_key_lengths() {
    assert_eq!(
        DilithiumPublicKey::<Dilithium2Params>::from_bytes(&[0u8; 1311]).unwrap_err(),
        Error::Key(KeyError::InvalidEncoding)
    );
    assert_eq!(
        DilithiumSecretKey::<Dilithium2Params>::from_bytes(&[0u8; 2561]).unwrap_err(),
        Error::Key(KeyError::InvalidEncoding)
    );
}

#[test]
fn dilithium_malformed_and_wrong_signatures() {
    let (pk, sk) = Dilithium2::generate_keypair().unwrap();
    let too_long = Signature(vec![0u8; 2421]);
    assert_eq!(
        Dilithium2::verify(&pk, b"m", &too_long),
        Err(Error::Signature(SignatureError::InvalidSignature))
    );
    let short = Signature(vec![1u8; 10]);
    assert_eq!(Dilithium2::verify(&pk, b"m", &short), Err(Error::Signature(SignatureError::Verification)));
    let mut sig = Dilithium2::sign(&sk, b"m").unwrap();
    sig.0[0] ^= 1;
    assert_eq!(Dilithium2::verify(&pk, b"m", &sig), Err(Error::Signature(SignatureError::Verification)));
    let (other_pk, _other_sk) = Dilithium2::generate_keypair().unwrap();
    let good = Dilithium2::sign(&sk, b"m").unwrap();
    assert_eq!(Dilithium2::verify(&other_pk, b"m", &good), Err(Error::Signature(SignatureError::Verification)));
}

#[test]
fn dilithium_zeroize_empties_secret_key() {
    let (_pk, mut sk) = Dilithium2::generate_keypair().unwrap();
    sk.zeroize();
    assert_eq!(sk.to_bytes().unwrap(), Vec::<u8>::new());
    assert_eq!(Dilithium2::sign(&sk, b"m"), Err(Error::Signature(SignatureError::Signing)));
}

#[test]
fn dilithium_identity() {
    assert_eq!(Dilithium2::name(), "Dilithium2");
    assert_eq!(DilithiumScheme::<Dilithium5Params>::name(), "Dilithium5");
}

#[test]
fn dilithium_conversions() {
    let (pk, sk) = Dilithium2::generate_keypair().unwrap();
    let pk_bytes = pk.to_bytes().unwrap();
    let pk2 = DilithiumPublicKey::<Dilithium2Params>::try_from(&pk_bytes[..]).unwrap();
    assert_eq!(DilithiumPublicKey::from(&pk2), pk);
    assert!(DilithiumPublicKey::<Dilithium2Params>::try_from(&pk_bytes[1..]).is_err());
    let sk_bytes = sk.to_bytes().unwrap();
    let sk2 = DilithiumSecretKey::<Dilithium2Params>::try_from(&sk_bytes[..]).unwrap();
    assert_eq!(sk2, sk);
    assert_eq!(sk2.clone(), sk);
}
