use seal_crypto::algorithm::Algorithm;
use seal_crypto::ecdh::EcdhP256;
use seal_crypto::ecdh::EcdhP256Params;
use seal_crypto::ecdh::EcdhPrivateKey;
use seal_crypto::ecdh::EcdhPublicKey;
use seal_crypto::error::Error;
use seal_crypto::key::Key;
use seal_crypto::key::KeyError;

#[test]
fn test_ecdh_p256_key_agreement() {
    // Alice generates a keypair
    let (alice_pk, alice_sk) = EcdhP256::generate_keypair().unwrap();

    // Bob generates a keypair
    let (bob_pk, bob_sk) = EcdhP256::generate_keypair().unwrap();

    // They perform key agreement
    let alice_shared = EcdhP256::agree(&alice_sk, &bob_pk).unwrap();
    let bob_shared = EcdhP256::agree(&bob_sk, &alice_pk).unwrap();

    // The shared secrets must be equal
    assert_eq!(alice_shared, bob_shared);

    // Key serialization/deserialization
    let alice_pk_bytes = alice_pk.to_bytes().unwrap();
    let alice_sk_bytes = alice_sk.to_bytes().unwrap();

    let _ = EcdhPublicKey::<EcdhP256Params>::from_bytes(&alice_pk_bytes).unwrap();
    let alice_sk2 = EcdhPrivateKey::<EcdhP256Params>::from_bytes(&alice_sk_bytes).unwrap();

    let alice_shared2 = EcdhP256::agree(&alice_sk2, &bob_pk).unwrap();
    assert_eq!(alice_shared, alice_shared2);
}

#[test]
fn ecdh_shared_secret_is_one_field_element() {
    let (_a_pk, a_sk) = EcdhP256::generate_keypair().unwrap();
    let (b_pk, _b_sk) = EcdhP256::generate_keypair().unwrap();
    assert_eq!(EcdhP256::agree(&a_sk, &b_pk).unwrap().as_bytes().len(), 32);
}

#[test]
fn ecdh_rejects_malformed_keys() {
    assert_eq!(
        EcdhPublicKey::<EcdhP256Params>::from_bytes(&[0x30, 0x03, 0x01, 0x02, 0x03]).unwrap_err(),
        Error::Key(KeyError::InvalidEncoding)
    );
    assert_eq!(
        EcdhPrivateKey::<EcdhP256Params>::from_bytes(b"not a key").unwrap_err(),
        Error::Key(KeyError::InvalidEncoding)
    );
    let (pk, sk) = EcdhP256::generate_keypair().unwrap();
    // A private key encoding is not a public key encoding, and the reverse.
    assert!(EcdhPublicKey::<EcdhP256Params>::from_bytes(&sk.to_bytes().unwrap()).is_err());
    assert!(EcdhPrivateKey::<EcdhP256Params>::from_bytes(&pk.to_bytes().unwrap()).is_err());
}

#[test]
fn ecdh_public_key_equality_is_by_content() {
    let (pk, _sk) = EcdhP256::generate_keypair().unwrap();
    let again = EcdhPublicKey::<EcdhP256Params>::from_bytes(&pk.to_bytes().unwrap()).unwrap();
    assert_eq!(pk, again);
    assert_eq!(pk.clone(), pk);
    let (other, _) = EcdhP256::generate_keypair().unwrap();
    assert_ne!(pk, other);
}

#[test]
fn ecdh_identity() {
    assert_eq!(EcdhP256::name(), "ECDH-P256");
    assert_eq!(EcdhP256::ID, 0x01_01_03_01);
}

#[test]
fn ecdh_keypair_from_der_validates_both_encodings() {
    let (pk, sk) = EcdhP256::generate_keypair().unwrap();
    let pk_der = pk.to_bytes().unwrap();
    let sk_der = sk.to_bytes().unwrap();
    let (pk2, sk2) = EcdhP256::keypair_from_der(pk_der.clone(), sk_der.clone()).unwrap();
    assert_eq!(pk2.to_bytes().unwrap(), pk_der);
    assert_eq!(sk2.to_bytes().unwrap(), sk_der);
    assert_eq!(
        EcdhP256::keypair_from_der(sk_der.clone(), sk_der.clone()).unwrap_err(),
        Error::Key(KeyError::InvalidEncoding)
    );
    assert_eq!(
        EcdhP256::keypair_from_der(pk_der.clone(), pk_der.clone()).unwrap_err(),
        Error::Key(KeyError::InvalidEncoding)
    );
}

#[test]
fn ecdh_agree_with_corrupted_peer_key_is_rejected() {
    let (pk, sk) = EcdhP256::generate_keypair().unwrap();
    let bytes = pk.to_bytes().unwrap();
    let mut corrupted = bytes.clone();
    let last = corrupted.len() - 1;
    corrupted[last] ^= 0x01;
    // Flipping the last coordinate bit moves the point off the curve.
    assert!(EcdhPublicKey::<EcdhP256Params>::try_from(&corrupted[..]).is_err());
    let same = EcdhPublicKey::<EcdhP256Params>::try_from(&bytes[..]).unwrap();
    assert_eq!(EcdhPublicKey::from(&same), pk);
    let sk2 = EcdhPrivateKey::<EcdhP256Params>::try_from(&sk.to_bytes().unwrap()[..]).unwrap();
    assert_eq!(EcdhP256::agree(&sk2, &same).unwrap(), EcdhP256::agree(&sk, &pk).unwrap());
}
