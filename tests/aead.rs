use chacha20poly1305::aead::rand_core::RngCore;
use chacha20poly1305::aead::OsRng;
use seal_crypto::aead::ChaCha20Poly1305Params;
use seal_crypto::aead::Chacha20Poly1305Params;
use seal_crypto::aead::Chacha20Poly1305Scheme;
use seal_crypto::aead::XChaCha20Poly1305Params;
use seal_crypto::aead::ChaCha20Poly1305;
use seal_crypto::aead::XChaCha20Poly1305;
use seal_crypto::algorithm::Algorithm;
use seal_crypto::error::Error;
use seal_crypto::error::SymmetricError;
use seal_crypto::key::SymmetricKey;

fn roundtrip<P: Chacha20Poly1305Params>() {
    let key = Chacha20Poly1305Scheme::<P>::generate_key().unwrap();
    let plaintext = b"this is a secret message".to_vec();
    let aad = b"this is authenticated data".to_vec();
    let empty_vec: Vec<u8> = Vec::new();
    let mut nonce = vec![0u8; P::NONCE_SIZE];
    OsRng.fill_bytes(&mut nonce);

    // With AAD
    let ciphertext_aad = Chacha20Poly1305Scheme::<P>::encrypt(&key, &nonce, &plaintext, Some(&aad)).unwrap();
    let decrypted_aad = Chacha20Poly1305Scheme::<P>::decrypt(&key, &nonce, &ciphertext_aad, Some(&aad)).unwrap();
    assert_eq!(plaintext, decrypted_aad);

    // Buffer encryption with AAD
    let mut encrypted_buffer_aad = vec![0u8; plaintext.len() + P::TAG_SIZE];
    let bytes_written = Chacha20Poly1305Scheme::<P>::encrypt_to_buffer(
        &key,
        &nonce,
        &plaintext,
        &mut encrypted_buffer_aad,
        Some(&aad),
    )
    .unwrap();
    assert_eq!(bytes_written, ciphertext_aad.len());
    assert_eq!(ciphertext_aad, &encrypted_buffer_aad[..bytes_written]);

    let mut decrypted_buffer_aad = vec![0u8; plaintext.len()];
    let bytes_written = Chacha20Poly1305Scheme::<P>::decrypt_to_buffer(
        &key,
        &nonce,
        &encrypted_buffer_aad,
        &mut decrypted_buffer_aad,
        Some(&aad),
    )
    .unwrap();
    assert_eq!(bytes_written, plaintext.len());
    assert_eq!(plaintext, &decrypted_buffer_aad[..bytes_written]);

    // Without AAD
    let ciphertext_no_aad = Chacha20Poly1305Scheme::<P>::encrypt(&key, &nonce, &plaintext, None).unwrap();
    let decrypted_no_aad = Chacha20Poly1305Scheme::<P>::decrypt(&key, &nonce, &ciphertext_no_aad, None).unwrap();
    assert_eq!(plaintext, decrypted_no_aad);

    // Buffer encryption without AAD
    let mut encrypted_buffer_no_aad = vec![0u8; plaintext.len() + P::TAG_SIZE];
    let bytes_written = Chacha20Poly1305Scheme::<P>::encrypt_to_buffer(
        &key,
        &nonce,
        &plaintext,
        &mut encrypted_buffer_no_aad,
        None,
    )
    .unwrap();
    assert_eq!(bytes_written, ciphertext_no_aad.len());
    assert_eq!(ciphertext_no_aad, &encrypted_buffer_no_aad[..bytes_written]);

    let mut decrypted_buffer_no_aad = vec![0u8; plaintext.len()];
    let bytes_written = Chacha20Poly1305Scheme::<P>::decrypt_to_buffer(
        &key,
        &nonce,
        &encrypted_buffer_no_aad,
        &mut decrypted_buffer_no_aad,
        None,
    )
    .unwrap();
    assert_eq!(bytes_written, plaintext.len());
    assert_eq!(plaintext, &decrypted_buffer_no_aad[..bytes_written]);

    // Empty plaintext with AAD
    let ciphertext_empty_pt = Chacha20Poly1305Scheme::<P>::encrypt(&key, &nonce, &empty_vec, Some(&aad)).unwrap();
    let decrypted_empty_pt =
        Chacha20Poly1305Scheme::<P>::decrypt(&key, &nonce, &ciphertext_empty_pt, Some(&aad)).unwrap();
    assert_eq!(empty_vec, decrypted_empty_pt);

    // Plaintext with empty AAD
    let ciphertext_empty_aad = Chacha20Poly1305Scheme::<P>::encrypt(&key, &nonce, &plaintext, Some(&[])).unwrap();
    let decrypted_empty_aad =
        Chacha20Poly1305Scheme::<P>::decrypt(&key, &nonce, &ciphertext_empty_aad, Some(&[])).unwrap();
    assert_eq!(plaintext, decrypted_empty_aad);

    // Tampered ciphertext
    let mut tampered_ciphertext = ciphertext_aad.clone();
    tampered_ciphertext[0] ^= 0xff;
    assert!(Chacha20Poly1305Scheme::<P>::decrypt(&key, &nonce, &tampered_ciphertext, Some(&aad)).is_err());

    // Tampered AAD
    let tampered_aad = b"this is different authenticated data".to_vec();
    assert!(Chacha20Poly1305Scheme::<P>::decrypt(&key, &nonce, &ciphertext_aad, Some(&tampered_aad)).is_err());
}

#[test]
fn test_chacha20_poly1305_scheme() {
    roundtrip::<ChaCha20Poly1305Params>();
}

#[test]
fn xchacha20_poly1305_scheme_round_trips() {
    roundtrip::<XChaCha20Poly1305Params>();
}

fn invalid_inputs<P: Chacha20Poly1305Params>() {
    let key = Chacha20Poly1305Scheme::<P>::generate_key().unwrap();
    let mut wrong_size_key = key.to_vec();
    wrong_size_key.push(0);
    let wrong_size_key = SymmetricKey::new(wrong_size_key);

    let mut nonce = vec![0u8; P::NONCE_SIZE];
    OsRng.fill_bytes(&mut nonce);
    let mut wrong_size_nonce = nonce.clone();
    wrong_size_nonce.push(0);

    let plaintext = b"plaintext";
    let ciphertext = Chacha20Poly1305Scheme::<P>::encrypt(&key, &nonce, plaintext, None).unwrap();

    // Invalid key size
    let err = Chacha20Poly1305Scheme::<P>::encrypt(&wrong_size_key, &nonce, plaintext, None).unwrap_err();
    assert!(matches!(err, Error::Symmetric(SymmetricError::InvalidKeySize)));
    let err = Chacha20Poly1305Scheme::<P>::decrypt(&wrong_size_key, &nonce, &ciphertext, None).unwrap_err();
    assert!(matches!(err, Error::Symmetric(SymmetricError::InvalidKeySize)));

    // Invalid nonce size
    let err = Chacha20Poly1305Scheme::<P>::encrypt(&key, &wrong_size_nonce, plaintext, None).unwrap_err();
    assert!(matches!(err, Error::Symmetric(SymmetricError::InvalidNonceSize)));
    let err = Chacha20Poly1305Scheme::<P>::decrypt(&key, &wrong_size_nonce, &ciphertext, None).unwrap_err();
    assert!(matches!(err, Error::Symmetric(SymmetricError::InvalidNonceSize)));
}

#[test]
fn test_chacha20_poly1305_invalid_inputs() {
    invalid_inputs::<ChaCha20Poly1305Params>();
}

#[test]
fn test_xchacha20_poly1305_invalid_inputs() {
    invalid_inputs::<XChaCha20Poly1305Params>();
}

#[test]
fn concrete_example_encrypts_to_plaintext_plus_tag() {
    let key = ChaCha20Poly1305::generate_key().unwrap();
    let nonce = [7u8; 12];
    let plaintext = b"this is a secret message";
    let aad = b"this is authenticated data";
    let ciphertext = ChaCha20Poly1305::encrypt(&key, &nonce, plaintext, Some(aad)).unwrap();
    assert_eq!(ciphertext.len(), plaintext.len() + 16);
    assert_ne!(&ciphertext[..plaintext.len()], &plaintext[..]);
    let decrypted = ChaCha20Poly1305::decrypt(&key, &nonce, &ciphertext, Some(aad)).unwrap();
    assert_eq!(decrypted, plaintext.to_vec());
    let mut corrupted = ciphertext.clone();
    corrupted[0] ^= 0x01;
    assert_eq!(
        ChaCha20Poly1305::decrypt(&key, &nonce, &corrupted, Some(aad)),
        Err(Error::Symmetric(SymmetricError::Decryption))
    );
}

#[test]
fn every_single_bit_flip_is_rejected() {
    let key = XChaCha20Poly1305::generate_key().unwrap();
    let nonce = [1u8; 24];
    let ciphertext = XChaCha20Poly1305::encrypt(&key, &nonce, b"abc", Some(b"ctx")).unwrap();
    for i in 0..ciphertext.len() {
        for bit in 0..8 {
            let mut tampered = ciphertext.clone();
            tampered[i] ^= 1 << bit;
            assert_eq!(
                XChaCha20Poly1305::decrypt(&key, &nonce, &tampered, Some(b"ctx")),
                Err(Error::Symmetric(SymmetricError::Decryption))
            );
        }
    }
}

#[test]
fn absent_aad_equals_empty_aad() {
    let key = ChaCha20Poly1305::generate_key().unwrap();
    let nonce = [0u8; 12];
    let a = ChaCha20Poly1305::encrypt(&key, &nonce, b"message", None).unwrap();
    let b = ChaCha20Poly1305::encrypt(&key, &nonce, b"message", Some(&[])).unwrap();
    assert_eq!(a, b);
    assert_eq!(ChaCha20Poly1305::decrypt(&key, &nonce, &a, Some(&[])).unwrap(), b"message".to_vec());
    assert!(ChaCha20Poly1305::decrypt(&key, &nonce, &a, Some(b"x")).is_err());
}

#[test]
fn size_errors_leave_output_untouched() {
    let key = ChaCha20Poly1305::generate_key().unwrap();
    let short_key = SymmetricKey::new(vec![1u8; 31]);
    let nonce = [0u8; 12];
    let mut output = vec![0xaau8; 64];
    assert_eq!(
        ChaCha20Poly1305::encrypt_to_buffer(&short_key, &nonce, b"hello", &mut output, None),
        Err(Error::Symmetric(SymmetricError::InvalidKeySize))
    );
    assert_eq!(output, vec![0xaau8; 64]);
    assert_eq!(
        ChaCha20Poly1305::encrypt_to_buffer(&key, &nonce[..11], b"hello", &mut output, None),
        Err(Error::Symmetric(SymmetricError::InvalidNonceSize))
    );
    assert_eq!(output, vec![0xaau8; 64]);
    assert_eq!(
        ChaCha20Poly1305::decrypt_to_buffer(&short_key, &nonce, &[0u8; 20], &mut output, None),
        Err(Error::Symmetric(SymmetricError::InvalidKeySize))
    );
    assert_eq!(
        ChaCha20Poly1305::decrypt_to_buffer(&key, &[0u8; 24], &[0u8; 20], &mut output, None),
        Err(Error::Symmetric(SymmetricError::InvalidNonceSize))
    );
    assert_eq!(output, vec![0xaau8; 64]);
}

#[test]
fn output_too_small_and_short_ciphertext() {
    let key = ChaCha20Poly1305::generate_key().unwrap();
    let nonce = [0u8; 12];
    let mut small = vec![5u8; 20];
    assert_eq!(
        ChaCha20Poly1305::encrypt_to_buffer(&key, &nonce, b"hello", &mut small, None),
        Err(Error::Symmetric(SymmetricError::OutputTooSmall))
    );
    assert_eq!(small, vec![5u8; 20]);
    assert_eq!(
        ChaCha20Poly1305::decrypt(&key, &nonce, &[0u8; 15], None),
        Err(Error::Symmetric(SymmetricError::InvalidCiphertext))
    );
    let ciphertext = ChaCha20Poly1305::encrypt(&key, &nonce, b"hello", None).unwrap();
    let mut tiny = vec![9u8; 4];
    assert_eq!(
        ChaCha20Poly1305::decrypt_to_buffer(&key, &nonce, &ciphertext, &mut tiny, None),
        Err(Error::Symmetric(SymmetricError::OutputTooSmall))
    );
    assert_eq!(tiny, vec![9u8; 4]);
}

#[test]
fn larger_output_buffer_keeps_its_tail() {
    let key = ChaCha20Poly1305::generate_key().unwrap();
    let nonce = [3u8; 12];
    let mut output = vec![0xeeu8; 40];
    let n = ChaCha20Poly1305::encrypt_to_buffer(&key, &nonce, b"hello", &mut output, None).unwrap();
    assert_eq!(n, 21);
    assert_eq!(&output[21..], &[0xeeu8; 19][..]);
    let mut plain = vec![0x11u8; 10];
    let m = ChaCha20Poly1305::decrypt_to_buffer(&key, &nonce, &output[..n], &mut plain, None).unwrap();
    assert_eq!(m, 5);
    assert_eq!(&plain[..5], b"hello");
    assert_eq!(&plain[5..], &[0x11u8; 5][..]);
}

#[test]
fn failed_decryption_leaves_output_untouched() {
    let key = ChaCha20Poly1305::generate_key().unwrap();
    let nonce = [3u8; 12];
    let mut ciphertext = ChaCha20Poly1305::encrypt(&key, &nonce, b"hello", None).unwrap();
    ciphertext[7] ^= 0x80;
    let mut plain = vec![0x22u8; 5];
    assert_eq!(
        ChaCha20Poly1305::decrypt_to_buffer(&key, &nonce, &ciphertext, &mut plain, None),
        Err(Error::Symmetric(SymmetricError::Decryption))
    );
    assert_eq!(plain, vec![0x22u8; 5]);
}

#[test]
fn generated_keys_have_key_size_and_differ() {
    let a = ChaCha20Poly1305::generate_key().unwrap();
    let b = XChaCha20Poly1305::generate_key().unwrap();
    assert_eq!(a.len(), 32);
    assert_eq!(b.len(), 32);
    assert_ne!(a.to_vec(), b.to_vec());
}

#[test]
fn scheme_identity() {
    assert_eq!(ChaCha20Poly1305::name(), "ChaCha20-Poly1305");
    assert_eq!(XChaCha20Poly1305::name(), "XChaCha20-Poly1305");
    assert_eq!(ChaCha20Poly1305::ID, 0x02_02_01_01);
    assert_eq!(XChaCha20Poly1305::ID, 0x02_02_02_01);
    assert_eq!(ChaCha20Poly1305Params::NONCE_SIZE, 12);
    assert_eq!(XChaCha20Poly1305Params::NONCE_SIZE, 24);
}

#[test]
fn chacha20_poly1305_known_answer_tag() {
    let key: Vec<u8> = (0x80u8..=0x9f).collect();
    let key = SymmetricKey::new(key);
    let nonce = [0x07, 0x00, 0x00, 0x00, 0x40, 0x41, 0x42, 0x43, 0x44, 0x45, 0x46, 0x47];
    let aad = [0x50, 0x51, 0x52, 0x53, 0xc0, 0xc1, 0xc2, 0xc3, 0xc4, 0xc5, 0xc6, 0xc7];
    let plaintext = b"Ladies and Gentlemen of the class of '99: If I could offer you only one tip for the future, sunscreen would be it.";
    let ciphertext = ChaCha20Poly1305::encrypt(&key, &nonce, plaintext, Some(&aad)).unwrap();
    assert_eq!(ciphertext.len(), plaintext.len() + 16);
    assert_eq!(&ciphertext[..4], &[0xd3, 0x1a, 0x8d, 0x34]);
    assert_eq!(
        &ciphertext[plaintext.len()..],
        &[0x1a, 0xe1, 0x0b, 0x59, 0x4f, 0x09, 0xe2, 0x6a, 0x7e, 0x90, 0x2e, 0xcb, 0xd0, 0x60, 0x06, 0x91]
    );
}

#[test]
fn xchacha20_poly1305_known_answer_tag() {
    let key: Vec<u8> = (0x80u8..=0x9f).collect();
    let key = SymmetricKey::new(key);
    let nonce: Vec<u8> = (0x40u8..=0x57).collect();
    let aad = [0x50, 0x51, 0x52, 0x53, 0xc0, 0xc1, 0xc2, 0xc3, 0xc4, 0xc5, 0xc6, 0xc7];
    let plaintext = b"Ladies and Gentlemen of the class of '99: If I could offer you only one tip for the future, sunscreen would be it.";
    let ciphertext = XChaCha20Poly1305::encrypt(&key, &nonce, plaintext, Some(&aad)).unwrap();
    assert_eq!(ciphertext.len(), plaintext.len() + 16);
    assert_ne!(&ciphertext[..plaintext.len()], &plaintext[..]);
    assert_eq!(&ciphertext[..4], &[0xbd, 0x6d, 0x17, 0x9d]);
    assert_eq!(
        &ciphertext[plaintext.len()..],
        &[0xc0, 0x87, 0x59, 0x24, 0xc1, 0xc7, 0x98, 0x79, 0x47, 0xde, 0xaf, 0xd8, 0x78, 0x0a, 0xcf, 0x49]
    );
}
