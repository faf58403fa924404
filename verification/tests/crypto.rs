use ptls::crypto::encryption::{Decrypt, Encrypt};
use ptls::crypto::hash_functions::HashFunction;
use ptls::crypto::signature::{Signing, Verifying};
use ptls::crypto::CryptoError;
use rsa::{RsaPrivateKey, RsaPublicKey};

fn random_private_key(bits: usize) -> RsaPrivateKey {
    RsaPrivateKey::new(&mut rand::thread_rng(), bits).unwrap()
}

#[test]
fn encrypt_decrypt() {
    let private_key = random_private_key(1024);
    let public_key = RsaPublicKey::from(&private_key);

    let encrypt = Encrypt::try_new(&HashFunction::Sha256, public_key).unwrap();
    let decrypt = Decrypt::try_new(&HashFunction::Sha256, private_key).unwrap();

    let payload = [0, 1, 2, 3, 4, 5, 6, 7].repeat(64);

    let mut new_payload = encrypt.encrypt(&payload).unwrap();
    decrypt.decrypt_owned(&mut new_payload).unwrap();

    assert_eq!(payload, new_payload)
}

#[test]
#[should_panic]
fn excessive_padding_decrpytor() {
    Decrypt::try_new(&HashFunction::Sha256, random_private_key(512)).unwrap();
}

#[test]
#[should_panic]
fn excessive_padding_encrypt() {
    Encrypt::try_new(&HashFunction::Sha256, RsaPublicKey::from(random_private_key(512))).unwrap();
}

#[test]
fn sign_verify() {
    let private_key = random_private_key(1024);
    let public_key = RsaPublicKey::from(&private_key);

    let signing = Signing::try_new(&HashFunction::Sha256, private_key).unwrap();
    let verifying = Verifying::try_new(&HashFunction::Sha256, public_key).unwrap();

    let payload = [0, 1, 2, 3, 4, 5, 6, 7].repeat(64);
    let signature = signing.sign(&payload).unwrap();

    verifying.verify(&payload, &signature).unwrap();
}

#[test]
#[should_panic]
fn excessive_hash_function() {
    Signing::try_new(&HashFunction::Sha512, random_private_key(512)).unwrap();
}

#[test]
fn sign_verify_mismatch() {
    let private_key = random_private_key(1024);
    let public_key = RsaPublicKey::from(&private_key);

    let signing = Signing::try_new(&HashFunction::Sha256, private_key).unwrap();
    let verifying = Verifying::try_new(&HashFunction::Sha256, public_key).unwrap();

    let signature = signing.sign(b"genuine message").unwrap();
    let result = verifying.verify(b"another message", &signature);
    assert!(matches!(result, Err(CryptoError::Signature(_))));
}

#[test]
fn oaep_chunked_round_trip() {
    // A 1024-bit key with SHA-256: 128-byte blocks of which 62 carry
    // payload, so 512 bytes make ceil(512 / 62) = 9 blocks.
    let private_key = random_private_key(1024);
    let public_key = RsaPublicKey::from(&private_key);

    let encrypt = Encrypt::try_new(&HashFunction::Sha256, public_key).unwrap();
    let decrypt = Decrypt::try_new(&HashFunction::Sha256, private_key).unwrap();

    let payload = vec![0xAA; 512];
    let mut buffer = encrypt.encrypt(&payload).unwrap();
    assert_eq!(buffer.len(), 9 * 128);

    decrypt.decrypt_owned(&mut buffer).unwrap();
    assert_eq!(buffer, payload);
}

#[test]
fn padding_feasibility() {
    let small = random_private_key(512);
    let large = random_private_key(1024);

    assert!(matches!(
        Encrypt::try_new(&HashFunction::Sha256, RsaPublicKey::from(&small)),
        Err(CryptoError::HashFunctionOutputTooLarge)
    ));
    assert!(matches!(
        Verifying::try_new(&HashFunction::Sha256, RsaPublicKey::from(&small)),
        Err(CryptoError::HashFunctionOutputTooLarge)
    ));
    assert!(Encrypt::try_new(&HashFunction::Sha256, RsaPublicKey::from(&large)).is_ok());
    assert!(Decrypt::try_new(&HashFunction::Sha256, large.clone()).is_ok());
    assert!(Signing::try_new(&HashFunction::Sha256, large.clone()).is_ok());
    assert!(Verifying::try_new(&HashFunction::Sha256, RsaPublicKey::from(&large)).is_ok());
}

#[test]
fn decrypt_rejects_misaligned_ciphertext() {
    let decrypt = Decrypt::try_new(&HashFunction::Sha256, random_private_key(1024)).unwrap();
    let mut buffer = vec![1, 2, 3];
    assert!(matches!(
        decrypt.decrypt_owned(&mut buffer),
        Err(CryptoError::InvalidBlockSize)
    ));
    // A rejected buffer stays as it was.
    assert_eq!(buffer, vec![1, 2, 3]);
}

#[test]
fn decrypt_rejects_garbage_block() {
    let decrypt = Decrypt::try_new(&HashFunction::Sha256, random_private_key(1024)).unwrap();
    let mut buffer = vec![0x5C; 128];
    assert!(matches!(
        decrypt.decrypt_owned(&mut buffer),
        Err(CryptoError::Rsa(_))
    ));
}

#[test]
fn hash_function_ids() {
    assert_eq!(HashFunction::Sha224.id(), 0);
    assert_eq!(HashFunction::Sha256.id(), 1);
    assert_eq!(HashFunction::Sha384.id(), 2);
    assert_eq!(HashFunction::Sha512.id(), 3);

    for id in 0..4u8 {
        assert_eq!(HashFunction::try_from(id).unwrap().id(), id);
    }
    assert!(matches!(
        HashFunction::try_from(9),
        Err(CryptoError::InvalidHashFunction)
    ));
}

#[test]
fn hash_function_output_sizes() {
    assert_eq!(HashFunction::Sha224.output_size(), 28);
    assert_eq!(HashFunction::Sha256.output_size(), 32);
    assert_eq!(HashFunction::Sha384.output_size(), 48);
    assert_eq!(HashFunction::Sha512.output_size(), 64);
}

#[test]
fn fresh_signatures_differ() {
    // PSS draws fresh randomness for every signature.
    let signing = Signing::try_new(&HashFunction::Sha256, random_private_key(1024)).unwrap();
    let first = signing.sign(b"payload").unwrap();
    let second = signing.sign(b"payload").unwrap();
    assert_ne!(first, second);
}
