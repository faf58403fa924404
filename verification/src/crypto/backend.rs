//! The trusted boundary to the RSA implementation: every call into the
//! `rsa` and `rand` crates that the verified crypto primitives make
//! goes through one of the wrappers below.  Verus believes each
//! wrapper's contract and never looks at its body.

use vstd::prelude::*;

use rand::rngs::OsRng;
use rsa::pss::BlindedSigningKey;
use rsa::pss::VerifyingKey;
use rsa::sha2::Sha224;
use rsa::sha2::Sha256;
use rsa::sha2::Sha384;
use rsa::sha2::Sha512;
use rsa::signature::RandomizedSigner;
use rsa::signature::SignatureEncoding;
use rsa::signature::Verifier;
use rsa::pkcs8::DecodePublicKey;
use rsa::pkcs8::EncodePublicKey;
use rsa::traits::PublicKeyParts;

use super::hash_functions::HashFunction;

verus! {

#[verifier::external_type_specification]
#[verifier::external_body]
pub struct ExRsaPublicKey(rsa::RsaPublicKey);

#[verifier::external_type_specification]
#[verifier::external_body]
pub struct ExRsaPrivateKey(rsa::RsaPrivateKey);

#[verifier::external_type_specification]
#[verifier::external_body]
pub struct ExSpkiError(rsa::pkcs8::spki::Error);

/// Relies on rsa's `PublicKeyParts::n` and `BigUint::bits`: the bit
/// length of the public key modulus.
#[verifier::external_body]
pub(crate) fn public_modulus_bits(key: &rsa::RsaPublicKey) -> usize {
    key.n().bits()
}

/// Relies on rsa's `PublicKeyParts::n` and `BigUint::bits`: the bit
/// length of the private key modulus.
#[verifier::external_body]
pub(crate) fn private_modulus_bits(key: &rsa::RsaPrivateKey) -> usize {
    key.n().bits()
}

/// Relies on rsa's `Clone` impl for `RsaPublicKey`.
#[verifier::external_body]
pub(crate) fn clone_public_key(key: &rsa::RsaPublicKey) -> rsa::RsaPublicKey {
    key.clone()
}

/// Relies on rsa's `From<&RsaPrivateKey>` impl: the public half of a
/// private key.
#[verifier::external_body]
pub(crate) fn public_key_of(key: &rsa::RsaPrivateKey) -> rsa::RsaPublicKey {
    rsa::RsaPublicKey::from(key)
}

/// Relies on rsa's `RsaPublicKey::encrypt` with OAEP padding over the
/// chosen hash, drawing fresh randomness from the OS RNG.
#[verifier::external_body]
pub(crate) fn oaep_encrypt_block(
    key: &rsa::RsaPublicKey,
    hash: &HashFunction,
    block: &[u8],
) -> Result<Vec<u8>, rsa::Error> {
    let padding = match hash {
        HashFunction::Sha224 => rsa::Oaep::new::<Sha224>(),
        HashFunction::Sha256 => rsa::Oaep::new::<Sha256>(),
        HashFunction::Sha384 => rsa::Oaep::new::<Sha384>(),
        HashFunction::Sha512 => rsa::Oaep::new::<Sha512>(),
    };
    key.encrypt(&mut OsRng, padding, block)
}

/// Relies on rsa's `RsaPrivateKey::decrypt` with OAEP padding over the
/// chosen hash.
#[verifier::external_body]
pub(crate) fn oaep_decrypt_block(
    key: &rsa::RsaPrivateKey,
    hash: &HashFunction,
    block: &[u8],
) -> Result<Vec<u8>, rsa::Error> {
    let padding = match hash {
        HashFunction::Sha224 => rsa::Oaep::new::<Sha224>(),
        HashFunction::Sha256 => rsa::Oaep::new::<Sha256>(),
        HashFunction::Sha384 => rsa::Oaep::new::<Sha384>(),
        HashFunction::Sha512 => rsa::Oaep::new::<Sha512>(),
    };
    key.decrypt(padding, block)
}

/// Relies on rsa's `BlindedSigningKey` and signature's
/// `RandomizedSigner::try_sign_with_rng`: an RSA-PSS signature over the
/// chosen hash, drawing randomness from the OS RNG.  Signing fails when
/// one RSA block cannot hold the hash output and the salt.
#[verifier::external_body]
pub(crate) fn pss_sign(key: &rsa::RsaPrivateKey, hash: &HashFunction, msg: &[u8]) -> Result<
    Vec<u8>,
    rsa::signature::Error,
> {
    let signature = match hash {
        HashFunction::Sha224 => BlindedSigningKey::<Sha224>::new(key.clone()).try_sign_with_rng(&mut OsRng, msg),
        HashFunction::Sha256 => BlindedSigningKey::<Sha256>::new(key.clone()).try_sign_with_rng(&mut OsRng, msg),
        HashFunction::Sha384 => BlindedSigningKey::<Sha384>::new(key.clone()).try_sign_with_rng(&mut OsRng, msg),
        HashFunction::Sha512 => BlindedSigningKey::<Sha512>::new(key.clone()).try_sign_with_rng(&mut OsRng, msg),
    };
    Ok(signature?.to_vec())
}

/// Relies on rsa's `VerifyingKey::verify` (RSA-PSS over the chosen
/// hash) and `pss::Signature::try_from`.
#[verifier::external_body]
pub(crate) fn pss_verify(
    key: &rsa::RsaPublicKey,
    hash: &HashFunction,
    msg: &[u8],
    signature: &[u8],
) -> Result<(), rsa::signature::Error> {
    let sig = rsa::pss::Signature::try_from(signature)?;
    match hash {
        HashFunction::Sha224 => VerifyingKey::<Sha224>::new(key.clone()).verify(msg, &sig),
        HashFunction::Sha256 => VerifyingKey::<Sha256>::new(key.clone()).verify(msg, &sig),
        HashFunction::Sha384 => VerifyingKey::<Sha384>::new(key.clone()).verify(msg, &sig),
        HashFunction::Sha512 => VerifyingKey::<Sha512>::new(key.clone()).verify(msg, &sig),
    }
}

/// Relies on spki's `EncodePublicKey::to_public_key_der` and der's
/// `Document::into_vec`: the DER encoding of a public key.
#[verifier::external_body]
pub(crate) fn public_key_to_der(key: &rsa::RsaPublicKey) -> Result<
    Vec<u8>,
    rsa::pkcs8::spki::Error,
> {
    Ok(key.to_public_key_der()?.into_vec())
}

/// Relies on spki's `DecodePublicKey::from_public_key_der`: parses a
/// DER-encoded public key.
#[verifier::external_body]
pub(crate) fn public_key_from_der(der: &[u8]) -> Result<
    rsa::RsaPublicKey,
    rsa::pkcs8::spki::Error,
> {
    rsa::RsaPublicKey::from_public_key_der(der)
}

/// Relies on rand's `random`: eight bytes drawn from the thread RNG.
#[verifier::external_body]
pub(crate) fn fresh_random() -> (r: Vec<u8>)
    ensures
        r@.len() == 8,
{
    rand::random::<[u8; 8]>().to_vec()
}

} // verus!
