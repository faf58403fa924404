//! Signing and signature verification using PSS.

use vstd::prelude::*;

use super::backend::private_modulus_bits;
use super::backend::pss_sign;
use super::backend::pss_verify;
use super::backend::public_modulus_bits;
use super::hash_functions::HashFunction;
use super::CryptoError;

verus! {

/// Signing using PSS.
pub struct Signing {
    pub private_key: rsa::RsaPrivateKey,
    /// The hash function that parameterises the PSS signature.
    pub hash: HashFunction,
}

impl Signing {
    /// Creates a new [`Signing`].
    ///
    /// Fails with `HashFunctionOutputTooLarge` when the PSS overhead
    /// of the chosen hash fills or exceeds one RSA block.
    pub fn try_new(hash_function: &HashFunction, private_key: rsa::RsaPrivateKey) -> (r: Result<
        Signing,
        CryptoError,
    >)
        ensures
            r matches Ok(s) ==> s.hash == *hash_function,
            r matches Err(e) ==> e is HashFunctionOutputTooLarge,
    {
        let overhead = hash_function.output_size() * 2 + 2;
        if private_modulus_bits(&private_key) / 8 <= overhead {
            return Err(CryptoError::HashFunctionOutputTooLarge);
        }
        Ok(Signing { private_key, hash: *hash_function })
    }

    /// Returns the hash function this instance was built with.
    pub fn hash_type(&self) -> (r: HashFunction)
        ensures
            r == self.hash,
    {
        self.hash
    }

    /// Signs the message with a fresh PSS signature.  Each call draws
    /// new randomness, so two signatures of one message differ; the
    /// signer decides, and a failure surfaces as a `Signature` error.
    pub fn sign(&self, msg: &[u8]) -> (r: Result<Vec<u8>, CryptoError>)
        ensures
            r matches Err(e) ==> e matches CryptoError::Signature(_),
    {
        match pss_sign(&self.private_key, &self.hash, msg) {
            Ok(signature) => Ok(signature),
            Err(e) => Err(CryptoError::Signature(e)),
        }
    }
}

/// Signature verification using PSS.
pub struct Verifying {
    pub public_key: rsa::RsaPublicKey,
    /// The hash function that parameterises the PSS signature.
    pub hash: HashFunction,
}

impl Verifying {
    /// Creates a new [`Verifying`].
    ///
    /// Fails with `HashFunctionOutputTooLarge` when the PSS overhead
    /// of the chosen hash fills or exceeds one RSA block.
    pub fn try_new(hash_function: &HashFunction, public_key: rsa::RsaPublicKey) -> (r: Result<
        Verifying,
        CryptoError,
    >)
        ensures
            r matches Ok(v) ==> v.hash == *hash_function,
            r matches Err(e) ==> e is HashFunctionOutputTooLarge,
    {
        let overhead = hash_function.output_size() * 2 + 2;
        if public_modulus_bits(&public_key) / 8 <= overhead {
            return Err(CryptoError::HashFunctionOutputTooLarge);
        }
        Ok(Verifying { public_key, hash: *hash_function })
    }

    /// Returns the hash function this instance was built with.
    pub fn hash_type(&self) -> (r: HashFunction)
        ensures
            r == self.hash,
    {
        self.hash
    }

    /// Verifies a PSS signature over the message; the verifier decides,
    /// and a rejection surfaces as a `Signature` error.
    pub fn verify(&self, msg: &[u8], signature: &[u8]) -> (r: Result<(), CryptoError>)
        ensures
            r matches Err(e) ==> e matches CryptoError::Signature(_),
    {
        match pss_verify(&self.public_key, &self.hash, msg, signature) {
            Ok(r) => Ok(r),
            Err(e) => Err(CryptoError::Signature(e)),
        }
    }
}

} // verus!
