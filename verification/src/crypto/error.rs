//! Crypto error types.

use vstd::prelude::*;

verus! {

/// Crypto error types.
#[derive(Debug)]
pub enum CryptoError {
    /// The padding overhead of the chosen hash function does not leave
    /// room for any plaintext inside one RSA block.
    HashFunctionOutputTooLarge,
    /// An RSA operation failed.
    Rsa(rsa::Error),
    /// A signature operation failed.
    Signature(rsa::signature::Error),
    /// An unknown hash function id was provided.
    InvalidHashFunction,
    /// A ciphertext or an RSA block did not have the expected size.
    InvalidBlockSize,
}

#[verifier::external_type_specification]
#[verifier::external_body]
pub struct ExRsaError(rsa::Error);

#[verifier::external_type_specification]
#[verifier::external_body]
pub struct ExSignatureError(rsa::signature::Error);

} // verus!
