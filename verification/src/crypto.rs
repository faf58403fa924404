//! Encryption/decryption and signing/signature verifying items.
//!
//! Four primitives cover the pTLS crypto operations, each carrying an
//! RSA key, a chosen hash function and the block sizes derived from
//! them: [`Encrypt`]/[`Decrypt`] chunk a payload through RSA-OAEP, and
//! [`Signing`]/[`Verifying`] produce and check RSA-PSS signatures.

pub(crate) mod backend;
mod error;

/// pTLS hash functions.
pub mod hash_functions;

/// Encryption and decryption using OAEP padding.
pub mod encryption;

/// Signing and signature verification using PSS.
pub mod signature;

pub use error::CryptoError;
