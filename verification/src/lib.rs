//! A lightweight transport-security protocol ("pTLS") that layers
//! confidentiality, peer authentication and message integrity over a
//! reliable byte stream.  Every post-handshake payload is protected
//! directly with RSA-OAEP, and RSA-PSS signatures authenticate the peer
//! and bind a freshness nonce.
//!
//! The crate is organised as a sans-I/O core: record framing, the
//! block-chunked RSA codec, the sub-protocol message codec and the tunnel
//! state machine are all plain functions over bytes and values, so a
//! caller drives them with whatever carrier it likes.

use vstd::prelude::*;

/// Byte-level encoding helpers shared by the framer and the message codec.
pub mod wire;

/// Record-level constants and the record data types.
pub mod payload;

/// The record framer: encoding and parsing of length-prefixed records.
pub mod io_wrapper;

/// Encryption/decryption and signing/signature verifying items.
pub mod crypto;

/// Sub-protocol messages and error types.
pub mod sub_protocol;

/// pTLS tunnel state machine.
pub mod tunnel;

pub use payload::MAX_PAYLOAD_LENGTH;

verus! {

/// pTLS protocol version.
pub const PTLS_VERSION: u16 = 0;

} // verus!
