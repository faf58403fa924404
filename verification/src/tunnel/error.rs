//! pTLS tunnel error types.

use vstd::prelude::*;

use crate::crypto::CryptoError;
use crate::io_wrapper::IoWrapperError;
use crate::sub_protocol::handshake::HandshakeError;
use crate::sub_protocol::ContentType;

verus! {

/// pTLS tunnel error types.
#[derive(Debug)]
pub enum TunnelError {
    /// A handshake-level failure; always fatal.
    Handshake(HandshakeError),
    /// A failure inside a crypto primitive.
    Crypto(CryptoError),
    /// A record-framing failure.
    IoWrapper(IoWrapperError),
    /// A structured message could not be decoded.
    InvalidPayload,
    /// A failure that a correct peer never provokes.
    UnexceptedError,
    /// The provided public key could not be decoded.
    InvalidPublicKey,
    /// No peer public key has been installed yet.
    NoPublicKey,
    /// The tunnel has not completed its handshake yet.
    NotReady,
    /// The connection was lost after a fatal error.
    SocketDied,
    /// The handshake timed out.
    Timeout,
    /// Received a pTLS message that is not valid right now.
    InappropriateMessage {
        expected_types: Vec<ContentType>,
        got: ContentType,
    },
}

} // verus!
