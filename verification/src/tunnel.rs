//! pTLS tunnel state machine.
//!
//! The tunnel is sans-I/O: it owns the local crypto primitives, the
//! peer's primitives once they are negotiated, and the connection
//! state, and it exposes the pTLS protocol as plain functions from
//! received record contents to state transitions and record contents
//! to send.  A caller (for instance an async wrapper around a TCP
//! stream) reads and writes framed records with the
//! [`crate::io_wrapper`] functions and drives this state machine with
//! their payloads.
//!
//! State lifecycle:
//! ```text
//!   Handshake ──success──▶ Application ──close──▶ GracefullyDisconnected
//!       │                       │
//!       └──fatal──────┐         └──fatal──▶ Terminated
//!                     ▼
//!                Terminated
//! ```

use vstd::prelude::*;

mod error;
mod handshake;
mod receive;
mod send;

pub use error::TunnelError;
pub use handshake::ServerAction;
pub use receive::Received;

use vstd::slice::slice_to_vec;

use crate::crypto::backend::clone_public_key;
use crate::crypto::encryption::spec_block_count;
use crate::crypto::encryption::Decrypt;
use crate::crypto::encryption::Encrypt;
use crate::crypto::hash_functions::HashFunction;
use crate::crypto::signature::Signing;
use crate::crypto::signature::Verifying;
use crate::crypto::CryptoError;

verus! {

/// State of the pTLS tunnel.
#[derive(Debug, Clone, Copy, PartialEq, Eq, Structural)]
pub enum TunnelState {
    /// A tunnel that has not yet completed the pTLS handshake.
    Handshake,
    /// The tunnel has successfully established a secure pTLS
    /// connection.
    Application,
    /// The connection has been terminated, typically due to a fatal
    /// alert, network corruption, or a network attack.
    Terminated,
    /// Indicates that the connection was closed gracefully.
    GracefullyDisconnected,
}

/// Wraps the public key that is signed by a trusted authority.
pub struct SignedPublicKey {
    pub public_key: rsa::RsaPublicKey,
    pub expires_at: i64,
    pub trusted_authority_id: u64,
    pub signature: Vec<u8>,
}

/// An encrypted tunnel that implements pTLS methods and manages
/// connection states.
pub struct Tunnel {
    /// The server's own signed public key, presented in `ServerHello`.
    pub signed_public: Option<SignedPublicKey>,
    /// Decrypts inbound payloads with the local private key.
    pub local_decrypt: Decrypt,
    /// Signs nonces with the local private key.
    pub local_signing: Signing,
    /// Encrypts outbound payloads with the peer's public key, once
    /// known.
    pub peer_encrypt: Option<Encrypt>,
    /// Verifies the peer's nonce signatures, once its key is known.
    pub peer_verifying: Option<Verifying>,
    /// The connection state.
    pub state: TunnelState,
    /// Server side: a valid `ClientHello` has been answered and only
    /// `Finished` completes the handshake.
    pub awaiting_finished: bool,
    /// The peer's freshness nonce, once its signature has been
    /// verified.
    pub peer_random: Option<Vec<u8>>,
}

impl Tunnel {
    /// The tunnel's internal consistency: crypto primitives are well
    /// formed, and the peer primitives are installed in every state
    /// that uses them.
    pub open spec fn wf(self) -> bool {
        &&& self.local_decrypt.wf()
        &&& self.peer_encrypt matches Some(e) ==> e.wf()
        &&& self.state is Application ==> self.peer_encrypt is Some && self.peer_verifying
            is Some
        &&& self.awaiting_finished ==> self.peer_encrypt is Some && self.peer_verifying is Some
    }

    /// Creates a new pTLS tunnel in the `Handshake` state, with no
    /// peer key installed.
    pub fn new(local_decrypt: Decrypt, local_signing: Signing) -> (r: Tunnel)
        requires
            local_decrypt.wf(),
        ensures
            r.wf(),
            r.state is Handshake,
            r.signed_public is None,
            r.peer_encrypt is None,
            r.peer_verifying is None,
            r.peer_random is None,
            !r.awaiting_finished,
            r.local_decrypt == local_decrypt,
            r.local_signing == local_signing,
    {
        Tunnel {
            signed_public: None,
            local_decrypt,
            local_signing,
            peer_encrypt: None,
            peer_verifying: None,
            state: TunnelState::Handshake,
            awaiting_finished: false,
            peer_random: None,
        }
    }

    /// Creates the peer's [`Encrypt`] and [`Verifying`] primitives
    /// from the provided public key: encryption binds the padding
    /// hash, verification the signature hash.
    pub fn set_peer_public_key(
        &mut self,
        public_key: rsa::RsaPublicKey,
        padding_hf: &HashFunction,
        signature_hf: &HashFunction,
    ) -> (r: Result<(), TunnelError>)
        requires
            old(self).wf(),
        ensures
            final(self).wf(),
            final(self).state == old(self).state,
            final(self).local_decrypt == old(self).local_decrypt,
            final(self).local_signing == old(self).local_signing,
            final(self).signed_public == old(self).signed_public,
            final(self).awaiting_finished == old(self).awaiting_finished,
            final(self).peer_random == old(self).peer_random,
            r is Ok ==> {
                &&& final(self).peer_encrypt matches Some(e) && e.hash == *padding_hf
                &&& final(self).peer_verifying matches Some(v) && v.hash == *signature_hf
            },
            r matches Err(e) ==> {
                &&& e matches TunnelError::Crypto(CryptoError::HashFunctionOutputTooLarge)
                &&& final(self).peer_encrypt == old(self).peer_encrypt
                &&& final(self).peer_verifying == old(self).peer_verifying
            },
    {
        let peer_encrypt = match Encrypt::try_new(padding_hf, clone_public_key(&public_key)) {
            Ok(e) => e,
            Err(e) => {
                return Err(TunnelError::Crypto(e));
            },
        };
        let peer_verifying = match Verifying::try_new(signature_hf, public_key) {
            Ok(v) => v,
            Err(e) => {
                return Err(TunnelError::Crypto(e));
            },
        };
        self.peer_encrypt = Some(peer_encrypt);
        self.peer_verifying = Some(peer_verifying);
        Ok(())
    }

    /// Sets the signed public key that `server_handshake` presents.
    pub fn set_signed_public_key(&mut self, signed_public_key: SignedPublicKey)
        requires
            old(self).wf(),
        ensures
            final(self).wf(),
            final(self).signed_public is Some,
            *final(self) == (Tunnel { signed_public: final(self).signed_public, ..*old(self) }),
    {
        self.signed_public = Some(signed_public_key);
    }

    /// Marks the tunnel as terminated, after a fatal failure that the
    /// caller detected outside the state machine (an I/O error or a
    /// timeout).
    pub fn mark_terminated(&mut self)
        requires
            old(self).wf(),
        ensures
            final(self).wf(),
            final(self).state is Terminated,
            *final(self) == (Tunnel { state: TunnelState::Terminated, ..*old(self) }),
    {
        self.state = TunnelState::Terminated;
    }

    /// Returns the current connection state.
    pub fn state(&self) -> (r: TunnelState)
        ensures
            r == self.state,
    {
        self.state
    }

    /// Encrypts the payload with the peer's public key.
    pub fn encrypt(&self, payload: &[u8]) -> (r: Result<Vec<u8>, TunnelError>)
        requires
            self.wf(),
    ensures
            self.peer_encrypt is None ==> r matches Err(TunnelError::NoPublicKey),
            r matches Err(TunnelError::NoPublicKey) ==> self.peer_encrypt is None,
            r matches Ok(c) ==> (self.peer_encrypt matches Some(e) && c@.len() == spec_block_count(
                payload@.len() as int,
                e.available_block_size as int,
            ) * e.block_size),
            r matches Err(e) ==> e is NoPublicKey || e matches TunnelError::Crypto(_),
    {
        let peer_encrypt = match &self.peer_encrypt {
            Some(e) => e,
            None => {
                return Err(TunnelError::NoPublicKey);
            },
        };
        match peer_encrypt.encrypt(payload) {
            Ok(c) => Ok(c),
            Err(e) => Err(TunnelError::Crypto(e)),
        }
    }

    /// Decrypts the payload with the tunnel's private key.
    pub fn decrypt(&self, payload: &[u8]) -> (r: Result<Vec<u8>, TunnelError>)
        requires
            self.wf(),
        ensures
            payload@.len() as int % self.local_decrypt.block_size as int != 0 ==> r matches Err(
                TunnelError::Crypto(CryptoError::InvalidBlockSize),
            ),
            payload@.len() == 0 ==> (r matches Ok(p) && p@.len() == 0),
            r matches Ok(p) ==> p@.len() <= (payload@.len() as int
                / self.local_decrypt.block_size as int) * self.local_decrypt.available_block_size,
            r matches Err(e) ==> (e is Crypto && (e->Crypto_0 is Rsa || e->Crypto_0
                is InvalidBlockSize)),
    {
        let mut buffer = slice_to_vec(payload);
        match self.local_decrypt.decrypt_owned(&mut buffer) {
            Ok(()) => Ok(buffer),
            Err(e) => Err(TunnelError::Crypto(e)),
        }
    }

    /// Signs the payload with the tunnel's private key and the local
    /// signature hash; a failure of the signer surfaces as a
    /// `Signature` error.
    pub fn sign(&self, payload: &[u8]) -> (r: Result<Vec<u8>, TunnelError>)
        ensures
            r matches Err(e) ==> e matches TunnelError::Crypto(CryptoError::Signature(_)),
    {
        match self.local_signing.sign(payload) {
            Ok(signature) => Ok(signature),
            Err(e) => Err(TunnelError::Crypto(e)),
        }
    }

    /// Verifies a signature of the peer with its installed public key;
    /// fails with `NoPublicKey` until a peer key is known.
    pub fn verify(&self, payload: &[u8], signature: &[u8]) -> (r: Result<(), TunnelError>)
        requires
            self.wf(),
        ensures
            self.peer_verifying is None <==> r matches Err(TunnelError::NoPublicKey),
            r matches Err(e) ==> e is NoPublicKey || e matches TunnelError::Crypto(
                CryptoError::Signature(_),
            ),
    {
        let peer_verifying = match &self.peer_verifying {
            Some(v) => v,
            None => {
                return Err(TunnelError::NoPublicKey);
            },
        };
        match peer_verifying.verify(payload, signature) {
            Ok(()) => Ok(()),
            Err(e) => Err(TunnelError::Crypto(e)),
        }
    }
}

} // verus!
