//! The handshake halves of the tunnel state machine.
//!
//! A handshake record's first payload byte is the inner handshake
//! content type, in plaintext; the encoded message that follows it is
//! encrypted for every message but `ClientHello`.  The functions here
//! turn received handshake payloads into state transitions and reply
//! payloads; a caller performs the actual reads and writes.

use vstd::prelude::*;

use vstd::slice::slice_subrange;

use crate::crypto::backend::clone_public_key;
use crate::crypto::backend::fresh_random;
use crate::crypto::backend::public_key_from_der;
use crate::crypto::backend::public_key_of;
use crate::crypto::backend::public_key_to_der;
use crate::crypto::encryption::Encrypt;
use crate::crypto::hash_functions::HashFunction;
use crate::crypto::signature::Verifying;
use crate::io_wrapper::IoWrapperError;
use crate::sub_protocol::handshake::spec_parse_client_hello;
use crate::sub_protocol::handshake::ClientHello;
use crate::sub_protocol::handshake::EncryptedClientHello;
use crate::sub_protocol::handshake::Finished;
use crate::sub_protocol::handshake::HandshakeContentType;
use crate::sub_protocol::handshake::HandshakeError;
use crate::sub_protocol::handshake::ServerHello;
use crate::sub_protocol::handshake::lemma_client_hello_round_trip;
use crate::sub_protocol::ContentType;
use crate::tunnel::TunnelError;
use crate::tunnel::Tunnel;
use crate::tunnel::TunnelState;

verus! {

/// What a server must do after one handshake record: answer with a
/// handshake record of its own and keep listening, or consider the
/// handshake complete.
pub enum ServerAction {
    /// Send this handshake record payload to the client, then wait
    /// for its next record.
    Reply(Vec<u8>),
    /// The handshake is complete; the tunnel is in the `Application`
    /// state.
    Complete,
}

impl Tunnel {
    /// Builds the unencrypted `ClientHello` record payload that opens
    /// a full handshake: the local public key and the local hash ids.
    pub fn client_hello_record(&self) -> (r: Result<Vec<u8>, TunnelError>)
        requires
            self.wf(),
        ensures
            r matches Ok(p) ==> {
                &&& p@.len() >= 1 && p@[0] == HandshakeContentType::ClientHello.spec_id()
                &&& spec_parse_client_hello(p@.skip(1)) matches Some(ch)
                    && ch.signature_hf == self.local_signing.hash.spec_id()
                    && ch.padding_hf == self.local_decrypt.hash.spec_id()
            },
            r matches Err(e) ==> e is UnexceptedError,
    {
        let public_key = public_key_of(&self.local_decrypt.private_key);
        let der = match public_key_to_der(&public_key) {
            Ok(d) => d,
            Err(_e) => {
                return Err(TunnelError::UnexceptedError);
            },
        };
        let _der_len: usize = der.len();
        let message = ClientHello {
            public_key: der,
            signature_hf: self.local_signing.hash_type().id(),
            padding_hf: self.local_decrypt.hash_type().id(),
        };
        let ghost message_view = message@;
        let body = message.serialize();
        let mut record: Vec<u8> = Vec::new();
        record.push(HandshakeContentType::ClientHello.id());
        let mut body = body;
        record.append(&mut body);
        proof {
            lemma_client_hello_round_trip(message_view, Seq::<u8>::empty());
            assert(record@.skip(1) =~= crate::sub_protocol::handshake::spec_encode_client_hello(
                message_view,
            ) + Seq::<u8>::empty());
        }
        Ok(record)
    }

    /// Completes a full client handshake from the server's reply:
    /// expects an encrypted `ServerHello`, installs the peer
    /// primitives with the advertised hashes, and answers with an
    /// encrypted `Finished` record payload carrying a signed fresh
    /// nonce.  On success the tunnel is in the `Application` state;
    /// every failure in the `Handshake` state is fatal.
    pub fn process_server_hello(&mut self, content_type: ContentType, payload: Vec<u8>) -> (r:
        Result<Vec<u8>, TunnelError>)
        requires
            old(self).wf(),
        ensures
            final(self).wf(),
            old(self).state is Terminated || old(self).state is GracefullyDisconnected ==> (r
                matches Err(TunnelError::SocketDied) && *final(self) == *old(self)),
            old(self).state is Application ==> (r matches Err(TunnelError::UnexceptedError)
                && *final(self) == *old(self)),
            old(self).state is Handshake ==> {
                &&& r matches Ok(p) ==> (final(self).state is Application && final(self).peer_encrypt is Some && final(self).peer_verifying is Some && p@.len() >= 1
                    && p@[0] == HandshakeContentType::Finished.spec_id())
                &&& r is Err ==> final(self).state is Terminated
                &&& r is Err ==> final(self).peer_encrypt == old(self).peer_encrypt && final(self).peer_verifying == old(self).peer_verifying && final(self).peer_random == old(self).peer_random
                &&& !(content_type is Handshake) ==> (r matches Err(
                    TunnelError::Handshake(HandshakeError::InvalidContentType),
                ))
                &&& content_type is Handshake && payload@.len() == 0 ==> (r matches Err(
                    TunnelError::IoWrapper(IoWrapperError::NoPayload),
                ))
                &&& content_type is Handshake && payload@.len() >= 1
                    && HandshakeContentType::spec_try_from(payload@[0]) != Some(
                    HandshakeContentType::ServerHello,
                ) ==> (r matches Err(TunnelError::Handshake(HandshakeError::InvalidContentType)))
            },
    {
        match self.state {
            TunnelState::Terminated | TunnelState::GracefullyDisconnected => {
                return Err(TunnelError::SocketDied);
            },
            TunnelState::Application => {
                return Err(TunnelError::UnexceptedError);
            },
            TunnelState::Handshake => {},
        }
        match content_type {
            ContentType::Handshake => {},
            _ => {
                self.state = TunnelState::Terminated;
                return Err(TunnelError::Handshake(HandshakeError::InvalidContentType));
            },
        }
        if payload.len() == 0 {
            self.state = TunnelState::Terminated;
            return Err(TunnelError::IoWrapper(IoWrapperError::NoPayload));
        }
        let inner_type = match HandshakeContentType::try_from(payload[0]) {
            Ok(t) => t,
            Err(e) => {
                self.state = TunnelState::Terminated;
                return Err(TunnelError::Handshake(e));
            },
        };
        match inner_type {
            HandshakeContentType::ServerHello => {},
            _ => {
                self.state = TunnelState::Terminated;
                return Err(TunnelError::Handshake(HandshakeError::InvalidContentType));
            },
        }
        let body = slice_subrange(payload.as_slice(), 1, payload.len());
        let plain = match self.decrypt(body) {
            Ok(p) => p,
            Err(e) => {
                self.state = TunnelState::Terminated;
                return Err(e);
            },
        };
        let server_hello = match ServerHello::deserialize(plain.as_slice()) {
            Some(m) => m,
            None => {
                self.state = TunnelState::Terminated;
                return Err(TunnelError::InvalidPayload);
            },
        };
        let server_public = match public_key_from_der(server_hello.public_key.as_slice()) {
            Ok(k) => k,
            Err(_e) => {
                self.state = TunnelState::Terminated;
                return Err(TunnelError::Handshake(HandshakeError::InappropriatePublicKey));
            },
        };
        let padding_hf = match HashFunction::try_from(server_hello.padding_hf) {
            Ok(h) => h,
            Err(e) => {
                self.state = TunnelState::Terminated;
                return Err(TunnelError::Crypto(e));
            },
        };
        let signature_hf = match HashFunction::try_from(server_hello.signature_hf) {
            Ok(h) => h,
            Err(e) => {
                self.state = TunnelState::Terminated;
                return Err(TunnelError::Crypto(e));
            },
        };
        let peer_encrypt = match Encrypt::try_new(&padding_hf, clone_public_key(&server_public)) {
            Ok(e) => e,
            Err(e) => {
                self.state = TunnelState::Terminated;
                return Err(TunnelError::Crypto(e));
            },
        };
        let peer_verifying = match Verifying::try_new(&signature_hf, server_public) {
            Ok(v) => v,
            Err(e) => {
                self.state = TunnelState::Terminated;
                return Err(TunnelError::Crypto(e));
            },
        };
        let random = fresh_random();
        let random_signature = match self.local_signing.sign(random.as_slice()) {
            Ok(s) => s,
            Err(e) => {
                self.state = TunnelState::Terminated;
                return Err(TunnelError::Crypto(e));
            },
        };
        let finished = Finished { random, random_signature };
        let finished_body = finished.serialize();
        let ciphertext = match peer_encrypt.encrypt(finished_body.as_slice()) {
            Ok(c) => c,
            Err(e) => {
                self.state = TunnelState::Terminated;
                return Err(TunnelError::Crypto(e));
            },
        };
        let mut record: Vec<u8> = Vec::new();
        record.push(HandshakeContentType::Finished.id());
        let mut ciphertext = ciphertext;
        record.append(&mut ciphertext);
        self.peer_encrypt = Some(peer_encrypt);
        self.peer_verifying = Some(peer_verifying);
        self.state = TunnelState::Application;
        Ok(record)
    }

    /// Builds the single `EncryptedClientHello` record payload of the
    /// abbreviated handshake: the local public key, the local hash
    /// ids and a signed fresh nonce, all encrypted under the peer
    /// public key installed beforehand.  On success the tunnel moves
    /// straight to the `Application` state.
    pub fn encrypted_client_hello_record(&mut self) -> (r: Result<Vec<u8>, TunnelError>)
        requires
            old(self).wf(),
        ensures
            final(self).wf(),
            old(self).state is Terminated || old(self).state is GracefullyDisconnected ==> (r
                matches Err(TunnelError::SocketDied) && *final(self) == *old(self)),
            old(self).state is Application ==> (r matches Err(TunnelError::UnexceptedError)
                && *final(self) == *old(self)),
            old(self).state is Handshake ==> {
                &&& old(self).peer_encrypt is None ==> (r matches Err(TunnelError::NoPublicKey))
                &&& r matches Err(TunnelError::NoPublicKey) ==> (*final(self) == *old(self) && (
                old(self).peer_encrypt is None || old(self).peer_verifying is None))
                &&& r matches Ok(p) ==> (final(self).state is Application && final(self).peer_verifying is Some && p@.len() >= 1 && p@[0]
                    == HandshakeContentType::EncryptedClientHello.spec_id())
                &&& r matches Err(e) ==> (!(e is NoPublicKey) ==> final(self).state
                    is Terminated)
            },
    {
        match self.state {
            TunnelState::Terminated | TunnelState::GracefullyDisconnected => {
                return Err(TunnelError::SocketDied);
            },
            TunnelState::Application => {
                return Err(TunnelError::UnexceptedError);
            },
            TunnelState::Handshake => {},
        }
        if self.peer_encrypt.is_none() || self.peer_verifying.is_none() {
            return Err(TunnelError::NoPublicKey);
        }
        let public_key = public_key_of(&self.local_decrypt.private_key);
        let der = match public_key_to_der(&public_key) {
            Ok(d) => d,
            Err(_e) => {
                self.state = TunnelState::Terminated;
                return Err(TunnelError::UnexceptedError);
            },
        };
        let random = fresh_random();
        let random_signature = match self.local_signing.sign(random.as_slice()) {
            Ok(s) => s,
            Err(e) => {
                self.state = TunnelState::Terminated;
                return Err(TunnelError::Crypto(e));
            },
        };
        let message = EncryptedClientHello {
            public_key: der,
            signature_hf: self.local_signing.hash_type().id(),
            padding_hf: self.local_decrypt.hash_type().id(),
            random,
            random_signature,
        };
        let body = message.serialize();
        let encrypted = {
            let peer_encrypt = match &self.peer_encrypt {
                Some(e) => e,
                None => {
                    return Err(TunnelError::NoPublicKey);
                },
            };
            peer_encrypt.encrypt(body.as_slice())
        };
        let ciphertext = match encrypted {
            Ok(c) => c,
            Err(e) => {
                self.state = TunnelState::Terminated;
                return Err(TunnelError::Crypto(e));
            },
        };
        let mut record: Vec<u8> = Vec::new();
        record.push(HandshakeContentType::EncryptedClientHello.id());
        let mut ciphertext = ciphertext;
        record.append(&mut ciphertext);
        self.state = TunnelState::Application;
        Ok(record)
    }

    /// Advances the server handshake by one received record.
    ///
    /// Before any valid hello only `ClientHello` and
    /// `EncryptedClientHello` are accepted; after an answered
    /// `ClientHello` only `Finished`.  A `ClientHello` installs the
    /// client's key and is answered with an encrypted `ServerHello`;
    /// `EncryptedClientHello` and `Finished` verify the client's
    /// nonce signature and complete the handshake.  `ApplicationData`
    /// during the handshake, and every other violation, is fatal.
    pub fn server_handshake_step(&mut self, content_type: ContentType, payload: Vec<u8>) -> (r:
        Result<ServerAction, TunnelError>)
        requires
            old(self).wf(),
        ensures
            final(self).wf(),
            old(self).state is Terminated || old(self).state is GracefullyDisconnected ==> (r
                matches Err(TunnelError::SocketDied) && *final(self) == *old(self)),
            old(self).state is Application ==> (r matches Err(TunnelError::UnexceptedError)
                && *final(self) == *old(self)),
            old(self).state is Handshake ==> {
                &&& content_type is ApplicationData ==> ((r matches Err(
                    TunnelError::InappropriateMessage { got, .. },
                ) && got is ApplicationData) && final(self).state is Terminated)
                &&& r matches Ok(a) ==> (a is Complete ==> final(self).state is Application
                    && final(self).peer_encrypt is Some && final(self).peer_verifying is Some
                    && final(self).peer_random is Some)
                &&& r matches Ok(a) ==> (a is Reply ==> final(self).state is Handshake && final(self).awaiting_finished && final(self).peer_encrypt is Some && final(self).peer_verifying is Some)
                &&& payload@.len() >= 1 && payload@[0]
                    == HandshakeContentType::ClientHello.spec_id() ==> (r matches Ok(a) ==> a
                    is Reply)
                &&& payload@.len() >= 1 && payload@[0]
                    == HandshakeContentType::EncryptedClientHello.spec_id() ==> (r matches Ok(a)
                    ==> a is Complete)
                &&& r matches Ok(a) ==> (a is Reply ==> a->Reply_0@.len() >= 1 && a->Reply_0@[0]
                    == HandshakeContentType::ServerHello.spec_id())
                &&& content_type is Handshake && payload@.len() == 0 ==> (r matches Err(
                    TunnelError::IoWrapper(IoWrapperError::NoPayload),
                ))
                &&& r matches Err(e) ==> (e is IoWrapper ==> payload@.len() == 0)
                &&& content_type is Handshake && payload@.len() >= 1
                    && HandshakeContentType::spec_try_from(payload@[0]) is None ==> (r matches Err(
                    TunnelError::Handshake(HandshakeError::InvalidContentType),
                ))
                &&& content_type is Handshake && payload@.len() >= 1 && payload@[0]
                    == HandshakeContentType::ServerHello.spec_id() ==> (r matches Err(
                    TunnelError::Handshake(HandshakeError::InvalidContentType),
                ))
                &&& content_type is Handshake && payload@.len() >= 1 && payload@[0]
                    == HandshakeContentType::Finished.spec_id() && !old(self).awaiting_finished
                    ==> (r matches Err(TunnelError::Handshake(HandshakeError::InvalidContentType)))
                &&& content_type is Handshake && payload@.len() >= 1 && (payload@[0]
                    == HandshakeContentType::ClientHello.spec_id() || payload@[0]
                    == HandshakeContentType::EncryptedClientHello.spec_id()) && old(self).awaiting_finished ==> (r matches Err(
                    TunnelError::Handshake(HandshakeError::InvalidContentType),
                ))
                &&& r is Err ==> final(self).state is Terminated
                &&& r is Err ==> final(self).peer_encrypt == old(self).peer_encrypt && final(self).peer_verifying == old(self).peer_verifying && final(self).peer_random == old(self).peer_random && final(self).awaiting_finished == old(self).awaiting_finished
                    && final(self).signed_public == old(self).signed_public
            },
    {
        match self.state {
            TunnelState::Terminated | TunnelState::GracefullyDisconnected => {
                return Err(TunnelError::SocketDied);
            },
            TunnelState::Application => {
                return Err(TunnelError::UnexceptedError);
            },
            TunnelState::Handshake => {},
        }
        match content_type {
            ContentType::Handshake => {},
            _ => {
                self.state = TunnelState::Terminated;
                return Err(
                    TunnelError::InappropriateMessage {
                        expected_types: expected_handshake_types(),
                        got: content_type,
                    },
                );
            },
        }
        if payload.len() == 0 {
            self.state = TunnelState::Terminated;
            return Err(TunnelError::IoWrapper(IoWrapperError::NoPayload));
        }
        let inner_type = match HandshakeContentType::try_from(payload[0]) {
            Ok(t) => t,
            Err(e) => {
                self.state = TunnelState::Terminated;
                return Err(TunnelError::Handshake(e));
            },
        };
        match inner_type {
            HandshakeContentType::ClientHello => {
                if self.awaiting_finished {
                    self.state = TunnelState::Terminated;
                    return Err(TunnelError::Handshake(HandshakeError::InvalidContentType));
                }
                let body = slice_subrange(payload.as_slice(), 1, payload.len());
                let client_hello = match ClientHello::deserialize(body) {
                    Some(m) => m,
                    None => {
                        self.state = TunnelState::Terminated;
                        return Err(TunnelError::InvalidPayload);
                    },
                };
                let (peer_encrypt, peer_verifying) = match self.peer_primitives_of(
                    client_hello.public_key.as_slice(),
                    client_hello.padding_hf,
                    client_hello.signature_hf,
                ) {
                    Ok(p) => p,
                    Err(e) => {
                        self.state = TunnelState::Terminated;
                        return Err(e);
                    },
                };
                let reply_body = match self.server_hello_message() {
                    Ok(m) => m,
                    Err(e) => {
                        self.state = TunnelState::Terminated;
                        return Err(e);
                    },
                };
                let ciphertext = match peer_encrypt.encrypt(reply_body.as_slice()) {
                    Ok(c) => c,
                    Err(e) => {
                        self.state = TunnelState::Terminated;
                        return Err(TunnelError::Crypto(e));
                    },
                };
                let mut record: Vec<u8> = Vec::new();
                record.push(HandshakeContentType::ServerHello.id());
                let mut ciphertext = ciphertext;
                record.append(&mut ciphertext);
                self.peer_encrypt = Some(peer_encrypt);
                self.peer_verifying = Some(peer_verifying);
                self.awaiting_finished = true;
                Ok(ServerAction::Reply(record))
            },
            HandshakeContentType::EncryptedClientHello => {
                if self.awaiting_finished {
                    self.state = TunnelState::Terminated;
                    return Err(TunnelError::Handshake(HandshakeError::InvalidContentType));
                }
                let body = slice_subrange(payload.as_slice(), 1, payload.len());
                let plain = match self.decrypt(body) {
                    Ok(p) => p,
                    Err(e) => {
                        self.state = TunnelState::Terminated;
                        return Err(e);
                    },
                };
                let hello = match EncryptedClientHello::deserialize(plain.as_slice()) {
                    Some(m) => m,
                    None => {
                        self.state = TunnelState::Terminated;
                        return Err(TunnelError::InvalidPayload);
                    },
                };
                let (peer_encrypt, peer_verifying) = match self.peer_primitives_of(
                    hello.public_key.as_slice(),
                    hello.padding_hf,
                    hello.signature_hf,
                ) {
                    Ok(p) => p,
                    Err(e) => {
                        self.state = TunnelState::Terminated;
                        return Err(e);
                    },
                };
                match peer_verifying.verify(
                    hello.random.as_slice(),
                    hello.random_signature.as_slice(),
                ) {
                    Ok(()) => {},
                    Err(_e) => {
                        self.state = TunnelState::Terminated;
                        return Err(TunnelError::Handshake(HandshakeError::InvalidSignature));
                    },
                }
                self.peer_encrypt = Some(peer_encrypt);
                self.peer_verifying = Some(peer_verifying);
                self.peer_random = Some(hello.random);
                self.state = TunnelState::Application;
                Ok(ServerAction::Complete)
            },
            HandshakeContentType::Finished => {
                if !self.awaiting_finished {
                    self.state = TunnelState::Terminated;
                    return Err(TunnelError::Handshake(HandshakeError::InvalidContentType));
                }
                let body = slice_subrange(payload.as_slice(), 1, payload.len());
                let plain = match self.decrypt(body) {
                    Ok(p) => p,
                    Err(e) => {
                        self.state = TunnelState::Terminated;
                        return Err(e);
                    },
                };
                let finished = match Finished::deserialize(plain.as_slice()) {
                    Some(m) => m,
                    None => {
                        self.state = TunnelState::Terminated;
                        return Err(TunnelError::InvalidPayload);
                    },
                };
                match self.verify(finished.random.as_slice(), finished.random_signature.as_slice())
                    {
                    Ok(()) => {},
                    Err(_e) => {
                        self.state = TunnelState::Terminated;
                        return Err(TunnelError::Handshake(HandshakeError::InvalidSignature));
                    },
                }
                self.peer_random = Some(finished.random);
                self.state = TunnelState::Application;
                Ok(ServerAction::Complete)
            },
            HandshakeContentType::ServerHello => {
                self.state = TunnelState::Terminated;
                Err(TunnelError::Handshake(HandshakeError::InvalidContentType))
            },
        }
    }

    /// Builds the peer's primitives from an advertised DER public key
    /// and the advertised hash ids.
    fn peer_primitives_of(&self, der: &[u8], padding_hf: u8, signature_hf: u8) -> (r: Result<
        (Encrypt, Verifying),
        TunnelError,
    >)
        ensures
            r matches Ok(p) ==> p.0.wf(),
            r matches Err(e) ==> (e is Handshake || e is Crypto),
    {
        let public_key = match public_key_from_der(der) {
            Ok(k) => k,
            Err(_e) => {
                return Err(TunnelError::Handshake(HandshakeError::InappropriatePublicKey));
            },
        };
        let padding_hf = match HashFunction::try_from(padding_hf) {
            Ok(h) => h,
            Err(e) => {
                return Err(TunnelError::Crypto(e));
            },
        };
        let signature_hf = match HashFunction::try_from(signature_hf) {
            Ok(h) => h,
            Err(e) => {
                return Err(TunnelError::Crypto(e));
            },
        };
        let peer_encrypt = match Encrypt::try_new(&padding_hf, clone_public_key(&public_key)) {
            Ok(e) => e,
            Err(e) => {
                return Err(TunnelError::Crypto(e));
            },
        };
        let peer_verifying = match Verifying::try_new(&signature_hf, public_key) {
            Ok(v) => v,
            Err(e) => {
                return Err(TunnelError::Crypto(e));
            },
        };
        Ok((peer_encrypt, peer_verifying))
    }

    /// Builds the plaintext `ServerHello` message body from the
    /// installed signed public key and the local hash ids.
    fn server_hello_message(&self) -> (r: Result<Vec<u8>, TunnelError>)
        ensures
            r matches Err(e) ==> (e is InvalidPayload || e is UnexceptedError),
    {
        let signed_public = match &self.signed_public {
            Some(sp) => sp,
            None => {
                return Err(TunnelError::InvalidPayload);
            },
        };
        let der = match public_key_to_der(&signed_public.public_key) {
            Ok(d) => d,
            Err(e) => {
                return Err(TunnelError::UnexceptedError);
            },
        };
        let signature = signed_public.signature.clone();
        let message = ServerHello {
            public_key: der,
            expires_at: signed_public.expires_at,
            signature_hf: self.local_signing.hash_type().id(),
            padding_hf: self.local_decrypt.hash_type().id(),
            trusted_authority_id: signed_public.trusted_authority_id,
            signature,
        };
        Ok(message.serialize())
    }
}

/// The content types that a server accepts while it handshakes.
fn expected_handshake_types() -> (r: Vec<ContentType>)
    ensures
        r@ == seq![ContentType::Handshake],
{
    let mut types: Vec<ContentType> = Vec::new();
    types.push(ContentType::Handshake);
    assert(types@ =~= seq![ContentType::Handshake]);
    types
}

} // verus!
