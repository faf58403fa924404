//! A sub-protocol for key exchange.
//!
//! The full pTLS handshake:
//! ```text
//!        Client                                           Server
//!
//! Key  ^ ClientHello
//! Exch |    public_key
//!      |    signature_hf
//!      v    padding_hf           ------->
//!
//!                                                 [ServerHello]  ^ Key
//!                                                  public_key    | Exch
//!                                                  expires_at    |
//!                                                signature_hf    |
//!                                                  padding_hf    |
//!                                        trusted_authority_id    |
//!                                <-------           signature    v
//!
//! Auth ^ {Finished}
//!      |   random
//!      v   random_signature      ------->
//!
//!        {ApplicationData}       <------>       [ApplicationData]
//!
//!     [] Indicates messages protected using client's public key.
//!     {} Indicates messages protected using server's public key.
//! ```
//!
//! The basic handshake combines `ClientHello` and `Finished` into a
//! single `EncryptedClientHello`, encrypted under a server public key
//! that the client already knows.
//!
//! Every message travels in a deterministic, self-describing binary
//! encoding: variable-length fields carry a 64-bit little-endian length
//! prefix, fixed-width integers are little endian, and single-byte
//! fields are bare bytes, in field order.

use vstd::prelude::*;

use vstd::bytes::spec_u64_to_le_bytes;

use crate::wire::lemma_i64_cast_round_trip;
use crate::wire::lemma_lp_bytes_round_trip;
use crate::wire::lemma_u64_le_round_trip;
use crate::wire::push_lp_bytes;
use crate::wire::push_u64_le;
use crate::wire::spec_lp_bytes;
use crate::wire::spec_take_lp_bytes;
use crate::wire::spec_take_u64_le;
use crate::wire::take_lp_bytes;
use crate::wire::take_u64_le;

verus! {

/// When a client first connects to a server, it is required to send
/// the `ClientHello` or `EncryptedClientHello` as its first pTLS
/// message.
pub struct ClientHello {
    pub public_key: Vec<u8>,
    /// Signature hash function.
    pub signature_hf: u8,
    /// Padding hash function.
    pub padding_hf: u8,
}

/// The mathematical contents of a [`ClientHello`].
pub struct ClientHelloView {
    pub public_key: Seq<u8>,
    pub signature_hf: u8,
    pub padding_hf: u8,
}

impl View for ClientHello {
    type V = ClientHelloView;

    open spec fn view(&self) -> ClientHelloView {
        ClientHelloView {
            public_key: self.public_key@,
            signature_hf: self.signature_hf,
            padding_hf: self.padding_hf,
        }
    }
}

/// The encoded bytes of a [`ClientHello`].
pub open spec fn spec_encode_client_hello(m: ClientHelloView) -> Seq<u8> {
    spec_lp_bytes(m.public_key) + seq![m.signature_hf, m.padding_hf]
}

/// The [`ClientHello`] at the front of a buffer, if it holds one;
/// trailing bytes are ignored.
pub open spec fn spec_parse_client_hello(b: Seq<u8>) -> Option<ClientHelloView> {
    match spec_take_lp_bytes(b, 0) {
        Some((public_key, pos)) => {
            if pos + 2 <= b.len() {
                Some(
                    ClientHelloView {
                        public_key,
                        signature_hf: b[pos],
                        padding_hf: b[pos + 1],
                    },
                )
            } else {
                None
            }
        },
        None => None,
    }
}

impl ClientHello {
    /// Encodes this message.
    pub fn serialize(&self) -> (r: Vec<u8>)
        ensures
            r@ == spec_encode_client_hello(self@),
    {
        let mut out: Vec<u8> = Vec::new();
        push_lp_bytes(&mut out, self.public_key.as_slice());
        out.push(self.signature_hf);
        out.push(self.padding_hf);
        assert(out@ =~= spec_encode_client_hello(self@));
        out
    }

    /// Decodes a message from the front of `buf`, ignoring trailing
    /// bytes.
    pub fn deserialize(buf: &[u8]) -> (r: Option<ClientHello>)
        ensures
            r matches Some(m) ==> spec_parse_client_hello(buf@) == Some(m@),
            r is None <==> spec_parse_client_hello(buf@) is None,
    {
        let (public_key, pos) = match take_lp_bytes(buf, 0) {
            Some(p) => p,
            None => {
                return None;
            },
        };
        if buf.len() - pos < 2 {
            return None;
        }
        let signature_hf = buf[pos];
        let padding_hf = buf[pos + 1];
        Some(ClientHello { public_key, signature_hf, padding_hf })
    }
}

/// Encoding a [`ClientHello`] and decoding it back returns the same
/// message, whatever follows it in the buffer.
pub proof fn lemma_client_hello_round_trip(m: ClientHelloView, rest: Seq<u8>)
    requires
        m.public_key.len() <= u64::MAX,
    ensures
        spec_parse_client_hello(spec_encode_client_hello(m) + rest) == Some(m),
{
    vstd::bytes::lemma_auto_spec_u64_to_from_le_bytes();
    let b = spec_encode_client_hello(m) + rest;
    let tail = seq![m.signature_hf, m.padding_hf] + rest;
    assert(b =~= Seq::<u8>::empty() + spec_lp_bytes(m.public_key) + tail);
    lemma_lp_bytes_round_trip(Seq::<u8>::empty(), m.public_key, tail);
    let pos = 8 + m.public_key.len() as int;
    assert(b[pos] == m.signature_hf && b[pos + 1] == m.padding_hf);
}

/// This is an encrypted version of the `ClientHello`.  Combines the
/// properties of `Finished` and `ClientHello`.
pub struct EncryptedClientHello {
    pub public_key: Vec<u8>,
    pub signature_hf: u8,
    pub padding_hf: u8,
    pub random: Vec<u8>,
    pub random_signature: Vec<u8>,
}

/// The mathematical contents of an [`EncryptedClientHello`].
pub struct EncryptedClientHelloView {
    pub public_key: Seq<u8>,
    pub signature_hf: u8,
    pub padding_hf: u8,
    pub random: Seq<u8>,
    pub random_signature: Seq<u8>,
}

impl View for EncryptedClientHello {
    type V = EncryptedClientHelloView;

    open spec fn view(&self) -> EncryptedClientHelloView {
        EncryptedClientHelloView {
            public_key: self.public_key@,
            signature_hf: self.signature_hf,
            padding_hf: self.padding_hf,
            random: self.random@,
            random_signature: self.random_signature@,
        }
    }
}

/// The encoded bytes of an [`EncryptedClientHello`].
pub open spec fn spec_encode_encrypted_client_hello(m: EncryptedClientHelloView) -> Seq<u8> {
    spec_lp_bytes(m.public_key) + seq![m.signature_hf, m.padding_hf] + spec_lp_bytes(m.random)
        + spec_lp_bytes(m.random_signature)
}

/// The [`EncryptedClientHello`] at the front of a buffer, if it holds
/// one; trailing bytes are ignored.
pub open spec fn spec_parse_encrypted_client_hello(b: Seq<u8>) -> Option<
    EncryptedClientHelloView,
> {
    match spec_take_lp_bytes(b, 0) {
        Some((public_key, pos)) => {
            if pos + 2 <= b.len() {
                let signature_hf = b[pos];
                let padding_hf = b[pos + 1];
                match spec_take_lp_bytes(b, pos + 2) {
                    Some((random, pos2)) => {
                        match spec_take_lp_bytes(b, pos2) {
                            Some((random_signature, _)) => {
                                Some(
                                    EncryptedClientHelloView {
                                        public_key,
                                        signature_hf,
                                        padding_hf,
                                        random,
                                        random_signature,
                                    },
                                )
                            },
                            None => None,
                        }
                    },
                    None => None,
                }
            } else {
                None
            }
        },
        None => None,
    }
}

impl EncryptedClientHello {
    /// Encodes this message.
    pub fn serialize(&self) -> (r: Vec<u8>)
        ensures
            r@ == spec_encode_encrypted_client_hello(self@),
    {
        let mut out: Vec<u8> = Vec::new();
        push_lp_bytes(&mut out, self.public_key.as_slice());
        out.push(self.signature_hf);
        out.push(self.padding_hf);
        push_lp_bytes(&mut out, self.random.as_slice());
        push_lp_bytes(&mut out, self.random_signature.as_slice());
        assert(out@ =~= spec_encode_encrypted_client_hello(self@));
        out
    }

    /// Decodes a message from the front of `buf`, ignoring trailing
    /// bytes.
    pub fn deserialize(buf: &[u8]) -> (r: Option<EncryptedClientHello>)
        ensures
            r matches Some(m) ==> spec_parse_encrypted_client_hello(buf@) == Some(m@),
            r is None <==> spec_parse_encrypted_client_hello(buf@) is None,
    {
        let (public_key, pos) = match take_lp_bytes(buf, 0) {
            Some(p) => p,
            None => {
                return None;
            },
        };
        if buf.len() - pos < 2 {
            return None;
        }
        let signature_hf = buf[pos];
        let padding_hf = buf[pos + 1];
        let (random, pos2) = match take_lp_bytes(buf, pos + 2) {
            Some(p) => p,
            None => {
                return None;
            },
        };
        let (random_signature, _pos3) = match take_lp_bytes(buf, pos2) {
            Some(p) => p,
            None => {
                return None;
            },
        };
        Some(EncryptedClientHello { public_key, signature_hf, padding_hf, random, random_signature })
    }
}

/// Encoding an [`EncryptedClientHello`] and decoding it back returns
/// the same message, whatever follows it in the buffer.
pub proof fn lemma_encrypted_client_hello_round_trip(m: EncryptedClientHelloView, rest: Seq<u8>)
    requires
        m.public_key.len() <= u64::MAX,
        m.random.len() <= u64::MAX,
        m.random_signature.len() <= u64::MAX,
    ensures
        spec_parse_encrypted_client_hello(spec_encode_encrypted_client_hello(m) + rest) == Some(m),
{
    vstd::bytes::lemma_auto_spec_u64_to_from_le_bytes();
    let b = spec_encode_encrypted_client_hello(m) + rest;
    let hfs = seq![m.signature_hf, m.padding_hf];
    let tail1 = hfs + spec_lp_bytes(m.random) + spec_lp_bytes(m.random_signature) + rest;
    assert(b =~= Seq::<u8>::empty() + spec_lp_bytes(m.public_key) + tail1);
    lemma_lp_bytes_round_trip(Seq::<u8>::empty(), m.public_key, tail1);
    let pos = 8 + m.public_key.len() as int;
    assert(b[pos] == m.signature_hf && b[pos + 1] == m.padding_hf);
    let prefix2 = spec_lp_bytes(m.public_key) + hfs;
    let tail2 = spec_lp_bytes(m.random_signature) + rest;
    assert(b =~= prefix2 + spec_lp_bytes(m.random) + tail2);
    lemma_lp_bytes_round_trip(prefix2, m.random, tail2);
    assert(prefix2.len() == pos + 2);
    let prefix3 = prefix2 + spec_lp_bytes(m.random);
    assert(b =~= prefix3 + spec_lp_bytes(m.random_signature) + rest);
    lemma_lp_bytes_round_trip(prefix3, m.random_signature, rest);
}

/// The server will send this message in response to a ClientHello
/// message to proceed with the handshake.
pub struct ServerHello {
    pub public_key: Vec<u8>,
    /// Unix timestamp that indicates public_key's expiration time.
    pub expires_at: i64,
    pub signature_hf: u8,
    pub padding_hf: u8,
    pub trusted_authority_id: u64,
    /// The signature provided by trusted authority for verifying the
    /// public_key and its expiration timestamp.
    pub signature: Vec<u8>,
}

/// The mathematical contents of a [`ServerHello`].
pub struct ServerHelloView {
    pub public_key: Seq<u8>,
    pub expires_at: i64,
    pub signature_hf: u8,
    pub padding_hf: u8,
    pub trusted_authority_id: u64,
    pub signature: Seq<u8>,
}

impl View for ServerHello {
    type V = ServerHelloView;

    open spec fn view(&self) -> ServerHelloView {
        ServerHelloView {
            public_key: self.public_key@,
            expires_at: self.expires_at,
            signature_hf: self.signature_hf,
            padding_hf: self.padding_hf,
            trusted_authority_id: self.trusted_authority_id,
            signature: self.signature@,
        }
    }
}

/// The encoded bytes of a [`ServerHello`].
pub open spec fn spec_encode_server_hello(m: ServerHelloView) -> Seq<u8> {
    spec_lp_bytes(m.public_key) + spec_u64_to_le_bytes(m.expires_at as u64) + seq![
        m.signature_hf,
        m.padding_hf,
    ] + spec_u64_to_le_bytes(m.trusted_authority_id) + spec_lp_bytes(m.signature)
}

/// The [`ServerHello`] at the front of a buffer, if it holds one;
/// trailing bytes are ignored.
pub open spec fn spec_parse_server_hello(b: Seq<u8>) -> Option<ServerHelloView> {
    match spec_take_lp_bytes(b, 0) {
        Some((public_key, pos)) => {
            match spec_take_u64_le(b, pos) {
                Some((expires_raw, pos2)) => {
                    if pos2 + 2 <= b.len() {
                        let signature_hf = b[pos2];
                        let padding_hf = b[pos2 + 1];
                        match spec_take_u64_le(b, pos2 + 2) {
                            Some((trusted_authority_id, pos3)) => {
                                match spec_take_lp_bytes(b, pos3) {
                                    Some((signature, _)) => {
                                        Some(
                                            ServerHelloView {
                                                public_key,
                                                expires_at: expires_raw as i64,
                                                signature_hf,
                                                padding_hf,
                                                trusted_authority_id,
                                                signature,
                                            },
                                        )
                                    },
                                    None => None,
                                }
                            },
                            None => None,
                        }
                    } else {
                        None
                    }
                },
                None => None,
            }
        },
        None => None,
    }
}

impl ServerHello {
    /// Encodes this message.
    pub fn serialize(&self) -> (r: Vec<u8>)
        ensures
            r@ == spec_encode_server_hello(self@),
    {
        let mut out: Vec<u8> = Vec::new();
        push_lp_bytes(&mut out, self.public_key.as_slice());
        push_u64_le(&mut out, self.expires_at as u64);
        out.push(self.signature_hf);
        out.push(self.padding_hf);
        push_u64_le(&mut out, self.trusted_authority_id);
        push_lp_bytes(&mut out, self.signature.as_slice());
        assert(out@ =~= spec_encode_server_hello(self@));
        out
    }

    /// Decodes a message from the front of `buf`, ignoring trailing
    /// bytes.
    pub fn deserialize(buf: &[u8]) -> (r: Option<ServerHello>)
        ensures
            r matches Some(m) ==> spec_parse_server_hello(buf@) == Some(m@),
            r is None <==> spec_parse_server_hello(buf@) is None,
    {
        let (public_key, pos) = match take_lp_bytes(buf, 0) {
            Some(p) => p,
            None => {
                return None;
            },
        };
        if buf.len() - pos < 8 {
            return None;
        }
        let expires_raw = take_u64_le(buf, pos);
        let pos2 = pos + 8;
        if buf.len() - pos2 < 2 {
            return None;
        }
        let signature_hf = buf[pos2];
        let padding_hf = buf[pos2 + 1];
        if buf.len() - (pos2 + 2) < 8 {
            return None;
        }
        let trusted_authority_id = take_u64_le(buf, pos2 + 2);
        let pos3 = pos2 + 10;
        let (signature, _pos4) = match take_lp_bytes(buf, pos3) {
            Some(p) => p,
            None => {
                return None;
            },
        };
        Some(
            ServerHello {
                public_key,
                expires_at: expires_raw as i64,
                signature_hf,
                padding_hf,
                trusted_authority_id,
                signature,
            },
        )
    }
}

/// Encoding a [`ServerHello`] and decoding it back returns the same
/// message, whatever follows it in the buffer.
pub proof fn lemma_server_hello_round_trip(m: ServerHelloView, rest: Seq<u8>)
    requires
        m.public_key.len() <= u64::MAX,
        m.signature.len() <= u64::MAX,
    ensures
        spec_parse_server_hello(spec_encode_server_hello(m) + rest) == Some(m),
{
    let b = spec_encode_server_hello(m) + rest;
    let expires = spec_u64_to_le_bytes(m.expires_at as u64);
    let hfs = seq![m.signature_hf, m.padding_hf];
    let ta = spec_u64_to_le_bytes(m.trusted_authority_id);
    vstd::bytes::lemma_auto_spec_u64_to_from_le_bytes();
    let tail1 = expires + hfs + ta + spec_lp_bytes(m.signature) + rest;
    assert(b =~= Seq::<u8>::empty() + spec_lp_bytes(m.public_key) + tail1);
    lemma_lp_bytes_round_trip(Seq::<u8>::empty(), m.public_key, tail1);
    let prefix2 = spec_lp_bytes(m.public_key);
    let pos = prefix2.len() as int;
    let tail2 = hfs + ta + spec_lp_bytes(m.signature) + rest;
    assert(b =~= prefix2 + expires + tail2);
    lemma_u64_le_round_trip(prefix2, m.expires_at as u64, tail2);
    lemma_i64_cast_round_trip(m.expires_at);
    let pos2 = pos + 8;
    assert(b[pos2] == m.signature_hf && b[pos2 + 1] == m.padding_hf);
    let prefix3 = prefix2 + expires + hfs;
    assert(prefix3.len() == pos2 + 2);
    let tail3 = spec_lp_bytes(m.signature) + rest;
    assert(b =~= prefix3 + ta + tail3);
    lemma_u64_le_round_trip(prefix3, m.trusted_authority_id, tail3);
    let prefix4 = prefix3 + ta;
    assert(b =~= prefix4 + spec_lp_bytes(m.signature) + rest);
    lemma_lp_bytes_round_trip(prefix4, m.signature, rest);
}

/// The `Finished` message concludes the `Handshake` phase.  After
/// sending a `Finished` message, the peer or the server can start
/// sending `ApplicationData`.
pub struct Finished {
    /// A random 64-bit integer used to prevent message forgery.
    pub random: Vec<u8>,
    /// The random is signed by the sender's private key.
    pub random_signature: Vec<u8>,
}

/// The mathematical contents of a [`Finished`].
pub struct FinishedView {
    pub random: Seq<u8>,
    pub random_signature: Seq<u8>,
}

impl View for Finished {
    type V = FinishedView;

    open spec fn view(&self) -> FinishedView {
        FinishedView { random: self.random@, random_signature: self.random_signature@ }
    }
}

/// The encoded bytes of a [`Finished`].
pub open spec fn spec_encode_finished(m: FinishedView) -> Seq<u8> {
    spec_lp_bytes(m.random) + spec_lp_bytes(m.random_signature)
}

/// The [`Finished`] at the front of a buffer, if it holds one;
/// trailing bytes are ignored.
pub open spec fn spec_parse_finished(b: Seq<u8>) -> Option<FinishedView> {
    match spec_take_lp_bytes(b, 0) {
        Some((random, pos)) => {
            match spec_take_lp_bytes(b, pos) {
                Some((random_signature, _)) => {
                    Some(FinishedView { random, random_signature })
                },
                None => None,
            }
        },
        None => None,
    }
}

impl Finished {
    /// Encodes this message.
    pub fn serialize(&self) -> (r: Vec<u8>)
        ensures
            r@ == spec_encode_finished(self@),
    {
        let mut out: Vec<u8> = Vec::new();
        push_lp_bytes(&mut out, self.random.as_slice());
        push_lp_bytes(&mut out, self.random_signature.as_slice());
        assert(out@ =~= spec_encode_finished(self@));
        out
    }

    /// Decodes a message from the front of `buf`, ignoring trailing
    /// bytes.
    pub fn deserialize(buf: &[u8]) -> (r: Option<Finished>)
        ensures
            r matches Some(m) ==> spec_parse_finished(buf@) == Some(m@),
            r is None <==> spec_parse_finished(buf@) is None,
    {
        let (random, pos) = match take_lp_bytes(buf, 0) {
            Some(p) => p,
            None => {
                return None;
            },
        };
        let (random_signature, _pos2) = match take_lp_bytes(buf, pos) {
            Some(p) => p,
            None => {
                return None;
            },
        };
        Some(Finished { random, random_signature })
    }
}

/// Encoding a [`Finished`] and decoding it back returns the same
/// message, whatever follows it in the buffer.
pub proof fn lemma_finished_round_trip(m: FinishedView, rest: Seq<u8>)
    requires
        m.random.len() <= u64::MAX,
        m.random_signature.len() <= u64::MAX,
    ensures
        spec_parse_finished(spec_encode_finished(m) + rest) == Some(m),
{
    vstd::bytes::lemma_auto_spec_u64_to_from_le_bytes();
    let b = spec_encode_finished(m) + rest;
    let tail1 = spec_lp_bytes(m.random_signature) + rest;
    assert(b =~= Seq::<u8>::empty() + spec_lp_bytes(m.random) + tail1);
    lemma_lp_bytes_round_trip(Seq::<u8>::empty(), m.random, tail1);
    let prefix2 = spec_lp_bytes(m.random);
    assert(b =~= prefix2 + spec_lp_bytes(m.random_signature) + rest);
    lemma_lp_bytes_round_trip(prefix2, m.random_signature, rest);
}

/// Errors that may occur during the `handshake` sub-protocol.
#[derive(Debug, Clone, Copy, PartialEq, Eq, Structural)]
pub enum HandshakeError {
    /// The public key provided by the peer is not a valid DER-encoded
    /// key.
    InappropriatePublicKey,
    /// The certificate authority is not a known certificate issuer.
    UnknownCa,
    /// The signature provided by the peer is not valid.
    InvalidSignature,
    /// The random sent by the peer is not valid.
    InvalidRandom,
    /// Message sent with invalid content type.
    InvalidContentType,
}

/// Numeric content type ids of the handshake messages.
#[derive(Debug, Clone, Copy, PartialEq, Eq, Structural)]
pub enum HandshakeContentType {
    ClientHello,
    EncryptedClientHello,
    ServerHello,
    Finished,
}

impl HandshakeContentType {
    /// The numeric id of this handshake content type on the wire.
    pub open spec fn spec_id(self) -> u8 {
        match self {
            HandshakeContentType::ClientHello => 0,
            HandshakeContentType::EncryptedClientHello => 1,
            HandshakeContentType::ServerHello => 2,
            HandshakeContentType::Finished => 3,
        }
    }

    /// Returns the numeric id of this handshake content type.
    pub fn id(&self) -> (r: u8)
        ensures
            r == self.spec_id(),
    {
        match self {
            HandshakeContentType::ClientHello => 0,
            HandshakeContentType::EncryptedClientHello => 1,
            HandshakeContentType::ServerHello => 2,
            HandshakeContentType::Finished => 3,
        }
    }

    /// The handshake content type that a wire id denotes, if any.
    pub open spec fn spec_try_from(value: u8) -> Option<HandshakeContentType> {
        if value == 0 {
            Some(HandshakeContentType::ClientHello)
        } else if value == 1 {
            Some(HandshakeContentType::EncryptedClientHello)
        } else if value == 2 {
            Some(HandshakeContentType::ServerHello)
        } else if value == 3 {
            Some(HandshakeContentType::Finished)
        } else {
            None
        }
    }

    /// Decodes a wire id into a handshake content type.
    ///
    /// An unknown id is rejected with `InvalidContentType`.
    pub fn try_from(value: u8) -> (r: Result<HandshakeContentType, HandshakeError>)
        ensures
            r matches Ok(t) ==> Self::spec_try_from(value) == Some(t),
            Self::spec_try_from(value) is Some <==> r is Ok,
            Self::spec_try_from(value) is None <==> r matches Err(
                HandshakeError::InvalidContentType,
            ),
    {
        match value {
            0 => Ok(HandshakeContentType::ClientHello),
            1 => Ok(HandshakeContentType::EncryptedClientHello),
            2 => Ok(HandshakeContentType::ServerHello),
            3 => Ok(HandshakeContentType::Finished),
            _ => Err(HandshakeError::InvalidContentType),
        }
    }
}

/// Common handshake payload methods.
pub trait HandshakePayload {
    /// The handshake content type that announces this message on the
    /// wire.
    fn content_type() -> HandshakeContentType;
}

impl HandshakePayload for ClientHello {
    fn content_type() -> (r: HandshakeContentType)
        ensures
            r == HandshakeContentType::ClientHello,
    {
        HandshakeContentType::ClientHello
    }
}

impl HandshakePayload for EncryptedClientHello {
    fn content_type() -> (r: HandshakeContentType)
        ensures
            r == HandshakeContentType::EncryptedClientHello,
    {
        HandshakeContentType::EncryptedClientHello
    }
}

impl HandshakePayload for ServerHello {
    fn content_type() -> (r: HandshakeContentType)
        ensures
            r == HandshakeContentType::ServerHello,
    {
        HandshakeContentType::ServerHello
    }
}

impl HandshakePayload for Finished {
    fn content_type() -> (r: HandshakeContentType)
        ensures
            r == HandshakeContentType::Finished,
    {
        HandshakeContentType::Finished
    }
}

} // verus!
