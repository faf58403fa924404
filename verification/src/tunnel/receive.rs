//! Post-handshake receiving: routing one framed record through the
//! state machine.

use vstd::prelude::*;

use vstd::slice::slice_subrange;

use crate::io_wrapper::IoWrapperError;
use crate::sub_protocol::alert::spec_flags_encrypted;
use crate::sub_protocol::alert::spec_flags_fatal;
use crate::sub_protocol::alert::read_alert_flags;
use crate::sub_protocol::Alert;
use crate::sub_protocol::ContentType;
use crate::tunnel::TunnelError;
use crate::tunnel::Tunnel;
use crate::tunnel::TunnelState;

verus! {

/// What one received record amounts to, after decryption and routing.
pub enum Received {
    /// Decrypted application bytes, delivered in the order sent.
    Data(Vec<u8>),
    /// A decoded alert; a fatal one has already terminated the
    /// tunnel.
    Alert(Alert),
    /// An unencrypted post-handshake alert, ignored by policy: an
    /// on-path attacker cannot inject alerts once the handshake is
    /// done.
    Ignored,
}

impl Tunnel {
    /// Routes one received record by its content type.
    ///
    /// Receiving is permitted only in the `Application` state:
    /// beforehand it fails with `NotReady`, after a fatal error with
    /// `SocketDied`.  `ApplicationData` is decrypted with the local
    /// key; an `Alert` is ignored when unencrypted, decoded when
    /// encrypted, and terminates the tunnel when fatal; a `Handshake`
    /// record in this state is a fatal `InappropriateMessage`.
    pub fn process_record(&mut self, content_type: ContentType, payload: Vec<u8>) -> (r: Result<
        Received,
        TunnelError,
    >)
        requires
            old(self).wf(),
        ensures
            final(self).wf(),
            old(self).state is Handshake ==> (r matches Err(TunnelError::NotReady) && *final(self)
                == *old(self)),
            old(self).state is Terminated || old(self).state is GracefullyDisconnected ==> (r
                matches Err(TunnelError::SocketDied) && *final(self) == *old(self)),
            old(self).state is Application ==> {
                &&& content_type is Handshake ==> (r matches Err(
                    TunnelError::InappropriateMessage { got, .. },
                ) && got is Handshake) && final(self).state is Terminated
                &&& content_type is ApplicationData ==> {
                    &&& r matches Ok(v) ==> (v matches Received::Data(d) && d@.len() <= (
                    payload@.len() as int / old(self).local_decrypt.block_size as int) * old(
                        self,
                    ).local_decrypt.available_block_size && *final(self) == *old(self))
                    &&& payload@.len() == 0 ==> (r matches Ok(v) && v matches Received::Data(d)
                        && d@.len() == 0)
                    &&& r matches Err(e) ==> (e is Crypto && (e->Crypto_0 is Rsa || e->Crypto_0
                        is InvalidBlockSize) && final(self).state is Terminated)
                }
                &&& content_type is Alert ==> {
                    &&& payload@.len() == 0 ==> (r matches Err(
                        TunnelError::IoWrapper(IoWrapperError::NoPayload),
                    ))
                    &&& payload@.len() >= 1 && !spec_flags_encrypted(payload@[0]) ==> (r matches
                    Ok(v) && v is Ignored && *final(self) == *old(self))
                    &&& r matches Ok(v) ==> (v is Alert ==> ((spec_flags_fatal(payload@[0]))
                        <==> final(self).state is Terminated))
                    &&& r is Err ==> final(self).state is Terminated
                }
            },
    {
        match self.state {
            TunnelState::Handshake => {
                return Err(TunnelError::NotReady);
            },
            TunnelState::Terminated | TunnelState::GracefullyDisconnected => {
                return Err(TunnelError::SocketDied);
            },
            TunnelState::Application => {},
        }
        match content_type {
            ContentType::ApplicationData => {
                match self.decrypt(payload.as_slice()) {
                    Ok(plain) => Ok(Received::Data(plain)),
                    Err(e) => {
                        self.state = TunnelState::Terminated;
                        match e {
                            TunnelError::Crypto(c) => Err(TunnelError::Crypto(c)),
                            _ => Err(TunnelError::UnexceptedError),
                        }
                    },
                }
            },
            ContentType::Alert => {
                if payload.len() == 0 {
                    self.state = TunnelState::Terminated;
                    return Err(TunnelError::IoWrapper(IoWrapperError::NoPayload));
                }
                let (is_encrypted, is_fatal) = read_alert_flags(payload[0]);
                if !is_encrypted {
                    return Ok(Received::Ignored);
                }
                let body = slice_subrange(payload.as_slice(), 1, payload.len());
                let plain = match self.decrypt(body) {
                    Ok(p) => p,
                    Err(e) => {
                        self.state = TunnelState::Terminated;
                        return match e {
                            TunnelError::Crypto(c) => Err(TunnelError::Crypto(c)),
                            _ => Err(TunnelError::UnexceptedError),
                        };
                    },
                };
                let alert = match Alert::deserialize(plain.as_slice()) {
                    Some(a) => a,
                    None => {
                        self.state = TunnelState::Terminated;
                        return Err(TunnelError::InvalidPayload);
                    },
                };
                if is_fatal {
                    self.state = TunnelState::Terminated;
                }
                Ok(Received::Alert(alert))
            },
            ContentType::Handshake => {
                self.state = TunnelState::Terminated;
                Err(
                    TunnelError::InappropriateMessage {
                        expected_types: expected_application_types(),
                        got: ContentType::Handshake,
                    },
                )
            },
        }
    }
}

/// The content types that a tunnel accepts after its handshake.
fn expected_application_types() -> (r: Vec<ContentType>)
    ensures
        r@ == seq![ContentType::ApplicationData, ContentType::Alert],
{
    let mut types: Vec<ContentType> = Vec::new();
    types.push(ContentType::ApplicationData);
    types.push(ContentType::Alert);
    assert(types@ =~= seq![ContentType::ApplicationData, ContentType::Alert]);
    types
}

} // verus!
