//! Post-handshake sending.

use vstd::prelude::*;

use crate::crypto::encryption::spec_block_count;
use crate::io_wrapper::IoWrapperError;
use crate::payload::MAX_PAYLOAD_LENGTH;
use crate::tunnel::TunnelError;
use crate::tunnel::Tunnel;
use crate::tunnel::TunnelState;

verus! {

impl Tunnel {
    /// Encrypts application data into the payload of one
    /// `ApplicationData` record.
    ///
    /// Sending is permitted only in the `Application` state:
    /// beforehand it fails with `NotReady`, after a fatal error with
    /// `SocketDied`.  Empty data cannot be framed (`NoPayload`), and
    /// data whose ciphertext exceeds a record (`MessageTooLong`) is
    /// reported without terminating the tunnel; a crypto failure is
    /// fatal.
    pub fn prepare_send(&mut self, payload: &[u8]) -> (r: Result<Vec<u8>, TunnelError>)
        requires
            old(self).wf(),
        ensures
            final(self).wf(),
            old(self).state is Handshake ==> (r matches Err(TunnelError::NotReady) && *final(self) == *old(self)),
            old(self).state is Terminated || old(self).state is GracefullyDisconnected ==> (r
                matches Err(TunnelError::SocketDied) && *final(self) == *old(self)),
            old(self).state is Application ==> {
                &&& r matches Ok(c) ==> (old(self).peer_encrypt matches Some(e) && c@.len()
                    == spec_block_count(payload@.len() as int, e.available_block_size as int)
                    * e.block_size && 1 <= c@.len() <= MAX_PAYLOAD_LENGTH && *final(self) == *old(
                    self,
                ))
                &&& payload@.len() == 0 ==> (r matches Err(
                    TunnelError::IoWrapper(IoWrapperError::NoPayload),
                ))
                &&& r matches Err(e) ==> (e is Crypto ==> final(self).state is Terminated)
                &&& r matches Err(e) ==> (!(e is Crypto) ==> *final(self) == *old(self) && e
                    is IoWrapper && (e->IoWrapper_0 is NoPayload || e->IoWrapper_0
                    is MessageTooLong))
                &&& r matches Err(e) ==> ((e is IoWrapper && e->IoWrapper_0 is NoPayload)
                    ==> payload@.len() == 0)
                &&& r matches Err(e) ==> ((e is IoWrapper && e->IoWrapper_0 is MessageTooLong)
                    ==> e->IoWrapper_0->MessageTooLong_0 == spec_block_count(
                    payload@.len() as int,
                    old(self).peer_encrypt.unwrap().available_block_size as int,
                ) * old(self).peer_encrypt.unwrap().block_size
                    && e->IoWrapper_0->MessageTooLong_0 > MAX_PAYLOAD_LENGTH)
            },
    {
        match self.state {
            TunnelState::Handshake => {
                return Err(TunnelError::NotReady);
            },
            TunnelState::Terminated | TunnelState::GracefullyDisconnected => {
                return Err(TunnelError::SocketDied);
            },
            TunnelState::Application => {},
        }
        if payload.len() == 0 {
            return Err(TunnelError::IoWrapper(IoWrapperError::NoPayload));
        }
        let peer_encrypt = match &self.peer_encrypt {
            Some(e) => e,
            None => {
                return Err(TunnelError::UnexceptedError);
            },
        };
        let ciphertext = match peer_encrypt.encrypt(payload) {
            Ok(c) => c,
            Err(e) => {
                self.state = TunnelState::Terminated;
                return Err(TunnelError::Crypto(e));
            },
        };
        proof {
            lemma_ciphertext_len(
                payload@.len() as int,
                peer_encrypt.available_block_size as int,
                peer_encrypt.block_size as int,
            );
        }
        if ciphertext.len() > MAX_PAYLOAD_LENGTH as usize {
            return Err(TunnelError::IoWrapper(IoWrapperError::MessageTooLong(ciphertext.len())));
        }
        Ok(ciphertext)
    }
}

/// A chunked ciphertext is empty exactly for empty plaintext.
proof fn lemma_ciphertext_len(n: int, avail: int, bs: int)
    requires
        avail >= 1,
        bs >= 1,
        n >= 0,
    ensures
        n == 0 ==> spec_block_count(n, avail) * bs == 0,
        n >= 1 ==> spec_block_count(n, avail) * bs >= 1,
{
    if n == 0 {
        vstd::arithmetic::div_mod::lemma_fundamental_div_mod_converse(avail - 1, avail, 0, avail - 1);
        assert(spec_block_count(0, avail) == 0);
    } else {
        assert(spec_block_count(n, avail) >= 1) by {
            vstd::arithmetic::div_mod::lemma_div_is_ordered(avail, n + avail - 1, avail);
            vstd::arithmetic::div_mod::lemma_div_by_self(avail);
        }
        vstd::arithmetic::mul::lemma_mul_inequality(1, spec_block_count(n, avail), bs);
        vstd::arithmetic::mul::lemma_mul_basics(bs);
        vstd::arithmetic::mul::lemma_mul_is_commutative(spec_block_count(n, avail), bs);
    }
}

} // verus!
