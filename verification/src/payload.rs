//! Record-level constants and the record data types.

use vstd::prelude::*;

use crate::sub_protocol::ContentType;

verus! {

/// Number of bytes in a record header on the wire:
/// `version (2) + content_type (1) + length (2)`.
pub const HEADER_LENGTH: u16 = 5;

/// Maximum length of a record payload.
pub const MAX_PAYLOAD_LENGTH: u16 = u16::MAX - HEADER_LENGTH + 1;

/// pTLS payload header, standard across all versions.
#[derive(Clone, Copy)]
pub struct Header {
    pub version: u16,
    /// Indicates the sub-protocol which the message belongs to.
    pub content_type: ContentType,
    pub length: u16,
}

/// pTLS payload.
pub struct Payload<'a> {
    pub header: Header,
    pub payload: &'a [u8],
}

/// Owned variant of pTLS payload.
pub struct OwnedPayload {
    pub header: Header,
    pub payload: Vec<u8>,
}

impl Payload<'_> {
    /// Consumes `Payload`, returning `OwnedPayload`.
    pub fn into_owned(self) -> (r: OwnedPayload)
        ensures
            r.header == self.header,
            r.payload@ == self.payload@,
    {
        OwnedPayload {
            header: self.header,
            payload: vstd::slice::slice_to_vec(self.payload),
        }
    }
}

/// Content type tags of the legacy payload framing.
#[derive(Debug, Clone, Copy, PartialEq, Eq, Structural)]
pub enum PtlsPayloadType {
    PublicKey,
    EncryptedTraffic,
}

impl PtlsPayloadType {
    /// The legacy payload type that a wire id denotes, if any.
    pub open spec fn spec_try_from(value: u8) -> Option<PtlsPayloadType> {
        if value == 0 {
            Some(PtlsPayloadType::PublicKey)
        } else if value == 1 {
            Some(PtlsPayloadType::EncryptedTraffic)
        } else {
            None
        }
    }

    /// Decodes a wire id into a legacy payload type.
    pub fn try_from(value: u8) -> (r: Option<PtlsPayloadType>)
        ensures
            r == Self::spec_try_from(value),
    {
        match value {
            0 => Some(PtlsPayloadType::PublicKey),
            1 => Some(PtlsPayloadType::EncryptedTraffic),
            _ => None,
        }
    }
}

/// A single framed payload together with its header fields.
pub struct PtlsPayload {
    /// Content type of the payload.
    pub content_type: PtlsPayloadType,
    /// Reserved for future use.
    pub version: u16,
    /// Length of the payload.
    pub length: u16,
    /// Encrypted payload.
    pub payload: Vec<u8>,
}

impl PtlsPayload {
    /// Wraps a payload, recording its length in the header field.
    pub fn new(payload: Vec<u8>, content_type: PtlsPayloadType) -> (r: PtlsPayload)
        requires
            payload@.len() <= u16::MAX,
        ensures
            r.content_type == content_type,
            r.version == 0,
            r.length == payload@.len(),
            r.payload@ == payload@,
    {
        let length = payload.len() as u16;
        PtlsPayload { content_type, version: 0, length, payload }
    }
}

/// Calculates the maximum carrier payload length that a stream of
/// block-encrypted records can carry, for blocks with a constant
/// 11-byte overhead and a 5-byte record header.
pub fn max_payload_size(block_size: u16) -> (r: u16)
    requires
        block_size >= 12,
    ensures
        r == (block_size - 11) * (u16::MAX / block_size) - 5,
{
    let block_count = u16::MAX / block_size;
    proof {
        lemma_max_payload_size_fits(block_size as int, block_count as int);
    }
    (block_size - 11) * block_count - 5
}

/// The arithmetic in `max_payload_size` stays inside `u16` bounds.
proof fn lemma_max_payload_size_fits(bs: int, bc: int)
    requires
        12 <= bs <= 0xffffint,
        bc == 0xffffint / bs,
    ensures
        5 <= (bs - 11) * bc <= 0xffffint,
{
    vstd::arithmetic::div_mod::lemma_fundamental_div_mod(0xffffint, bs);
    vstd::arithmetic::div_mod::lemma_mod_bound(0xffffint, bs);
    assert(bs * bc <= 0xffffint);
    vstd::arithmetic::mul::lemma_mul_inequality(bs - 11, bs, bc);
    assert((bs - 11) * bc <= bs * bc) by {
        vstd::arithmetic::mul::lemma_mul_is_commutative(bs - 11, bc);
        vstd::arithmetic::mul::lemma_mul_is_commutative(bs, bc);
    }
    if bs <= 16 {
        assert(bc >= 0xffffint / 16) by {
            vstd::arithmetic::div_mod::lemma_div_is_ordered_by_denominator(0xffffint, bs, 16);
        }
        vstd::arithmetic::mul::lemma_mul_inequality(1, bs - 11, bc);
    } else {
        assert(bc >= 1) by {
            vstd::arithmetic::div_mod::lemma_div_is_ordered_by_denominator(0xffffint, bs, 0xffff);
        }
        vstd::arithmetic::mul::lemma_mul_inequality(1, bc, bs - 11);
        vstd::arithmetic::mul::lemma_mul_is_commutative(bs - 11, bc);
    }
}

} // verus!
