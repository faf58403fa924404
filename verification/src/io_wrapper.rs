//! The record framer: every pTLS message travels inside a framed record
//! `version(2) ‖ content_type(1) ‖ length(2) ‖ payload`, in network byte
//! order, with `1 <= length <= MAX_PAYLOAD_LENGTH`.
//!
//! The functions here are the computational half of sending and
//! receiving records: [`encode_record`] builds the exact bytes that a
//! carrier must write, and [`parse_header`] / [`decode_record`] validate
//! and split the bytes a carrier has read.

use vstd::prelude::*;

use vstd::slice::slice_subrange;
use vstd::slice::slice_to_vec;

use crate::payload::HEADER_LENGTH;
use crate::payload::MAX_PAYLOAD_LENGTH;
use crate::sub_protocol::ContentType;
use crate::wire::lemma_u16_be_round_trip;
use crate::wire::push_u16_be;
use crate::wire::read_u16_be;
use crate::wire::spec_u16_be;
use crate::wire::spec_u16_of_be;
use crate::PTLS_VERSION;

verus! {

/// IO wrapper error types.
#[derive(Debug)]
pub enum IoWrapperError {
    /// An error occurred while reading from or writing to the buffer.
    Io(std::io::Error),
    /// Provided content type is not valid, possibly due to a network
    /// failure.  The connection is terminated after this error.
    UnknownContentType(u8),
    /// The message contains no payload.
    NoPayload,
    /// Provided content length invalidates reserved bytes, indicating a
    /// fatal buffer error if received from peer.
    MessageTooLong(usize),
    /// The protocol version of the message is not valid or supported.
    InappropriateVersion(u16),
}

#[verifier::external_type_specification]
#[verifier::external_body]
pub struct ExIoError(std::io::Error);

impl From<std::io::Error> for IoWrapperError {
    fn from(error: std::io::Error) -> (r: Self) {
        IoWrapperError::Io(error)
    }
}

impl vstd::std_specs::convert::FromSpecImpl<std::io::Error> for IoWrapperError {
    open spec fn obeys_from_spec() -> bool {
        true
    }

    open spec fn from_spec(error: std::io::Error) -> Self {
        IoWrapperError::Io(error)
    }
}

/// The wire bytes of a record: header fields in network byte order,
/// then the payload.
pub open spec fn spec_encode_record(content_type: ContentType, payload: Seq<u8>) -> Seq<u8> {
    spec_u16_be(PTLS_VERSION) + seq![content_type.spec_id()] + spec_u16_be(payload.len() as u16)
        + payload
}

/// The version field of a buffer that starts with a record header.
pub open spec fn spec_record_version(b: Seq<u8>) -> u16 {
    spec_u16_of_be(b[0], b[1])
}

/// The length field of a buffer that starts with a record header.
pub open spec fn spec_record_length(b: Seq<u8>) -> u16 {
    spec_u16_of_be(b[3], b[4])
}

/// Whether a record header passes the receive-side checks: the version
/// is the supported one and the length is within bounds.
pub open spec fn spec_header_accepted(b: Seq<u8>) -> bool {
    &&& spec_record_version(b) == PTLS_VERSION
    &&& 1 <= spec_record_length(b) <= MAX_PAYLOAD_LENGTH
}

/// The record that a buffer starts with, if it holds a whole acceptable
/// one: the content type and the payload.
pub open spec fn spec_decode_record(b: Seq<u8>) -> Option<(ContentType, Seq<u8>)> {
    if b.len() >= HEADER_LENGTH && spec_header_accepted(b) && b.len() >= HEADER_LENGTH
        + spec_record_length(b) && ContentType::spec_try_from(b[2]) is Some {
        Some(
            (
                ContentType::spec_try_from(b[2]).unwrap(),
                b.subrange(HEADER_LENGTH as int, HEADER_LENGTH + spec_record_length(b)),
            ),
        )
    } else {
        None
    }
}

/// Builds the wire bytes of a record carrying `payload`.
///
/// An empty payload is rejected with `NoPayload` and an oversize one
/// with `MessageTooLong`; every other payload is accepted and framed.
pub fn encode_record(content_type: ContentType, payload: &[u8]) -> (r: Result<
    Vec<u8>,
    IoWrapperError,
>)
    ensures
        payload@.len() > MAX_PAYLOAD_LENGTH ==> (r matches Err(IoWrapperError::MessageTooLong(l))
            && l == payload@.len()),
        payload@.len() == 0 ==> r matches Err(IoWrapperError::NoPayload),
        1 <= payload@.len() <= MAX_PAYLOAD_LENGTH ==> (r matches Ok(v) && v@ == spec_encode_record(
            content_type,
            payload@,
        ) && v@.len() == HEADER_LENGTH + payload@.len()),
{
    if payload.len() > MAX_PAYLOAD_LENGTH as usize {
        return Err(IoWrapperError::MessageTooLong(payload.len()));
    }
    if payload.len() == 0 {
        return Err(IoWrapperError::NoPayload);
    }
    let mut frame: Vec<u8> = Vec::new();
    push_u16_be(&mut frame, PTLS_VERSION);
    frame.push(content_type.id());
    push_u16_be(&mut frame, payload.len() as u16);
    frame.extend_from_slice(payload);
    assert(frame@ =~= spec_encode_record(content_type, payload@));
    Ok(frame)
}

/// Validates the five header bytes of an inbound record.
///
/// The version must be the supported one and the length within bounds;
/// the raw content type byte and the length are handed back unchecked,
/// so that a caller can consume the payload before it rejects an
/// unknown content type.
pub fn parse_header(header: &[u8]) -> (r: Result<(u8, u16), IoWrapperError>)
    requires
        header@.len() == HEADER_LENGTH,
    ensures
        spec_record_version(header@) != PTLS_VERSION ==> (r matches Err(
            IoWrapperError::InappropriateVersion(v),
        ) && v == spec_record_version(header@)),
        spec_record_version(header@) == PTLS_VERSION && spec_record_length(header@) == 0 ==> r
            matches Err(IoWrapperError::NoPayload),
        spec_record_version(header@) == PTLS_VERSION && spec_record_length(header@)
            > MAX_PAYLOAD_LENGTH ==> (r matches Err(IoWrapperError::MessageTooLong(l)) && l
            == spec_record_length(header@)),
        spec_header_accepted(header@) <==> r is Ok,
        r matches Ok(h) ==> h.0 == header@[2] && h.1 == spec_record_length(header@),
{
    let version = read_u16_be(header[0], header[1]);
    let content_type = header[2];
    let length = read_u16_be(header[3], header[4]);
    if version != PTLS_VERSION {
        return Err(IoWrapperError::InappropriateVersion(version));
    }
    if length == 0 {
        return Err(IoWrapperError::NoPayload);
    }
    if length > MAX_PAYLOAD_LENGTH {
        return Err(IoWrapperError::MessageTooLong(length as usize));
    }
    Ok((content_type, length))
}

/// Splits one whole record off the front of `buf`.
///
/// Returns the receive result together with the number of bytes
/// consumed from `buf`: nothing on a rejected header, and exactly
/// `HEADER_LENGTH + length` bytes otherwise — also when the content
/// type is unknown, so that a caller that retries stays aligned with
/// the record boundaries.
pub fn decode_record(buf: &[u8]) -> (r: (Result<(ContentType, Vec<u8>), IoWrapperError>, usize))
    requires
        buf@.len() >= HEADER_LENGTH,
        spec_header_accepted(buf@) ==> buf@.len() >= HEADER_LENGTH + spec_record_length(buf@),
    ensures
        spec_record_version(buf@) != PTLS_VERSION ==> (r.0 matches Err(
            IoWrapperError::InappropriateVersion(v),
        ) && v == spec_record_version(buf@) && r.1 == 0),
        spec_record_version(buf@) == PTLS_VERSION && spec_record_length(buf@) == 0 ==> (r.0 matches
            Err(IoWrapperError::NoPayload) && r.1 == 0),
        spec_record_version(buf@) == PTLS_VERSION && spec_record_length(buf@) > MAX_PAYLOAD_LENGTH
            ==> (r.0 matches Err(IoWrapperError::MessageTooLong(l)) && l == spec_record_length(
            buf@,
        ) && r.1 == 0),
        spec_header_accepted(buf@) && ContentType::spec_try_from(buf@[2]) is None ==> (r.0 matches
            Err(IoWrapperError::UnknownContentType(c)) && c == buf@[2] && r.1 == HEADER_LENGTH
            + spec_record_length(buf@)),
        spec_header_accepted(buf@) && ContentType::spec_try_from(buf@[2]) is Some ==> (r.0 matches
            Ok(p) && Some((p.0, p.1@)) == spec_decode_record(buf@) && r.1 == HEADER_LENGTH
            + spec_record_length(buf@)),
{
    let header = slice_subrange(buf, 0, HEADER_LENGTH as usize);
    let (content_type_byte, length) = match parse_header(header) {
        Ok(h) => h,
        Err(e) => {
            return (Err(e), 0);
        },
    };
    let consumed = HEADER_LENGTH as usize + length as usize;
    match ContentType::try_from(content_type_byte) {
        Some(content_type) => {
            let payload = slice_to_vec(
                slice_subrange(buf, HEADER_LENGTH as usize, consumed),
            );
            (Ok((content_type, payload)), consumed)
        },
        None => (Err(IoWrapperError::UnknownContentType(content_type_byte)), consumed),
    }
}

/// Record round-trip: a framed record, received back, yields the same
/// content type and payload, and occupies exactly `HEADER_LENGTH +
/// length` bytes on the wire.
pub proof fn lemma_record_round_trip(content_type: ContentType, payload: Seq<u8>)
    requires
        1 <= payload.len() <= MAX_PAYLOAD_LENGTH,
    ensures
        spec_encode_record(content_type, payload).len() == HEADER_LENGTH + payload.len(),
        spec_decode_record(spec_encode_record(content_type, payload)) == Some(
            (content_type, payload),
        ),
{
    let b = spec_encode_record(content_type, payload);
    lemma_u16_be_round_trip(PTLS_VERSION);
    lemma_u16_be_round_trip(payload.len() as u16);
    assert(b[0] == spec_u16_be(PTLS_VERSION)[0] && b[1] == spec_u16_be(PTLS_VERSION)[1]);
    assert(b[3] == spec_u16_be(payload.len() as u16)[0] && b[4] == spec_u16_be(
        payload.len() as u16,
    )[1]);
    assert(spec_record_version(b) == PTLS_VERSION);
    assert(spec_record_length(b) == payload.len());
    assert(b[2] == content_type.spec_id());
    crate::sub_protocol::lemma_content_type_id_round_trip(content_type.spec_id());
    assert(b.subrange(HEADER_LENGTH as int, HEADER_LENGTH + spec_record_length(b)) =~= payload);
}

} // verus!
