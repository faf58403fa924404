//! The alerting sub-protocol notifies the peer of errors.
//!
//! An alert record's first payload byte packs two flags — bit 0 says
//! whether the body is encrypted, bit 1 whether the alert is fatal —
//! and the remaining bits are reserved.  Alerts sent before the
//! handshake completes are unencrypted; after completion they must be
//! encrypted, and unencrypted ones are ignored.
//!
//! The alert body is encoded deterministically: one byte of variant
//! tag, then the variant's fields (an inner error as one byte; a list
//! of content types as a 64-bit little-endian count and one byte per
//! entry).

use vstd::prelude::*;

use vstd::bytes::spec_u64_to_le_bytes;

use super::handshake::HandshakeError;
use super::ContentType;
use crate::wire::push_u64_le;
use crate::wire::spec_take_u64_le;
use crate::wire::take_u64_le;

verus! {

/// Message types sent in the `alert` sub-protocol.
#[derive(Debug, PartialEq, Eq)]
pub enum Alert {
    /// Error occurring during the `handshake` phase; always fatal.
    HandshakeError(HandshakeError),
    /// The random sent in `ApplicationData` or `Alert` itself is not
    /// valid.
    InvalidRandom,
    /// A message could not be decrypted.  This should not occur in
    /// properly implemented pTLS systems.
    DecryptError,
    /// Received a pTLS message that is not valid right now.
    InappropriateMessage {
        expected_types: Vec<ContentType>,
        got: ContentType,
    },
    /// The peer announces a new public key.  The variant is declared
    /// for the wire format; the tunnel state machine does not act on
    /// it yet.
    KeyUpdate {
        new_public_key: Vec<u8>,
    },
}

/// The mathematical contents of an [`Alert`].
pub enum AlertView {
    HandshakeError(HandshakeError),
    InvalidRandom,
    DecryptError,
    InappropriateMessage { expected_types: Seq<ContentType>, got: ContentType },
    KeyUpdate { new_public_key: Seq<u8> },
}

impl View for Alert {
    type V = AlertView;

    open spec fn view(&self) -> AlertView {
        match self {
            Alert::HandshakeError(e) => AlertView::HandshakeError(*e),
            Alert::InvalidRandom => AlertView::InvalidRandom,
            Alert::DecryptError => AlertView::DecryptError,
            Alert::InappropriateMessage { expected_types, got } => {
                AlertView::InappropriateMessage { expected_types: expected_types@, got: *got }
            },
            Alert::KeyUpdate { new_public_key } => {
                AlertView::KeyUpdate { new_public_key: new_public_key@ }
            },
        }
    }
}

/// The wire id of a handshake error inside an alert body.
pub open spec fn spec_handshake_error_id(e: HandshakeError) -> u8 {
    match e {
        HandshakeError::InappropriatePublicKey => 0,
        HandshakeError::UnknownCa => 1,
        HandshakeError::InvalidSignature => 2,
        HandshakeError::InvalidRandom => 3,
        HandshakeError::InvalidContentType => 4,
    }
}

/// The handshake error that a wire id denotes, if any.
pub open spec fn spec_handshake_error_of_id(value: u8) -> Option<HandshakeError> {
    if value == 0 {
        Some(HandshakeError::InappropriatePublicKey)
    } else if value == 1 {
        Some(HandshakeError::UnknownCa)
    } else if value == 2 {
        Some(HandshakeError::InvalidSignature)
    } else if value == 3 {
        Some(HandshakeError::InvalidRandom)
    } else if value == 4 {
        Some(HandshakeError::InvalidContentType)
    } else {
        None
    }
}

/// Returns the wire id of a handshake error inside an alert body.
pub fn handshake_error_id(e: &HandshakeError) -> (r: u8)
    ensures
        r == spec_handshake_error_id(*e),
{
    match e {
        HandshakeError::InappropriatePublicKey => 0,
        HandshakeError::UnknownCa => 1,
        HandshakeError::InvalidSignature => 2,
        HandshakeError::InvalidRandom => 3,
        HandshakeError::InvalidContentType => 4,
    }
}

/// Decodes a wire id into a handshake error.
pub fn handshake_error_of_id(value: u8) -> (r: Option<HandshakeError>)
    ensures
        r == spec_handshake_error_of_id(value),
{
    match value {
        0 => Some(HandshakeError::InappropriatePublicKey),
        1 => Some(HandshakeError::UnknownCa),
        2 => Some(HandshakeError::InvalidSignature),
        3 => Some(HandshakeError::InvalidRandom),
        4 => Some(HandshakeError::InvalidContentType),
        _ => None,
    }
}

/// The sequence of wire ids of a list of content types.
pub open spec fn spec_content_type_ids(s: Seq<ContentType>) -> Seq<u8> {
    s.map_values(|ct: ContentType| ct.spec_id())
}

/// The encoded bytes of an alert body.
pub open spec fn spec_encode_alert(a: AlertView) -> Seq<u8> {
    match a {
        AlertView::HandshakeError(e) => seq![0u8, spec_handshake_error_id(e)],
        AlertView::InvalidRandom => seq![1u8],
        AlertView::DecryptError => seq![2u8],
        AlertView::InappropriateMessage { expected_types, got } => {
            seq![3u8] + spec_u64_to_le_bytes(expected_types.len() as u64) + spec_content_type_ids(
                expected_types,
            ) + seq![got.spec_id()]
        },
        AlertView::KeyUpdate { new_public_key } => {
            seq![4u8] + crate::wire::spec_lp_bytes(new_public_key)
        },
    }
}

/// The alert body at the front of a buffer, if it holds one; trailing
/// bytes are ignored.
pub open spec fn spec_parse_alert(b: Seq<u8>) -> Option<AlertView> {
    if b.len() < 1 {
        None
    } else if b[0] == 0 {
        if b.len() >= 2 {
            match spec_handshake_error_of_id(b[1]) {
                Some(e) => Some(AlertView::HandshakeError(e)),
                None => None,
            }
        } else {
            None
        }
    } else if b[0] == 1 {
        Some(AlertView::InvalidRandom)
    } else if b[0] == 2 {
        Some(AlertView::DecryptError)
    } else if b[0] == 3 {
        match spec_take_u64_le(b, 1) {
            Some((count, pos)) => {
                if pos + count as int + 1 <= b.len() {
                    let ids = b.subrange(pos, pos + count as int);
                    if forall|i: int|
                        0 <= i < ids.len() ==> ContentType::spec_try_from(#[trigger] ids[i])
                            is Some {
                        if ContentType::spec_try_from(b[pos + count as int]) is Some {
                        Some(
                            AlertView::InappropriateMessage {
                                expected_types: ids.map_values(
                                    |id: u8| ContentType::spec_try_from(id).unwrap(),
                                ),
                                got: ContentType::spec_try_from(b[pos + count as int]).unwrap(),
                            },
                        )
                        } else {
                            None
                        }
                    } else {
                        None
                    }
                } else {
                    None
                }
            },
            None => None,
        }
    } else if b[0] == 4 {
        match crate::wire::spec_take_lp_bytes(b, 1) {
            Some((new_public_key, _)) => Some(AlertView::KeyUpdate { new_public_key }),
            None => None,
        }
    } else {
        None
    }
}

impl Alert {
    /// Encodes this alert body.
    pub fn serialize(&self) -> (r: Vec<u8>)
        ensures
            r@ == spec_encode_alert(self@),
    {
        match self {
            Alert::HandshakeError(e) => {
                let mut out: Vec<u8> = Vec::new();
                out.push(0);
                out.push(handshake_error_id(e));
                assert(out@ =~= spec_encode_alert(self@));
                out
            },
            Alert::InvalidRandom => {
                let mut out: Vec<u8> = Vec::new();
                out.push(1);
                assert(out@ =~= spec_encode_alert(self@));
                out
            },
            Alert::DecryptError => {
                let mut out: Vec<u8> = Vec::new();
                out.push(2);
                assert(out@ =~= spec_encode_alert(self@));
                out
            },
            Alert::InappropriateMessage { expected_types, got } => {
                let mut out: Vec<u8> = Vec::new();
                out.push(3);
                push_u64_le(&mut out, expected_types.len() as u64);
                let mut i: usize = 0;
                while i < expected_types.len()
                    invariant
                        i <= expected_types@.len(),
                        out@ == seq![3u8] + spec_u64_to_le_bytes(expected_types@.len() as u64)
                            + spec_content_type_ids(expected_types@.take(i as int)),
                    decreases expected_types@.len() - i,
                {
                    out.push(expected_types[i].id());
                    assert(expected_types@.take(i + 1) =~= expected_types@.take(i as int).push(
                        expected_types@[i as int],
                    ));
                    assert(spec_content_type_ids(expected_types@.take(i + 1)) =~=
                        spec_content_type_ids(expected_types@.take(i as int)).push(
                        expected_types@[i as int].spec_id(),
                    ));
                    i = i + 1;
                }
                out.push(got.id());
                assert(expected_types@.take(expected_types@.len() as int) =~= expected_types@);
                assert(out@ =~= spec_encode_alert(self@));
                out
            },
            Alert::KeyUpdate { new_public_key } => {
                let mut out: Vec<u8> = Vec::new();
                out.push(4);
                crate::wire::push_lp_bytes(&mut out, new_public_key.as_slice());
                assert(out@ =~= spec_encode_alert(self@));
                out
            },
        }
    }

    /// Decodes an alert body from the front of `buf`, ignoring
    /// trailing bytes.
    pub fn deserialize(buf: &[u8]) -> (r: Option<Alert>)
        ensures
            r matches Some(a) ==> spec_parse_alert(buf@) == Some(a@),
            r is None <==> spec_parse_alert(buf@) is None,
    {
        let buf_len: usize = buf.len();
        if buf_len < 1 {
            return None;
        }
        let tag = buf[0];
        if tag == 0 {
            if buf_len < 2 {
                return None;
            }
            match handshake_error_of_id(buf[1]) {
                Some(e) => Some(Alert::HandshakeError(e)),
                None => None,
            }
        } else if tag == 1 {
            Some(Alert::InvalidRandom)
        } else if tag == 2 {
            Some(Alert::DecryptError)
        } else if tag == 3 {
            if buf_len - 1 < 8 {
                return None;
            }
            let count = take_u64_le(buf, 1);
            if count > (buf_len - 9) as u64 || (buf_len - 9) as u64 - count < 1 {
                return None;
            }
            let count = count as usize;
            let ghost ids = buf@.subrange(9, 9 + count as int);
            let mut expected_types: Vec<ContentType> = Vec::new();
            let mut i: usize = 0;
            while i < count
                invariant
                    i <= count,
                    buf_len == buf@.len(),
                    9 + count < buf_len,
                    buf@[0] == 3,
                    spec_take_u64_le(buf@, 1) == Some((count as u64, 9int)),
                    ids == buf@.subrange(9, 9 + count as int),
                    expected_types@.len() == i,
                    forall|j: int|
                        0 <= j < i ==> ContentType::spec_try_from(#[trigger] ids[j]) == Some(
                            expected_types@[j],
                        ),
                decreases count - i,
            {
                match ContentType::try_from(buf[9 + i]) {
                    Some(ct) => expected_types.push(ct),
                    None => {
                        assert(ContentType::spec_try_from(
                            buf@.subrange(9, 9 + count as int)[i as int],
                        ) is None);
                        return None;
                    },
                }
                i = i + 1;
            }
            let got = match ContentType::try_from(buf[9 + count]) {
                Some(ct) => ct,
                None => {
                    assert(ContentType::spec_try_from(buf@[9 + count as int]) is None);
                    return None;
                },
            };
            proof {
                assert forall|j: int| 0 <= j < ids.len() implies ContentType::spec_try_from(
                    #[trigger] ids[j],
                ) is Some by {}
                assert(expected_types@ =~= ids.map_values(
                    |id: u8| ContentType::spec_try_from(id).unwrap(),
                ));
            }
            Some(Alert::InappropriateMessage { expected_types, got })
        } else if tag == 4 {
            match crate::wire::take_lp_bytes(buf, 1) {
                Some((new_public_key, _)) => Some(Alert::KeyUpdate { new_public_key }),
                None => None,
            }
        } else {
            None
        }
    }
}

/// The alert flags byte: bit 0 says whether the body is encrypted and
/// bit 1 whether the alert is fatal.
pub open spec fn spec_alert_flags(is_encrypted: bool, is_fatal: bool) -> u8 {
    if is_encrypted && is_fatal {
        3u8
    } else if is_fatal {
        2u8
    } else if is_encrypted {
        1u8
    } else {
        0u8
    }
}

/// Packs the alert flags into their byte.
pub fn alert_flags(is_encrypted: bool, is_fatal: bool) -> (r: u8)
    ensures
        r == spec_alert_flags(is_encrypted, is_fatal),
{
    if is_encrypted && is_fatal {
        3
    } else if is_fatal {
        2
    } else if is_encrypted {
        1
    } else {
        0
    }
}

/// Whether a flags byte has the `encrypted` bit set.
pub open spec fn spec_flags_encrypted(flags: u8) -> bool {
    flags & 1 == 1
}

/// Whether a flags byte has the `fatal` bit set.
pub open spec fn spec_flags_fatal(flags: u8) -> bool {
    flags & 2 == 2
}

/// Reads the two alert flags out of their byte; reserved bits are
/// ignored.
pub fn read_alert_flags(flags: u8) -> (r: (bool, bool))
    ensures
        r.0 == spec_flags_encrypted(flags),
        r.1 == spec_flags_fatal(flags),
{
    (flags & 1 == 1, flags & 2 == 2)
}

/// Packed alert flags read back as they were written.
pub proof fn lemma_alert_flags_round_trip(is_encrypted: bool, is_fatal: bool)
    ensures
        spec_flags_encrypted(spec_alert_flags(is_encrypted, is_fatal)) == is_encrypted,
        spec_flags_fatal(spec_alert_flags(is_encrypted, is_fatal)) == is_fatal,
{
    let f = spec_alert_flags(is_encrypted, is_fatal);
    assert(0 & 1 == 0 && 1 & 1 == 1 && 2 & 1 == 0 && 3 & 1 == 1) by (bit_vector);
    assert(0 & 2 == 0 && 1 & 2 == 0 && 2 & 2 == 2 && 3 & 2 == 2) by (bit_vector);
}

/// Encoding an alert body and decoding it back returns the same alert.
pub proof fn lemma_alert_round_trip(a: AlertView)
    requires
        a matches AlertView::InappropriateMessage { expected_types, .. } ==> expected_types.len()
            <= u64::MAX,
        a matches AlertView::KeyUpdate { new_public_key } ==> new_public_key.len() <= u64::MAX,
    ensures
        spec_parse_alert(spec_encode_alert(a)) == Some(a),
{
    let b = spec_encode_alert(a);
    match a {
        AlertView::HandshakeError(e) => {
            assert(b[0] == 0 && b[1] == spec_handshake_error_id(e));
        },
        AlertView::InvalidRandom => {
            assert(b[0] == 1);
        },
        AlertView::DecryptError => {
            assert(b[0] == 2);
        },
        AlertView::InappropriateMessage { expected_types, got } => {
            let ids = spec_content_type_ids(expected_types);
            let count = expected_types.len() as int;
            vstd::bytes::lemma_auto_spec_u64_to_from_le_bytes();
            assert(b[0] == 3);
            lemma_u64_le_round_trip_alert(b, count, ids, got);
            assert forall|i: int| 0 <= i < ids.len() implies ContentType::spec_try_from(
                #[trigger] ids[i],
            ) is Some by {
                crate::sub_protocol::lemma_content_type_id_round_trip(ids[i]);
                assert(ids[i] == expected_types[i].spec_id());
            }
            assert(b.subrange(9, 9 + count) =~= ids);
            assert(b[9 + count] == got.spec_id());
            crate::sub_protocol::lemma_content_type_id_round_trip(got.spec_id());
            assert(ids.map_values(|id: u8| ContentType::spec_try_from(id).unwrap())
                =~= expected_types);
        },
        AlertView::KeyUpdate { new_public_key } => {
            assert(b[0] == 4);
            crate::wire::lemma_lp_bytes_round_trip(seq![4u8], new_public_key, Seq::<u8>::empty());
            assert(b =~= seq![4u8] + crate::wire::spec_lp_bytes(new_public_key)
                + Seq::<u8>::empty());
        },
    }
}

/// The count field of an `InappropriateMessage` body reads back as the
/// number of entries that follow it.
proof fn lemma_u64_le_round_trip_alert(b: Seq<u8>, count: int, ids: Seq<u8>, got: ContentType)
    requires
        0 <= count <= u64::MAX,
        ids.len() == count,
        b == seq![3u8] + spec_u64_to_le_bytes(count as u64) + ids + seq![got.spec_id()],
    ensures
        spec_take_u64_le(b, 1) == Some((count as u64, 9int)),
{
    crate::wire::lemma_u64_le_round_trip(seq![3u8], count as u64, ids + seq![got.spec_id()]);
    assert(b =~= seq![3u8] + spec_u64_to_le_bytes(count as u64) + (ids + seq![got.spec_id()]));
}

} // verus!
