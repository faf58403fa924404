//! pTLS provides three sub-protocols for categorizing and handling
//! messages.
//!
//! Typically, during a pTLS connection, `ApplicationData` records follow
//! the handshake phase.  `Alert` messages are sent if an error occurs.

use vstd::prelude::*;

/// The alerting sub-protocol notifies the peer of errors.
pub mod alert;
/// A sub-protocol for key exchange.
pub mod handshake;

pub use alert::Alert;


verus! {

/// Content type of the message.
#[derive(Debug, Clone, Copy, PartialEq, Eq, Structural)]
pub enum ContentType {
    /// The first byte of the record payload carries an inner handshake
    /// content type; the rest is the encoded handshake message.
    Handshake,
    /// Application-specific data that is always encrypted.
    ApplicationData,
    /// The first byte of the record payload carries the alert flags.
    Alert,
}

impl ContentType {
    /// The numeric id of this content type on the wire.
    pub open spec fn spec_id(self) -> u8 {
        match self {
            ContentType::Handshake => 0,
            ContentType::ApplicationData => 1,
            ContentType::Alert => 2,
        }
    }

    /// Returns the numeric id of this content type on the wire.
    pub fn id(&self) -> (r: u8)
        ensures
            r == self.spec_id(),
    {
        match self {
            ContentType::Handshake => 0,
            ContentType::ApplicationData => 1,
            ContentType::Alert => 2,
        }
    }

    /// The content type that a wire id denotes, if any.
    pub open spec fn spec_try_from(value: u8) -> Option<ContentType> {
        if value == 0 {
            Some(ContentType::Handshake)
        } else if value == 1 {
            Some(ContentType::ApplicationData)
        } else if value == 2 {
            Some(ContentType::Alert)
        } else {
            None
        }
    }

    /// Decodes a wire id into a content type.
    pub fn try_from(value: u8) -> (r: Option<ContentType>)
        ensures
            r == Self::spec_try_from(value),
    {
        match value {
            0 => Some(ContentType::Handshake),
            1 => Some(ContentType::ApplicationData),
            2 => Some(ContentType::Alert),
            _ => None,
        }
    }
}

/// Decoding a content type id and encoding it back returns the same id.
pub proof fn lemma_content_type_id_round_trip(value: u8)
    ensures
        ContentType::spec_try_from(value) matches Some(ct) ==> ct.spec_id() == value,
        forall|ct: ContentType| #[trigger] ContentType::spec_try_from(ct.spec_id()) == Some(ct),
{
}

} // verus!
