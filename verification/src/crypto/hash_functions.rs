//! The closed set of hash functions that pTLS supports.  Each hash has
//! a numeric wire id, so that the negotiated hashes travel as a single
//! byte, and a fixed output size that determines the padding overhead
//! of the RSA primitives built with it.

use vstd::prelude::*;

use super::CryptoError;

verus! {

/// Hash functions supported by pTLS.
#[derive(Debug, Clone, Copy, PartialEq, Eq, Structural)]
pub enum HashFunction {
    Sha224,
    Sha256,
    Sha384,
    Sha512,
}

impl HashFunction {
    /// The numeric id of this hash function on the wire.
    pub open spec fn spec_id(self) -> u8 {
        match self {
            HashFunction::Sha224 => 0,
            HashFunction::Sha256 => 1,
            HashFunction::Sha384 => 2,
            HashFunction::Sha512 => 3,
        }
    }

    /// Returns the numeric id of this hash function on the wire.
    pub fn id(&self) -> (r: u8)
        ensures
            r == self.spec_id(),
    {
        match self {
            HashFunction::Sha224 => 0,
            HashFunction::Sha256 => 1,
            HashFunction::Sha384 => 2,
            HashFunction::Sha512 => 3,
        }
    }

    /// The hash function that a wire id denotes, if any.
    pub open spec fn spec_try_from(value: u8) -> Option<HashFunction> {
        if value == 0 {
            Some(HashFunction::Sha224)
        } else if value == 1 {
            Some(HashFunction::Sha256)
        } else if value == 2 {
            Some(HashFunction::Sha384)
        } else if value == 3 {
            Some(HashFunction::Sha512)
        } else {
            None
        }
    }

    /// Decodes a wire id into a hash function.
    ///
    /// An id outside the registry is rejected with
    /// `InvalidHashFunction`.
    pub fn try_from(value: u8) -> (r: Result<HashFunction, CryptoError>)
        ensures
            r matches Ok(h) ==> Self::spec_try_from(value) == Some(h),
            Self::spec_try_from(value) is Some <==> r is Ok,
            Self::spec_try_from(value) is None <==> r matches Err(
                CryptoError::InvalidHashFunction,
            ),
    {
        match value {
            0 => Ok(HashFunction::Sha224),
            1 => Ok(HashFunction::Sha256),
            2 => Ok(HashFunction::Sha384),
            3 => Ok(HashFunction::Sha512),
            _ => Err(CryptoError::InvalidHashFunction),
        }
    }

    /// The output size of this hash function, in bytes.
    pub open spec fn spec_output_size(self) -> usize {
        match self {
            HashFunction::Sha224 => 28,
            HashFunction::Sha256 => 32,
            HashFunction::Sha384 => 48,
            HashFunction::Sha512 => 64,
        }
    }

    /// Returns the output size of this hash function, in bytes.
    pub fn output_size(&self) -> (r: usize)
        ensures
            r == self.spec_output_size(),
            28 <= r <= 64,
    {
        match self {
            HashFunction::Sha224 => 28,
            HashFunction::Sha256 => 32,
            HashFunction::Sha384 => 48,
            HashFunction::Sha512 => 64,
        }
    }

    /// Decoding a hash function id and encoding it back returns the
    /// same id.
    pub proof fn lemma_id_round_trip()
        ensures
            forall|h: HashFunction| #[trigger] HashFunction::spec_try_from(h.spec_id()) == Some(h),
            forall|value: u8|
                (#[trigger] HashFunction::spec_try_from(value)) matches Some(h) ==> h.spec_id()
                    == value,
    {
    }
}

} // verus!
