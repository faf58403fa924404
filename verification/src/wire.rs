//! Byte-level encoding helpers shared by the record framer and the
//! sub-protocol message codec.
//!
//! Multi-byte record header fields travel in network byte order
//! (big endian).  The structured handshake messages use a deterministic,
//! self-describing binary encoding whose integers are little endian and
//! whose variable-length fields are prefixed with their 64-bit length.

use vstd::prelude::*;

use vstd::bytes::spec_u64_from_le_bytes;
use vstd::bytes::spec_u64_to_le_bytes;
use vstd::bytes::u64_from_le_bytes;
use vstd::bytes::u64_to_le_bytes;
use vstd::slice::slice_subrange;
use vstd::slice::slice_to_vec;

verus! {

/// The two big-endian (network byte order) bytes of `x`.
pub open spec fn spec_u16_be(x: u16) -> Seq<u8> {
    seq![(x / 256) as u8, (x % 256) as u8]
}

/// The `u16` denoted by two big-endian bytes.
pub open spec fn spec_u16_of_be(b0: u8, b1: u8) -> u16 {
    (b0 as int * 256 + b1 as int) as u16
}

/// Reading back the two big-endian bytes of a `u16` returns the same
/// value, and every two-byte sequence is the encoding of its own value.
pub proof fn lemma_u16_be_round_trip(x: u16)
    ensures
        spec_u16_be(x).len() == 2,
        spec_u16_of_be(spec_u16_be(x)[0], spec_u16_be(x)[1]) == x,
        forall|b0: u8, b1: u8| #[trigger] spec_u16_be(spec_u16_of_be(b0, b1)) == seq![b0, b1],
{
    assert forall|b0: u8, b1: u8| #[trigger]
        spec_u16_be(spec_u16_of_be(b0, b1)) == seq![b0, b1] by {
        let v = spec_u16_of_be(b0, b1);
        assert(v == b0 as int * 256 + b1 as int);
        assert(v / 256 == b0 && v % 256 == b1) by {
            vstd::arithmetic::div_mod::lemma_fundamental_div_mod_converse(
                v as int,
                256,
                b0 as int,
                b1 as int,
            );
        }
        assert(spec_u16_be(v) =~= seq![b0, b1]);
    }
}

/// Appends the big-endian bytes of `x`.
pub fn push_u16_be(out: &mut Vec<u8>, x: u16)
    ensures
        final(out)@ == old(out)@ + spec_u16_be(x),
{
    out.push((x / 256) as u8);
    out.push((x % 256) as u8);
    assert(final(out)@ =~= old(out)@ + spec_u16_be(x));
}

/// Combines two big-endian bytes into the `u16` they denote.
pub fn read_u16_be(b0: u8, b1: u8) -> (r: u16)
    ensures
        r == spec_u16_of_be(b0, b1),
{
    (b0 as u16) * 256 + (b1 as u16)
}

/// A byte string prefixed with its length as a little-endian `u64`.
pub open spec fn spec_lp_bytes(b: Seq<u8>) -> Seq<u8> {
    spec_u64_to_le_bytes(b.len() as u64) + b
}

/// Appends `b`, prefixed with its length as a little-endian `u64`.
pub fn push_lp_bytes(out: &mut Vec<u8>, b: &[u8])
    ensures
        final(out)@ == old(out)@ + spec_lp_bytes(b@),
{
    let mut len_bytes = u64_to_le_bytes(b.len() as u64);
    out.append(&mut len_bytes);
    out.extend_from_slice(b);
    assert(final(out)@ =~= old(out)@ + spec_lp_bytes(b@));
}

/// Reads the little-endian `u64` at `pos`.
pub fn take_u64_le(buf: &[u8], pos: usize) -> (r: u64)
    requires
        pos + 8 <= buf@.len(),
    ensures
        r == spec_u64_from_le_bytes(buf@.subrange(pos as int, pos as int + 8)),
{
    let _len: usize = buf.len();
    let s = slice_subrange(buf, pos, pos + 8);
    u64_from_le_bytes(s)
}

/// The length-prefixed byte string at `pos` of `buf`, if `buf` holds one
/// there: the payload together with the position just past it.
pub open spec fn spec_take_lp_bytes(buf: Seq<u8>, pos: int) -> Option<(Seq<u8>, int)> {
    if pos + 8 <= buf.len() {
        let n = spec_u64_from_le_bytes(buf.subrange(pos, pos + 8)) as int;
        if pos + 8 + n <= buf.len() {
            Some((buf.subrange(pos + 8, pos + 8 + n), pos + 8 + n))
        } else {
            None
        }
    } else {
        None
    }
}

/// Reads a length-prefixed byte string at `pos`, returning the payload
/// and the position just past it.
pub fn take_lp_bytes(buf: &[u8], pos: usize) -> (r: Option<(Vec<u8>, usize)>)
    requires
        pos <= buf@.len(),
    ensures
        r matches Some(p) ==> {
            &&& spec_take_lp_bytes(buf@, pos as int) matches Some(q)
            &&& p.0@ == q.0
            &&& p.1 == q.1
            &&& pos < p.1 <= buf@.len()
        },
        r is None <==> spec_take_lp_bytes(buf@, pos as int) is None,
{
    if buf.len() - pos < 8 {
        return None;
    }
    let n = take_u64_le(buf, pos);
    if n > (buf.len() - pos - 8) as u64 {
        return None;
    }
    let n = n as usize;
    let payload = slice_to_vec(slice_subrange(buf, pos + 8, pos + 8 + n));
    Some((payload, pos + 8 + n))
}

/// Reading back an appended length-prefixed byte string returns the
/// payload unchanged, whatever follows it in the buffer.
pub proof fn lemma_lp_bytes_round_trip(prefix: Seq<u8>, b: Seq<u8>, rest: Seq<u8>)
    requires
        b.len() <= u64::MAX,
    ensures
        spec_take_lp_bytes(prefix + spec_lp_bytes(b) + rest, prefix.len() as int) == Some(
            (b, prefix.len() as int + 8 + b.len() as int),
        ),
{
    let buf = prefix + spec_lp_bytes(b) + rest;
    let pos = prefix.len() as int;
    vstd::bytes::lemma_auto_spec_u64_to_from_le_bytes();
    assert(buf.subrange(pos, pos + 8) =~= spec_u64_to_le_bytes(b.len() as u64));
    assert(spec_u64_from_le_bytes(buf.subrange(pos, pos + 8)) == b.len() as u64);
    assert(buf.subrange(pos + 8, pos + 8 + b.len()) =~= b);
}

/// Appends the little-endian bytes of `x`.
pub fn push_u64_le(out: &mut Vec<u8>, x: u64)
    ensures
        final(out)@ == old(out)@ + spec_u64_to_le_bytes(x),
{
    let mut bytes = u64_to_le_bytes(x);
    out.append(&mut bytes);
}

/// The little-endian `u64` at `pos` of `buf`, if `buf` holds eight
/// bytes there: the value together with the position just past it.
pub open spec fn spec_take_u64_le(buf: Seq<u8>, pos: int) -> Option<(u64, int)> {
    if pos + 8 <= buf.len() {
        Some((spec_u64_from_le_bytes(buf.subrange(pos, pos + 8)), pos + 8))
    } else {
        None
    }
}

/// Reading back an appended little-endian `u64` returns the same
/// value, whatever follows it in the buffer.
pub proof fn lemma_u64_le_round_trip(prefix: Seq<u8>, x: u64, rest: Seq<u8>)
    ensures
        spec_take_u64_le(prefix + spec_u64_to_le_bytes(x) + rest, prefix.len() as int) == Some(
            (x, prefix.len() as int + 8),
        ),
{
    let buf = prefix + spec_u64_to_le_bytes(x) + rest;
    let pos = prefix.len() as int;
    vstd::bytes::lemma_auto_spec_u64_to_from_le_bytes();
    assert(buf.subrange(pos, pos + 8) =~= spec_u64_to_le_bytes(x));
}

/// A signed 64-bit value survives the trip through its unsigned
/// two's-complement carrier.
pub proof fn lemma_i64_cast_round_trip(x: i64)
    ensures
        x as u64 as i64 == x,
{
    assert(x as u64 as i64 == x) by (bit_vector);
}

} // verus!
