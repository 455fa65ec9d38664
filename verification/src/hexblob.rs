//! Packed binary blobs for multi-result tests.
//!
//! A multi-result record's value arrays are stored as one hex string —
//! four little-endian bytes per result, one byte per returned state —
//! rather than exploded into per-pin rows.  The byte layout is verified
//! here; the hex digits come from the `hex` crate through one trusted
//! wrapper with an exact, character-by-character contract.

use vstd::prelude::*;
use crate::strings::hex_upper_seq;

verus! {

/// The four little-endian bytes of one 32-bit value.
pub open spec fn le4(bits: u32) -> Seq<u8> {
    seq![
        (bits & 0xff) as u8,
        ((bits >> 8) & 0xff) as u8,
        ((bits >> 16) & 0xff) as u8,
        ((bits >> 24) & 0xff) as u8,
    ]
}

/// The little-endian byte string of a sequence of 32-bit values.
pub open spec fn words_le_bytes(s: Seq<u32>) -> Seq<u8>
    decreases s.len(),
{
    if s.len() == 0 {
        Seq::empty()
    } else {
        words_le_bytes(s.drop_last()) + le4(s.last())
    }
}

/// Relies on hex::encode_upper: two uppercase hexadecimal digits per
/// input byte, in input order.
#[verifier::external_body]
fn hex_encode_upper(bytes: &Vec<u8>) -> (r: String)
    ensures
        r@ == hex_upper_seq(bytes@),
{
    hex::encode_upper(bytes.as_slice())
}

/// Hex-encodes a returned-state array: two digits per state byte.
pub fn stat_blob_hex(stats: &Vec<u8>) -> (r: String)
    ensures
        r@ == hex_upper_seq(stats@),
{
    hex_encode_upper(stats)
}

/// Hex-encodes a result array: each 32-bit value contributes its four
/// little-endian bytes, eight hex digits in all.
pub fn result_blob_hex(bits: &Vec<u32>) -> (r: String)
    ensures
        r@ == hex_upper_seq(words_le_bytes(bits@)),
{
    let mut bytes: Vec<u8> = Vec::new();
    let mut i: usize = 0;
    while i < bits.len()
        invariant
            i <= bits@.len(),
            bytes@ == words_le_bytes(bits@.take(i as int)),
        decreases bits@.len() - i,
    {
        let w = bits[i];
        bytes.push((w & 0xff) as u8);
        bytes.push(((w >> 8) & 0xff) as u8);
        bytes.push(((w >> 16) & 0xff) as u8);
        bytes.push(((w >> 24) & 0xff) as u8);
        proof {
            assert(bits@.take(i as int + 1).drop_last() =~= bits@.take(i as int));
            assert(bits@.take(i as int + 1).last() == bits@[i as int]);
            assert(bytes@ =~= words_le_bytes(bits@.take(i as int)) + le4(bits@[i as int]));
        }
        i = i + 1;
    }
    proof {
        assert(bits@.take(bits@.len() as int) =~= bits@);
    }
    hex_encode_upper(&bytes)
}

} // verus!
