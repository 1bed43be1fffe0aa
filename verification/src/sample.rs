//! Decoding of the six-byte sample block into a raw axis triple.
//!
//! One atomic burst read, opened at the first output register, delivers the
//! three axes as three little-endian signed 16-bit integers packed in six
//! bytes.  The decoder interprets exactly six bytes, field by field; an
//! undersized or oversized buffer is a transport-contract violation that the
//! caller must reject before decoding, never reinterpret.

use vstd::prelude::*;

verus! {

/// One axis triple as delivered by the bus: signed 16-bit counts, in axis
/// order X, Y, Z.
#[derive(Clone, Copy, Debug, PartialEq, Eq, Structural)]
pub struct RawSample {
    pub x: i16,
    pub y: i16,
    pub z: i16,
}

/// The signed 16-bit value encoded little-endian by the byte pair
/// `(lo, hi)`.
pub open spec fn spec_i16_le(lo: u8, hi: u8) -> int {
    if lo + 256 * hi < 32768 {
        lo + 256 * hi
    } else {
        lo + 256 * hi - 65536
    }
}

/// The sample that a six-byte block decodes to: each axis is one
/// little-endian byte pair, X first.
pub open spec fn decodes_to(d: Seq<u8>, s: RawSample) -> bool {
    &&& d.len() == 6
    &&& s.x as int == spec_i16_le(d[0], d[1])
    &&& s.y as int == spec_i16_le(d[2], d[3])
    &&& s.z as int == spec_i16_le(d[4], d[5])
}

/// Reassembles one little-endian signed 16-bit field from its byte pair.
fn i16_from_le_pair(lo: u8, hi: u8) -> (r: i16)
    ensures
        r as int == spec_i16_le(lo, hi),
{
    let u: u16 = (lo as u16) | ((hi as u16) << 8u16);
    proof {
        assert(u == lo + 256 * hi) by (bit_vector)
            requires
                u == (lo as u16) | ((hi as u16) << 8u16),
        ;
        assert(u < 32768 ==> u as i16 == u) by (bit_vector);
        assert(u >= 32768 ==> u as i16 == u - 65536) by (bit_vector);
    }
    u as i16
}

/// Decodes the six-byte block of one burst read into a raw sample.
pub fn decode_raw_sample(bytes: &[u8]) -> (r: RawSample)
    requires
        bytes@.len() == 6,
    ensures
        decodes_to(bytes@, r),
{
    let x = i16_from_le_pair(bytes[0], bytes[1]);
    let y = i16_from_le_pair(bytes[2], bytes[3]);
    let z = i16_from_le_pair(bytes[4], bytes[5]);
    RawSample { x, y, z }
}

} // verus!
