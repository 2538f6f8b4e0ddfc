use vstd::prelude::*;

verus! {

/// The big-endian byte pair of a 16-bit value: high byte first.
pub open spec fn be_bytes_of_u16(x: u16) -> Seq<u8> {
    seq![(x / 256) as u8, (x % 256) as u8]
}

/// The 16-bit value carried by a big-endian byte pair.
pub open spec fn u16_of_be_bytes(b: Seq<u8>) -> u16
    recommends
        b.len() == 2,
{
    (b[0] * 256 + b[1]) as u16
}

/// `value` saturated into the closed range `[lower, upper]`: the nearest
/// bound when it lies outside, `value` itself otherwise.
pub open spec fn clamp(lower: int, upper: int, value: int) -> int {
    if value < lower {
        lower
    } else if value > upper {
        upper
    } else {
        value
    }
}

/// Splitting a 16-bit value into its big-endian bytes and reading them back
/// returns the value itself.
pub proof fn lemma_be_bytes_round_trip(x: u16)
    ensures
        u16_of_be_bytes(be_bytes_of_u16(x)) == x,
{
}

/// Reading a 16-bit value out of two bytes and splitting it again returns the
/// same two bytes.
pub proof fn lemma_u16_round_trip(b: Seq<u8>)
    requires
        b.len() == 2,
    ensures
        be_bytes_of_u16(u16_of_be_bytes(b)) == b,
{
    assert(be_bytes_of_u16(u16_of_be_bytes(b)) =~= b);
}

/// Splits a 16-bit value into its two big-endian bytes.
pub fn transform_u16_to_array_of_u8(x: u16) -> (r: [u8; 2])
    ensures
        r@ == be_bytes_of_u16(x),
{
    let b1: u8 = ((x >> 8) & 0xff) as u8;
    let b2: u8 = (x & 0xff) as u8;
    proof {
        assert((x >> 8) & 0xff == x / 256 && x & 0xff == x % 256) by (bit_vector);
    }
    let r: [u8; 2] = [b1, b2];
    proof {
        assert(r@ =~= be_bytes_of_u16(x));
    }
    r
}

/// Reads a 16-bit value out of two big-endian bytes.
pub fn transform_array_of_u8_to_u16(x: [u8; 2]) -> (r: u16)
    ensures
        r == u16_of_be_bytes(x@),
{
    let hi: u16 = x[0] as u16;
    let lo: u16 = x[1] as u16;
    proof {
        assert(hi < 256 ==> (hi << 8) == hi * 256 && (hi << 8) <= 0xff00) by (bit_vector);
    }
    (hi << 8) + lo
}

/// Saturates `value` into the closed range `[lower, upper]`.
pub fn bound(lower: i64, upper: i64, value: i64) -> (r: i64)
    requires
        lower <= upper,
    ensures
        r == clamp(lower as int, upper as int, value as int),
{
    let capped = if value < upper {
        value
    } else {
        upper
    };
    if capped < lower {
        lower
    } else {
        capped
    }
}

} // verus!
