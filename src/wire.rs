use vstd::prelude::*;

verus! {

/// The two bytes of `v`, high byte first.
pub open spec fn be16(v: u16) -> Seq<u8> {
    seq![(v / 256) as u8, (v % 256) as u8]
}

/// The 16-bit value whose bytes, high byte first, are `hi` and `lo`.
pub open spec fn be16_value(hi: u8, lo: u8) -> u16 {
    (hi * 256 + lo) as u16
}

/// Splits `v` into its high and low bytes.
pub fn split_be16(v: u16) -> (r: (u8, u8))
    ensures
        seq![r.0, r.1] == be16(v),
{
    let hi = (v >> 8) as u8;
    let lo = (v & 0xff) as u8;
    assert(v >> 8 == v / 256 && v & 0xff == v % 256) by (bit_vector);
    (hi, lo)
}

/// Joins a high and a low byte into one 16-bit value.
pub fn join_be16(hi: u8, lo: u8) -> (r: u16)
    ensures
        r == be16_value(hi, lo),
{
    let r = ((hi as u16) << 8) | lo as u16;
    assert((((hi as u16) << 8) | lo as u16) == (hi as u16) * 256 + (lo as u16)) by (bit_vector);
    r
}

} // verus!
