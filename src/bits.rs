//! Bit frames, held in `bit_vec::BitVec`.

use bit_vec::BitVec;
use vstd::prelude::*;

verus! {

#[verifier::external_type_specification]
#[verifier::external_body]
#[verifier::reject_recursive_types(B)]
pub struct ExBitVec<B>(BitVec<B>);

/// The bits that a bit vector holds, first bit first.
pub uninterp spec fn bits_of(v: BitVec) -> Seq<bool>;

/// The bits of `bytes`: eight per byte, the most significant bit first.
pub open spec fn unpack_bits(bytes: Seq<u8>) -> Seq<bool> {
    Seq::new(
        (bytes.len() * 8) as nat,
        |i: int| (bytes[i / 8] >> ((7 - i % 8) as u8)) & 1u8 == 1u8,
    )
}

/// Weight `w` if bit `i` of `bits` is there and set, else zero.
pub open spec fn weight(bits: Seq<bool>, i: int, w: int) -> int {
    if 0 <= i < bits.len() && bits[i] {
        w
    } else {
        0
    }
}

/// Byte `j` of the packing of `bits`.
pub open spec fn packed_byte(bits: Seq<bool>, j: int) -> u8 {
    (weight(bits, 8 * j, 128) + weight(bits, 8 * j + 1, 64) + weight(bits, 8 * j + 2, 32)
        + weight(bits, 8 * j + 3, 16) + weight(bits, 8 * j + 4, 8) + weight(bits, 8 * j + 5, 4)
        + weight(bits, 8 * j + 6, 2) + weight(bits, 8 * j + 7, 1)) as u8
}

/// `bits` packed into bytes, the first bit the most significant of the
/// first byte; a last, partial byte is filled with zero bits.
pub open spec fn pack_bits(bits: Seq<bool>) -> Seq<u8> {
    Seq::new(((bits.len() + 7) / 8) as nat, |j: int| packed_byte(bits, j))
}

/// Relies on `BitVec::from_bytes`: eight bits per byte, most significant
/// first; it panics when the bit count overflows `usize`.
#[verifier::external_body]
pub(crate) fn bits_from_bytes(bytes: &[u8]) -> (r: BitVec)
    requires
        bytes@.len() * 8 <= usize::MAX,
    ensures
        bits_of(r) == unpack_bits(bytes@),
{
    BitVec::from_bytes(bytes)
}

/// Relies on `BitVec::to_bytes`: the bits packed most significant first,
/// a last partial byte padded with zero bits.
#[verifier::external_body]
pub(crate) fn bits_to_bytes(v: &BitVec) -> (r: Vec<u8>)
    ensures
        r@ == pack_bits(bits_of(*v)),
{
    v.to_bytes()
}

/// Relies on `BitVec::len`: the number of bits held.
#[verifier::external_body]
pub(crate) fn bits_len(v: &BitVec) -> (r: usize)
    ensures
        r == bits_of(*v).len(),
{
    v.len()
}

/// Relies on `BitVec::get`: bit `i`, or `None` past the end.
#[verifier::external_body]
pub(crate) fn bit_at(v: &BitVec, i: usize) -> (r: Option<bool>)
    ensures
        i < bits_of(*v).len() ==> r == Some(bits_of(*v)[i as int]),
        i >= bits_of(*v).len() ==> r is None,
{
    v.get(i)
}

/// One byte per bit, 1 for a set bit and 0 for a clear one: the form in
/// which the native layer takes parity bits.
pub open spec fn parity_track(bits: Seq<bool>) -> Seq<u8> {
    Seq::new(
        bits.len(),
        |i: int|
            if bits[i] {
                1u8
            } else {
                0u8
            },
    )
}

/// The parity bits of `v`, one byte per bit.
pub fn parity_bytes(v: &BitVec) -> (r: Vec<u8>)
    ensures
        r@ == parity_track(bits_of(*v)),
{
    let n = bits_len(v);
    let mut out: Vec<u8> = Vec::new();
    let mut i: usize = 0;
    while i < n
        invariant
            n == bits_of(*v).len(),
            i <= n,
            out@ == parity_track(bits_of(*v)).subrange(0, i as int),
        decreases n - i,
    {
        let bit = bit_at(v, i);
        let byte: u8 = match bit {
            Some(true) => 1,
            _ => 0,
        };
        out.push(byte);
        i = i + 1;
        assert(out@ =~= parity_track(bits_of(*v)).subrange(0, i as int));
    }
    assert(out@ =~= parity_track(bits_of(*v)));
    out
}

} // verus!
