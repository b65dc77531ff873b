//! Reading and writing fields of native records held as bytes.
//!
//! Records follow the C layout of a 64-bit little-endian target: a `size_t`
//! field is eight bytes, least significant first, aligned to eight.

use vstd::bytes::{spec_u64_from_le_bytes, spec_u64_to_le_bytes, u64_to_le_bytes, u64_from_le_bytes};
use vstd::prelude::*;

verus! {

/// `b` with `s` written over it from position `off` on.
pub open spec fn splice(b: Seq<u8>, off: int, s: Seq<u8>) -> Seq<u8> {
    Seq::new(
        b.len(),
        |k: int|
            if off <= k < off + s.len() {
                s[k - off]
            } else {
                b[k]
            },
    )
}

/// `n` zero bytes.
pub open spec fn zeros(n: nat) -> Seq<u8> {
    Seq::new(n, |k: int| 0u8)
}

/// The eight bytes of a `size_t` field.
pub open spec fn le64(x: u64) -> Seq<u8> {
    spec_u64_to_le_bytes(x)
}

/// The `size_t` field held by eight bytes.
pub open spec fn from_le64(s: Seq<u8>) -> u64 {
    spec_u64_from_le_bytes(s)
}

pub proof fn lemma_le64(x: u64)
    ensures
        le64(x).len() == 8,
        from_le64(le64(x)) == x,
{
    vstd::bytes::lemma_auto_spec_u64_to_from_le_bytes();
}

/// The four bytes of a C enum field.
pub open spec fn le32(x: u32) -> Seq<u8> {
    vstd::bytes::spec_u32_to_le_bytes(x)
}

/// The C enum field held by four bytes.
pub open spec fn from_le32(s: Seq<u8>) -> u32 {
    vstd::bytes::spec_u32_from_le_bytes(s)
}

/// A buffer of `n` zero bytes.
pub fn zero_buffer(n: usize) -> (r: Vec<u8>)
    ensures
        r@ == zeros(n as nat),
{
    let mut v: Vec<u8> = Vec::new();
    let mut i: usize = 0;
    while i < n
        invariant
            i <= n,
            v@ == zeros(i as nat),
        decreases n - i,
    {
        v.push(0u8);
        i = i + 1;
        assert(v@ =~= zeros(i as nat));
    }
    v
}

/// Writes `src` into `buf` from position `off` on.
pub fn write_at(buf: &mut Vec<u8>, off: usize, src: &[u8])
    requires
        off + src@.len() <= old(buf)@.len(),
    ensures
        final(buf)@ == splice(old(buf)@, off as int, src@),
{
    let ghost start = buf@;
    let n = buf.len();
    let mut i: usize = 0;
    while i < src.len()
        invariant
            n == start.len(),
            off + src@.len() <= start.len(),
            i <= src@.len(),
            buf@.len() == start.len(),
            forall|k: int|
                0 <= k < start.len() ==> buf@[k] == if off <= k < off + i {
                    src@[k - off]
                } else {
                    start[k]
                },
        decreases src@.len() - i,
    {
        buf.set(off + i, src[i]);
        i = i + 1;
    }
    assert(buf@ =~= splice(start, off as int, src@));
}

/// Writes one byte at position `off`.
pub fn write_byte(buf: &mut Vec<u8>, off: usize, b: u8)
    requires
        off < old(buf)@.len(),
    ensures
        final(buf)@ == splice(old(buf)@, off as int, seq![b]),
{
    buf.set(off, b);
    assert(buf@ =~= splice(old(buf)@, off as int, seq![b]));
}

/// Writes a `size_t` field at position `off`.
pub fn write_u64(buf: &mut Vec<u8>, off: usize, x: u64)
    requires
        off + 8 <= old(buf)@.len(),
    ensures
        final(buf)@ == splice(old(buf)@, off as int, le64(x)),
{
    let bytes = u64_to_le_bytes(x);
    write_at(buf, off, bytes.as_slice());
}

/// The `N` bytes of `b` from position `off` on.
pub fn read_array<const N: usize>(b: &[u8], off: usize) -> (r: [u8; N])
    requires
        off + N <= b@.len(),
    ensures
        r@ == b@.subrange(off as int, off + N),
{
    let mut a: [u8; N] = [0u8; N];
    let n = b.len();
    let mut i: usize = 0;
    while i < N
        invariant
            n == b@.len(),
            off + N <= b@.len(),
            i <= N,
            a@.len() == N,
            forall|k: int| 0 <= k < i ==> a@[k] == b@[off + k],
        decreases N - i,
    {
        a[i] = b[off + i];
        i = i + 1;
    }
    assert(a@ =~= b@.subrange(off as int, off + N));
    a
}

/// The `size_t` field at position `off`.
pub fn read_u64(b: &[u8], off: usize) -> (r: u64)
    requires
        off + 8 <= b@.len(),
    ensures
        r == from_le64(b@.subrange(off as int, off + 8)),
{
    let a: [u8; 8] = read_array(b, off);
    u64_from_le_bytes(a.as_slice())
}

/// The 32-bit enum field at position `off`.
pub fn read_u32(b: &[u8], off: usize) -> (r: u32)
    requires
        off + 4 <= b@.len(),
    ensures
        r == from_le32(b@.subrange(off as int, off + 4)),
{
    let a: [u8; 4] = read_array(b, off);
    vstd::bytes::u32_from_le_bytes(a.as_slice())
}

/// Writes a 32-bit enum field at position `off`.
pub fn write_u32(buf: &mut Vec<u8>, off: usize, x: u32)
    requires
        off + 4 <= old(buf)@.len(),
    ensures
        final(buf)@ == splice(old(buf)@, off as int, le32(x)),
{
    let bytes = vstd::bytes::u32_to_le_bytes(x);
    write_at(buf, off, bytes.as_slice());
}

pub proof fn lemma_le32(x: u32)
    ensures
        le32(x).len() == 4,
        from_le32(le32(x)) == x,
{
    vstd::bytes::lemma_auto_spec_u32_to_from_le_bytes();
    assert(vstd::bytes::spec_u32_to_le_bytes(x).len() == 4);
}

} // verus!
