//! Little-endian field decoding and byte sums over firmware buffers.
use vstd::prelude::*;

verus! {

/// The little-endian 16-bit value at `s[i..i + 2]`.
pub open spec fn le16(s: Seq<u8>, i: int) -> int {
    s[i] + 0x100 * s[i + 1]
}

/// The little-endian 32-bit value at `s[i..i + 4]`.
pub open spec fn le32(s: Seq<u8>, i: int) -> int {
    le16(s, i) + 0x1_0000 * le16(s, i + 2)
}

/// The little-endian 64-bit value at `s[i..i + 8]`.
pub open spec fn le64(s: Seq<u8>, i: int) -> int {
    le32(s, i) + 0x1_0000_0000 * le32(s, i + 4)
}

/// The sum of all bytes of `s`, as an integer.
pub open spec fn byte_sum(s: Seq<u8>) -> int
    decreases s.len(),
{
    if s.len() == 0 {
        0
    } else {
        byte_sum(s.drop_last()) + s.last()
    }
}

/// Changing one byte of a table changes its sum by less than 256 in either direction.
pub proof fn lemma_byte_sum_update(t: Seq<u8>, i: int, v: u8)
    requires
        0 <= i < t.len(),
    ensures
        byte_sum(t.update(i, v)) == byte_sum(t) - t[i] + v,
    decreases t.len(),
{
    let u = t.update(i, v);
    if i == t.len() - 1 {
        assert(u.drop_last() =~= t.drop_last());
    } else {
        assert(u.drop_last() =~= t.drop_last().update(i, v));
        lemma_byte_sum_update(t.drop_last(), i, v);
    }
}

/// The sum of two byte strings laid end to end is the sum of their sums.
pub proof fn lemma_byte_sum_concat(a: Seq<u8>, b: Seq<u8>)
    ensures
        byte_sum(a + b) == byte_sum(a) + byte_sum(b),
    decreases b.len(),
{
    if b.len() > 0 {
        assert((a + b).drop_last() =~= a + b.drop_last());
        lemma_byte_sum_concat(a, b.drop_last());
    } else {
        assert(a + b =~= a);
    }
}

/// Reads the little-endian `u16` at `b[i..i + 2]`.
pub fn read_u16(b: &[u8], i: usize) -> (r: u16)
    requires
        i + 2 <= b@.len(),
    ensures
        r == le16(b@, i as int),
{
    let b0 = b[i];
    let b1 = b[i + 1];
    let r = (b0 as u16) | ((b1 as u16) << 8u16);
    assert(r == b0 + 0x100 * b1) by (bit_vector)
        requires
            r == (b0 as u16) | ((b1 as u16) << 8u16),
    ;
    r
}

/// Reads the little-endian `u32` at `b[i..i + 4]`.
pub fn read_u32(b: &[u8], i: usize) -> (r: u32)
    requires
        i + 4 <= b@.len(),
    ensures
        r == le32(b@, i as int),
{
    let _len = b.len();
    let lo = read_u16(b, i);
    let hi = read_u16(b, i + 2);
    let r = (lo as u32) | ((hi as u32) << 16u32);
    assert(r == lo + 0x1_0000 * hi) by (bit_vector)
        requires
            r == (lo as u32) | ((hi as u32) << 16u32),
    ;
    r
}

/// Reads the little-endian `u64` at `b[i..i + 8]`.
pub fn read_u64(b: &[u8], i: usize) -> (r: u64)
    requires
        i + 8 <= b@.len(),
    ensures
        r == le64(b@, i as int),
{
    let _len = b.len();
    let lo = read_u32(b, i);
    let hi = read_u32(b, i + 4);
    let r = (lo as u64) | ((hi as u64) << 32u64);
    assert(r == lo + 0x1_0000_0000 * hi) by (bit_vector)
        requires
            r == (lo as u64) | ((hi as u64) << 32u64),
    ;
    r
}

/// The sum modulo 256 of the first `n` bytes of `b`.
pub fn sum_bytes(b: &[u8], n: usize) -> (r: u8)
    requires
        n <= b@.len(),
    ensures
        r == byte_sum(b@.subrange(0, n as int)) % 256,
{
    let mut sum: u8 = 0;
    let mut i: usize = 0;
    while i < n
        invariant
            i <= n <= b@.len(),
            sum == byte_sum(b@.subrange(0, i as int)) % 256,
        decreases n - i,
    {
        proof {
            let s = b@.subrange(0, i as int + 1);
            assert(s.drop_last() =~= b@.subrange(0, i as int));
            assert(s.last() == b@[i as int]);
        }
        sum = sum.wrapping_add(b[i]);
        i = i + 1;
    }
    sum
}

} // verus!
