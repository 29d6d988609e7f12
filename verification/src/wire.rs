//! Byte-level helpers shared by the wire layouts: zero runs, little-endian
//! integer encodings and in-place copies.

use vstd::prelude::*;
use vstd::bytes::{spec_u16_to_le_bytes, spec_u32_to_le_bytes, spec_u64_to_le_bytes};

verus! {

/// `n` zero bytes.
pub open spec fn zeros(n: nat) -> Seq<u8> {
    Seq::new(n, |i: int| 0u8)
}

/// Little-endian encoding of a `u16`.
pub open spec fn le16(x: u16) -> Seq<u8> {
    spec_u16_to_le_bytes(x)
}

/// Little-endian encoding of a `u32`.
pub open spec fn le32(x: u32) -> Seq<u8> {
    spec_u32_to_le_bytes(x)
}

/// Little-endian encoding of a `u64`.
pub open spec fn le64(x: u64) -> Seq<u8> {
    spec_u64_to_le_bytes(x)
}

/// The little-endian encodings have their fixed widths.
pub proof fn lemma_le_lengths()
    ensures
        forall|x: u16| #[trigger] le16(x).len() == 2,
        forall|x: u32| #[trigger] le32(x).len() == 4,
        forall|x: u64| #[trigger] le64(x).len() == 8,
{
    vstd::bytes::lemma_auto_spec_u16_to_from_le_bytes();
    vstd::bytes::lemma_auto_spec_u32_to_from_le_bytes();
    vstd::bytes::lemma_auto_spec_u64_to_from_le_bytes();
}

/// `u16::to_le_bytes`, as a vector.
pub fn u16_le(x: u16) -> (bytes: Vec<u8>)
    ensures
        bytes@ == le16(x),
        bytes@.len() == 2,
{
    vstd::bytes::u16_to_le_bytes(x)
}

/// `u32::to_le_bytes`, as a vector.
pub fn u32_le(x: u32) -> (bytes: Vec<u8>)
    ensures
        bytes@ == le32(x),
        bytes@.len() == 4,
{
    vstd::bytes::u32_to_le_bytes(x)
}

/// `u64::to_le_bytes`, as a vector.
pub fn u64_le(x: u64) -> (bytes: Vec<u8>)
    ensures
        bytes@ == le64(x),
        bytes@.len() == 8,
{
    vstd::bytes::u64_to_le_bytes(x)
}

/// Copy the first `count` bytes of `src` into `dst` starting at `at`,
/// leaving every other byte of `dst` as it was.
pub fn copy_into<const N: usize>(dst: &mut [u8; N], at: usize, src: &[u8], count: usize)
    requires
        count <= src@.len(),
        at + count <= N,
    ensures
        final(dst)@.len() == N,
        forall|i: int|
            0 <= i < N ==> #[trigger] final(dst)@[i] == if at <= i < at + count {
                src@[i - at]
            } else {
                old(dst)@[i]
            },
{
    let mut k: usize = 0;
    while k < count
        invariant
            k <= count,
            count <= src@.len(),
            at + count <= N,
            dst@.len() == N,
            forall|i: int|
                0 <= i < N ==> #[trigger] dst@[i] == if at <= i < at + k {
                    src@[i - at]
                } else {
                    old(dst)@[i]
                },
        decreases count - k,
    {
        dst[at + k] = src[k];
        k = k + 1;
    }
}

/// Append all of `src` to `v`.
pub fn append_bytes(v: &mut Vec<u8>, src: &[u8])
    ensures
        final(v)@ == old(v)@ + src@,
{
    let mut k: usize = 0;
    while k < src.len()
        invariant
            k <= src@.len(),
            v@ == old(v)@ + src@.take(k as int),
        decreases src@.len() - k,
    {
        v.push(src[k]);
        k = k + 1;
        assert(src@.take(k as int) == src@.take(k - 1 as int).push(src@[k - 1]));
    }
    assert(src@.take(src@.len() as int) == src@);
}

} // verus!
