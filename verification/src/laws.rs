//! Properties of the digest, proved over the model.

use vstd::prelude::*;

use crate::model::{avalanche, blocks_folded, digest_of, le16, length32, tail_step, wrapping_sum};

verus! {

/// The digest is determined by the bytes and their number: two sequences of
/// the same length that hold the same byte at every position have the same
/// digest.
pub proof fn digest_is_deterministic(a: Seq<u8>, b: Seq<u8>)
    requires
        a.len() == b.len(),
        forall|i: int| 0 <= i < a.len() ==> a[i] == b[i],
    ensures
        digest_of(a) == digest_of(b),
{
    assert(a =~= b);
}

/// A sequence without bytes has the digest 0.
pub proof fn digest_of_nothing_is_zero(s: Seq<u8>)
    requires
        s.len() == 0,
    ensures
        digest_of(s) == 0,
{
}

/// The length is part of what is hashed: there are two sequences of different
/// lengths, the shorter one the beginning of the longer one, whose digests
/// differ.
pub proof fn digest_depends_on_length()
    ensures
        exists|a: Seq<u8>, b: Seq<u8>|
            a.len() != b.len() && a.is_prefix_of(b) && digest_of(a) != digest_of(b),
{
    let a = seq![0u8];
    let b = seq![0u8, 0u8];
    assert(a.len() == 1 && b.len() == 2);
    assert(a =~= b.subrange(0, 1));
    assert(a.is_prefix_of(b));
    assert(length32(a) == 1 && length32(b) == 2);
    assert(a.subrange(0, 1) =~= a && b.subrange(0, 2) =~= b);
    assert(blocks_folded(a, 0, 1) == 1 && blocks_folded(b, 0, 2) == 2);
    assert(tail_step(1, a) == 1537) by {
        assert(1u32 ^ (1u32 << 10u32) == 1025 && 1025u32 >> 1u32 == 512) by (bit_vector);
    }
    assert(tail_step(2, b) == 4098) by {
        assert(2u32 ^ (2u32 << 11u32) == 4098 && 4098u32 >> 17u32 == 0) by (bit_vector);
    }
    assert(avalanche(1537) != avalanche(4098)) by (bit_vector);
    assert(digest_of(a) == avalanche(1537) && digest_of(b) == avalanche(4098));
}

/// A 16-bit read puts its first byte into bits 0 to 7 and its second byte into
/// bits 8 to 15, whatever the byte order of the host.
pub proof fn le16_is_low_byte_first(lo: u8, hi: u8)
    ensures
        le16(lo, hi) == (lo as u32) | ((hi as u32) << 8u32),
        le16(lo, hi) & 0xff == lo,
        le16(lo, hi) >> 8u32 == hi,
{
    let v = le16(lo, hi);
    assert(v == lo + 256 * hi);
    assert(v == (lo as u32) | ((hi as u32) << 8u32) && v & 0xff == lo && v >> 8u32 == hi)
        by (bit_vector)
        requires
            v == lo + 256 * hi,
    ;
}

/// A sum that passes 2^32 loses exactly 2^32; any other sum is kept.
pub proof fn wrapping_sum_wraps(a: u32, b: u32)
    ensures
        a + b < 0x1_0000_0000 ==> wrapping_sum(a, b) == a + b,
        a + b >= 0x1_0000_0000 ==> wrapping_sum(a, b) == a + b - 0x1_0000_0000,
{
}

/// A left shift of the accumulator multiplies modulo 2^32: the bits that leave
/// the word are lost. Stated for each distance that the hash shifts by.
pub proof fn left_shift_wraps(h: u32)
    ensures
        h << 3u32 == (h * 0x8) % 0x1_0000_0000,
        h << 4u32 == (h * 0x10) % 0x1_0000_0000,
        h << 10u32 == (h * 0x400) % 0x1_0000_0000,
        h << 11u32 == (h * 0x800) % 0x1_0000_0000,
        h << 16u32 == (h * 0x1_0000) % 0x1_0000_0000,
        h << 18u32 == (h * 0x4_0000) % 0x1_0000_0000,
        h << 25u32 == (h * 0x200_0000) % 0x1_0000_0000,
{
    assert(h << 3u32 == (h * 0x8) % 0x1_0000_0000) by (bit_vector);
    assert(h << 4u32 == (h * 0x10) % 0x1_0000_0000) by (bit_vector);
    assert(h << 10u32 == (h * 0x400) % 0x1_0000_0000) by (bit_vector);
    assert(h << 11u32 == (h * 0x800) % 0x1_0000_0000) by (bit_vector);
    assert(h << 16u32 == (h * 0x1_0000) % 0x1_0000_0000) by (bit_vector);
    assert(h << 18u32 == (h * 0x4_0000) % 0x1_0000_0000) by (bit_vector);
    assert(h << 25u32 == (h * 0x200_0000) % 0x1_0000_0000) by (bit_vector);
}

/// A right shift of the accumulator divides and fills with zeros from the
/// left. Stated for each distance that the hash shifts by.
pub proof fn right_shift_divides(h: u32)
    ensures
        h >> 1u32 == h / 0x2,
        h >> 5u32 == h / 0x20,
        h >> 6u32 == h / 0x40,
        h >> 11u32 == h / 0x800,
        h >> 17u32 == h / 0x2_0000,
{
    assert(h >> 1u32 == h / 0x2) by (bit_vector);
    assert(h >> 5u32 == h / 0x20) by (bit_vector);
    assert(h >> 6u32 == h / 0x40) by (bit_vector);
    assert(h >> 11u32 == h / 0x800) by (bit_vector);
    assert(h >> 17u32 == h / 0x2_0000) by (bit_vector);
}

/// Folding blocks reads only the bytes of those blocks: two sequences that
/// agree on their first `4 * blocks` bytes fold to the same accumulator.
pub proof fn blocks_folded_reads_its_blocks(a: Seq<u8>, b: Seq<u8>, blocks: nat, seed: u32)
    requires
        forall|i: int| 0 <= i < 4 * blocks ==> a[i] == b[i],
    ensures
        blocks_folded(a, blocks, seed) == blocks_folded(b, blocks, seed),
    decreases blocks,
{
    if blocks > 0 {
        blocks_folded_reads_its_blocks(a, b, (blocks - 1) as nat, seed);
    }
}

/// Only as many bytes are hashed as the 32-bit length counts: a sequence has
/// the digest of its first `length32` bytes.
pub proof fn digest_reads_length32_bytes(s: Seq<u8>)
    ensures
        digest_of(s) == digest_of(s.subrange(0, length32(s) as int)),
{
    let len = length32(s);
    let p = s.subrange(0, len as int);
    assert(len <= s.len());
    assert(length32(p) == len);
    if len != 0 {
        let blocks = len / 4;
        blocks_folded_reads_its_blocks(s, p, blocks as nat, len);
        assert(s.subrange(4 * blocks, len as int) =~= p.subrange(4 * blocks, len as int));
    }
}

} // verus!
