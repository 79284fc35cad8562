//! The `SuperFastHash` (also known as `Hsieh Hash`) of a byte sequence.
//!
//! [`digest`] maps a byte slice to a 32-bit value. The accumulator starts as
//! the length of the input, so the hash cannot be computed incrementally.
//! It is fast and well distributed, and not cryptographically secure.

use vstd::prelude::*;

pub mod laws;
pub mod model;

use crate::model::{
    avalanche, block_step, blocks_folded, digest_of, le16, length32, tail_step, wrapping_sum,
};

verus! {

/// Reads two bytes as a 16-bit number, least significant byte first.
fn read_le16(lo: u8, hi: u8) -> (v: u32)
    ensures
        v == le16(lo, hi),
{
    lo as u32 + 256 * (hi as u32)
}

/// Adds modulo 2^32.
fn add32(a: u32, b: u32) -> (r: u32)
    ensures
        r == wrapping_sum(a, b),
{
    a.wrapping_add(b)
}

/// Mixes one full block of four bytes into the accumulator.
fn mix_block(h: u32, b0: u8, b1: u8, b2: u8, b3: u8) -> (r: u32)
    ensures
        r == block_step(h, b0, b1, b2, b3),
{
    let a: u32 = add32(h, read_le16(b0, b1));
    let t: u32 = (read_le16(b2, b3) << 11) ^ a;
    let m: u32 = (a << 16) ^ t;
    add32(m, m >> 11)
}

/// Applies the closing operations to the accumulator.
fn finish(h: u32) -> (r: u32)
    ensures
        r == avalanche(h),
{
    let a: u32 = h ^ (h << 3);
    let b: u32 = add32(a, a >> 5);
    let c: u32 = b ^ (b << 4);
    let d: u32 = add32(c, c >> 17);
    let e: u32 = d ^ (d << 25);
    add32(e, e >> 6)
}

/// Mixes the bytes that follow the last full block into the accumulator.
fn mix_tail(h: u32, data: &[u8], start: usize, rest: u32) -> (r: u32)
    requires
        rest <= 3,
        start + rest <= data@.len(),
    ensures
        r == tail_step(h, data@.subrange(start as int, start + rest)),
{
    let ghost t = data@.subrange(start as int, start + rest);
    if rest == 1 {
        assert(t[0] == data@[start as int]);
        let a: u32 = add32(h, data[start] as u32);
        let b: u32 = a ^ (a << 10);
        add32(b, b >> 1)
    } else if rest == 2 {
        assert(t[0] == data@[start as int] && t[1] == data@[start + 1]);
        let a: u32 = add32(h, read_le16(data[start], data[start + 1]));
        let b: u32 = a ^ (a << 11);
        add32(b, b >> 17)
    } else if rest == 3 {
        assert(t[0] == data@[start as int] && t[1] == data@[start + 1] && t[2] == data@[start + 2]);
        let a: u32 = add32(h, read_le16(data[start], data[start + 1]));
        let b: u32 = a ^ (a << 16);
        let c: u32 = b ^ ((data[start + 2] as u32) << 18);
        add32(c, c >> 11)
    } else {
        h
    }
}

/// Computes the hash of a byte slice.
///
/// Every slice has a digest: the function never fails and leaves its input as
/// it is. The length enters as a 32-bit number, and the empty slice has the
/// digest 0.
pub fn digest(data: &[u8]) -> (hash: u32)
    ensures
        hash == digest_of(data@),
        data@.len() == 0 ==> hash == 0,
{
    let n: u64 = data.len() as u64;
    let len: u32 = #[verifier::truncate] (n as u32);
    assert(len == length32(data@)) by {
        assert(n as u32 == n % 0x1_0000_0000) by (bit_vector);
    }
    if len == 0 {
        return 0;
    }
    let blocks: u32 = len >> 2;
    let rest: u32 = len & 3;
    assert(blocks == len / 4 && rest == len % 4) by (bit_vector)
        requires
            blocks == len >> 2,
            rest == len & 3,
    ;

    let mut hash: u32 = len;
    let mut done: u32 = 0;
    let mut at: usize = 0;
    while done < blocks
        invariant
            done <= blocks,
            at == 4 * done,
            4 * blocks <= data@.len(),
            hash == blocks_folded(data@, done as nat, len),
        decreases blocks - done,
    {
        hash = mix_block(hash, data[at], data[at + 1], data[at + 2], data[at + 3]);
        at = at + 4;
        done = done + 1;
    }
    hash = mix_tail(hash, data, at, rest);
    finish(hash)
}

} // verus!
