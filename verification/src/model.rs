//! The mathematical model of the hash: what the digest of a byte sequence is.
//!
//! The accumulator is a `u32`. Sums are taken modulo 2^32, left shifts drop the
//! bits that leave the 32-bit word, right shifts fill with zeros.

use vstd::prelude::*;

verus! {

/// The sum of two accumulator values modulo 2^32.
pub open spec fn wrapping_sum(a: u32, b: u32) -> u32 {
    ((a + b) % 0x1_0000_0000) as u32
}

/// Two bytes read as a 16-bit number, least significant byte first, widened
/// to 32 bits. The value is the same on every host.
pub open spec fn le16(lo: u8, hi: u8) -> u32 {
    (lo + 256 * hi) as u32
}

/// The accumulator after one full block of four bytes has been mixed into `h`.
pub open spec fn block_step(h: u32, b0: u8, b1: u8, b2: u8, b3: u8) -> u32 {
    let a = wrapping_sum(h, le16(b0, b1));
    let t = (le16(b2, b3) << 11u32) ^ a;
    let m = (a << 16u32) ^ t;
    wrapping_sum(m, m >> 11u32)
}

/// The accumulator after the first `blocks` four-byte blocks of `s` have been
/// mixed, in order, into `seed`.
pub open spec fn blocks_folded(s: Seq<u8>, blocks: nat, seed: u32) -> u32
    recommends
        4 * blocks <= s.len(),
    decreases blocks,
{
    if blocks == 0 {
        seed
    } else {
        let k = 4 * (blocks - 1);
        block_step(
            blocks_folded(s, (blocks - 1) as nat, seed),
            s[k],
            s[k + 1],
            s[k + 2],
            s[k + 3],
        )
    }
}

/// The accumulator after the bytes `t` that follow the last full block have
/// been mixed into `h`. With no such byte the accumulator stays as it is.
pub open spec fn tail_step(h: u32, t: Seq<u8>) -> u32
    recommends
        t.len() <= 3,
{
    if t.len() == 1 {
        let a = wrapping_sum(h, t[0] as u32);
        let b = a ^ (a << 10u32);
        wrapping_sum(b, b >> 1u32)
    } else if t.len() == 2 {
        let a = wrapping_sum(h, le16(t[0], t[1]));
        let b = a ^ (a << 11u32);
        wrapping_sum(b, b >> 17u32)
    } else if t.len() == 3 {
        let a = wrapping_sum(h, le16(t[0], t[1]));
        let b = a ^ (a << 16u32);
        let c = b ^ ((t[2] as u32) << 18u32);
        wrapping_sum(c, c >> 11u32)
    } else {
        h
    }
}

/// The six closing operations that spread every bit of the accumulator over
/// the whole word.
pub open spec fn avalanche(h: u32) -> u32 {
    let a = h ^ (h << 3u32);
    let b = wrapping_sum(a, a >> 5u32);
    let c = b ^ (b << 4u32);
    let d = wrapping_sum(c, c >> 17u32);
    let e = d ^ (d << 25u32);
    wrapping_sum(e, e >> 6u32)
}

/// The length of `s` as the hash sees it: a 32-bit number.
pub open spec fn length32(s: Seq<u8>) -> u32 {
    (s.len() % 0x1_0000_0000) as u32
}

/// The digest of the byte sequence `s`.
///
/// An input whose 32-bit length is zero has the digest 0. Otherwise the
/// accumulator starts as the length, takes in every full block of four bytes,
/// then the one to three bytes that are left, and is closed by `avalanche`.
pub open spec fn digest_of(s: Seq<u8>) -> u32 {
    let len = length32(s);
    if len == 0 {
        0
    } else {
        let blocks = len / 4;
        avalanche(
            tail_step(
                blocks_folded(s, blocks as nat, len),
                s.subrange(4 * blocks, len as int),
            ),
        )
    }
}

} // verus!
