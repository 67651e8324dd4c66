//! Byte-level encoding of the 32-bit length and status words that cross the
//! control channel. The protocol fixes one byte order for both ends of the
//! channel; this build uses little-endian words, and both the client framing
//! and the agent parser in this crate go through these functions, so the two
//! ends agree by construction.

use vstd::prelude::*;

verus! {

/// The four bytes of `x`, least significant first.
pub open spec fn le_bytes_of_u32(x: u32) -> Seq<u8> {
    seq![
        (x % 256) as u8,
        ((x / 256) % 256) as u8,
        ((x / 65536) % 256) as u8,
        ((x / 16777216) % 256) as u8,
    ]
}

/// The `u32` whose little-endian bytes are `b`; meaningful when `b.len() == 4`.
pub open spec fn u32_of_le_bytes(b: Seq<u8>) -> u32 {
    (b[0] + b[1] * 256 + b[2] * 65536 + b[3] * 16777216) as u32
}

/// Wire form of a signed status or length word: the little-endian bytes of
/// its two's-complement representation.
pub open spec fn le_bytes_of_i32(x: i32) -> Seq<u8> {
    le_bytes_of_u32(x as u32)
}

/// The `i32` whose little-endian two's-complement bytes are `b`.
pub open spec fn i32_of_le_bytes(b: Seq<u8>) -> i32 {
    u32_of_le_bytes(b) as i32
}

/// Decoding the four bytes of a word gives the word back.
pub proof fn lemma_u32_le_round_trip(x: u32)
    ensures
        le_bytes_of_u32(x).len() == 4,
        u32_of_le_bytes(le_bytes_of_u32(x)) == x,
{
    assert((x % 256) + ((x / 256) % 256) * 256 + ((x / 65536) % 256) * 65536 + ((x / 16777216)
        % 256) * 16777216 == x) by (bit_vector);
}

/// Decoding the four bytes of a signed word gives the word back.
pub proof fn lemma_i32_le_round_trip(x: i32)
    ensures
        le_bytes_of_i32(x).len() == 4,
        i32_of_le_bytes(le_bytes_of_i32(x)) == x,
{
    lemma_u32_le_round_trip(x as u32);
    assert(((x as u32) as i32) == x) by (bit_vector);
}

pub fn u32_to_le_bytes(x: u32) -> (r: Vec<u8>)
    ensures
        r@ == le_bytes_of_u32(x),
        r@.len() == 4,
{
    let mut v: Vec<u8> = Vec::new();
    v.push((x % 256) as u8);
    v.push(((x / 256) % 256) as u8);
    v.push(((x / 65536) % 256) as u8);
    v.push(((x / 16777216) % 256) as u8);
    proof {
        assert(v@ =~= le_bytes_of_u32(x));
    }
    v
}

pub fn u32_from_le_bytes(b: &[u8]) -> (r: u32)
    requires
        b@.len() == 4,
    ensures
        r == u32_of_le_bytes(b@),
{
    let b0 = b[0] as u32;
    let b1 = b[1] as u32;
    let b2 = b[2] as u32;
    let b3 = b[3] as u32;
    b0 + b1 * 256 + b2 * 65536 + b3 * 16777216
}

pub fn i32_to_le_bytes(x: i32) -> (r: Vec<u8>)
    ensures
        r@ == le_bytes_of_i32(x),
        r@.len() == 4,
{
    u32_to_le_bytes(#[verifier::truncate] (x as u32))
}

pub fn i32_from_le_bytes(b: &[u8]) -> (r: i32)
    requires
        b@.len() == 4,
    ensures
        r == i32_of_le_bytes(b@),
{
    #[verifier::truncate] (u32_from_le_bytes(b) as i32)
}

} // verus!
