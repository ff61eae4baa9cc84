//! Little-endian encoding of 32-bit and 64-bit words.
//!
//! The particle and uniform records are handed to their consumers as flat
//! byte buffers with a fixed layout. This module gives the byte-level
//! meaning of one word and proves that reading the bytes back restores it.

use vstd::prelude::*;

verus! {

/// The four little-endian bytes of a 32-bit word.
pub open spec fn u32_le_bytes(x: u32) -> Seq<u8> {
    seq![
        (x & 0xff) as u8,
        ((x >> 8) & 0xff) as u8,
        ((x >> 16) & 0xff) as u8,
        ((x >> 24) & 0xff) as u8,
    ]
}

/// The eight little-endian bytes of a 64-bit word.
pub open spec fn u64_le_bytes(x: u64) -> Seq<u8> {
    seq![
        (x & 0xff) as u8,
        ((x >> 8) & 0xff) as u8,
        ((x >> 16) & 0xff) as u8,
        ((x >> 24) & 0xff) as u8,
        ((x >> 32) & 0xff) as u8,
        ((x >> 40) & 0xff) as u8,
        ((x >> 48) & 0xff) as u8,
        ((x >> 56) & 0xff) as u8,
    ]
}

/// The 32-bit word whose little-endian bytes are `b0 .. b3`.
pub open spec fn u32_of_le(b0: u8, b1: u8, b2: u8, b3: u8) -> u32 {
    (b0 as u32) | ((b1 as u32) << 8) | ((b2 as u32) << 16) | ((b3 as u32) << 24)
}

/// The 64-bit word whose little-endian bytes are `b0 .. b7`.
pub open spec fn u64_of_le(b0: u8, b1: u8, b2: u8, b3: u8, b4: u8, b5: u8, b6: u8, b7: u8) -> u64 {
    (b0 as u64) | ((b1 as u64) << 8) | ((b2 as u64) << 16) | ((b3 as u64) << 24)
        | ((b4 as u64) << 32) | ((b5 as u64) << 40) | ((b6 as u64) << 48) | ((b7 as u64) << 56)
}

/// Reading the four little-endian bytes of a 32-bit word restores the word.
pub proof fn lemma_u32_le_roundtrip(x: u32)
    ensures
        u32_of_le(u32_le_bytes(x)[0], u32_le_bytes(x)[1], u32_le_bytes(x)[2], u32_le_bytes(x)[3])
            == x,
{
    assert(u32_of_le(
        (x & 0xff) as u8,
        ((x >> 8) & 0xff) as u8,
        ((x >> 16) & 0xff) as u8,
        ((x >> 24) & 0xff) as u8,
    ) == x) by (bit_vector);
}

/// Reading the eight little-endian bytes of a 64-bit word restores the word.
pub proof fn lemma_u64_le_roundtrip(x: u64)
    ensures
        u64_of_le(
            u64_le_bytes(x)[0],
            u64_le_bytes(x)[1],
            u64_le_bytes(x)[2],
            u64_le_bytes(x)[3],
            u64_le_bytes(x)[4],
            u64_le_bytes(x)[5],
            u64_le_bytes(x)[6],
            u64_le_bytes(x)[7],
        ) == x,
{
    assert(u64_of_le(
        (x & 0xff) as u8,
        ((x >> 8) & 0xff) as u8,
        ((x >> 16) & 0xff) as u8,
        ((x >> 24) & 0xff) as u8,
        ((x >> 32) & 0xff) as u8,
        ((x >> 40) & 0xff) as u8,
        ((x >> 48) & 0xff) as u8,
        ((x >> 56) & 0xff) as u8,
    ) == x) by (bit_vector);
}

/// Appends the four little-endian bytes of `x` to `out`.
pub fn push_u32_le(out: &mut Vec<u8>, x: u32)
    ensures
        final(out)@ == old(out)@ + u32_le_bytes(x),
{
    proof {
        assert(x & 0xff < 256 && (x >> 8) & 0xff < 256 && (x >> 16) & 0xff < 256
            && (x >> 24) & 0xff < 256) by (bit_vector);
    }
    out.push((x & 0xff) as u8);
    out.push(((x >> 8) & 0xff) as u8);
    out.push(((x >> 16) & 0xff) as u8);
    out.push(((x >> 24) & 0xff) as u8);
    assert(out@ =~= old(out)@ + u32_le_bytes(x));
}

/// Appends the eight little-endian bytes of `x` to `out`.
pub fn push_u64_le(out: &mut Vec<u8>, x: u64)
    ensures
        final(out)@ == old(out)@ + u64_le_bytes(x),
{
    proof {
        assert(x & 0xff < 256 && (x >> 8) & 0xff < 256 && (x >> 16) & 0xff < 256
            && (x >> 24) & 0xff < 256 && (x >> 32) & 0xff < 256 && (x >> 40) & 0xff < 256
            && (x >> 48) & 0xff < 256 && (x >> 56) & 0xff < 256) by (bit_vector);
    }
    out.push((x & 0xff) as u8);
    out.push(((x >> 8) & 0xff) as u8);
    out.push(((x >> 16) & 0xff) as u8);
    out.push(((x >> 24) & 0xff) as u8);
    out.push(((x >> 32) & 0xff) as u8);
    out.push(((x >> 40) & 0xff) as u8);
    out.push(((x >> 48) & 0xff) as u8);
    out.push(((x >> 56) & 0xff) as u8);
    assert(out@ =~= old(out)@ + u64_le_bytes(x));
}

/// Reads the 32-bit word stored little-endian at `off` in `bytes`.
pub fn read_u32_le(bytes: &Vec<u8>, off: usize) -> (x: u32)
    requires
        off + 4 <= bytes@.len(),
    ensures
        x == u32_of_le(bytes@[off as int], bytes@[off + 1], bytes@[off + 2], bytes@[off + 3]),
{
    // Binding the length teaches the verifier that it fits a usize, which
    // bounds the index arithmetic below.
    let _n: usize = bytes.len();
    (bytes[off] as u32) | ((bytes[off + 1] as u32) << 8) | ((bytes[off + 2] as u32) << 16)
        | ((bytes[off + 3] as u32) << 24)
}

/// Reads the 64-bit word stored little-endian at `off` in `bytes`.
pub fn read_u64_le(bytes: &Vec<u8>, off: usize) -> (x: u64)
    requires
        off + 8 <= bytes@.len(),
    ensures
        x == u64_of_le(
            bytes@[off as int],
            bytes@[off + 1],
            bytes@[off + 2],
            bytes@[off + 3],
            bytes@[off + 4],
            bytes@[off + 5],
            bytes@[off + 6],
            bytes@[off + 7],
        ),
{
    // Binding the length teaches the verifier that it fits a usize, which
    // bounds the index arithmetic below.
    let _n: usize = bytes.len();
    (bytes[off] as u64) | ((bytes[off + 1] as u64) << 8) | ((bytes[off + 2] as u64) << 16)
        | ((bytes[off + 3] as u64) << 24) | ((bytes[off + 4] as u64) << 32)
        | ((bytes[off + 5] as u64) << 40) | ((bytes[off + 6] as u64) << 48)
        | ((bytes[off + 7] as u64) << 56)
}

} // verus!
