//! Bit-level building blocks: addition modulo 2^32, rotation, and the
//! little-endian reading and writing of 32-bit words.

use vstd::prelude::*;

verus! {

/// The word whose little-endian bytes are `b0, b1, b2, b3` (`b0` least significant).
pub open spec fn le_word(b0: u8, b1: u8, b2: u8, b3: u8) -> u32 {
    (b0 + 256 * b1 + 65536 * b2 + 16777216 * b3) as u32
}

/// Byte `k` of `x`, counted from the least significant one.
pub open spec fn byte_of(x: u32, k: int) -> u8
    recommends
        0 <= k < 4,
{
    if k == 0 {
        (x % 256) as u8
    } else if k == 1 {
        (x / 256 % 256) as u8
    } else if k == 2 {
        (x / 65536 % 256) as u8
    } else {
        (x / 16777216 % 256) as u8
    }
}

/// `x` with the order of its four bytes reversed.
pub open spec fn reversed(x: u32) -> u32 {
    le_word(byte_of(x, 3), byte_of(x, 2), byte_of(x, 1), byte_of(x, 0))
}

/// The sum of `x` and `y` modulo 2^32.
pub open spec fn sum32(x: u32, y: u32) -> u32 {
    ((x + y) % 0x1_0000_0000) as u32
}

/// `x` rotated left by `s` bit positions, `s` counted modulo 32.
pub open spec fn rotl(x: u32, s: u32) -> u32 {
    let r: u32 = s % 32;
    if r == 0 {
        x
    } else {
        (x << r) | (x >> ((32 - r) as u32))
    }
}

/// Bit `i` of `x`, counted from the least significant one.
pub open spec fn bit_of(x: u32, i: u32) -> bool
    recommends
        i < 32,
{
    (x >> i) & 1 == 1
}

/// Reads four bytes as a little-endian 32-bit word.
pub fn word_from_le(b0: u8, b1: u8, b2: u8, b3: u8) -> (w: u32)
    ensures
        w == le_word(b0, b1, b2, b3),
{
    let x0: u32 = b0 as u32;
    let x1: u32 = b1 as u32;
    let x2: u32 = b2 as u32;
    let x3: u32 = b3 as u32;
    assert((x0 | (x1 << 8) | (x2 << 16) | (x3 << 24)) == x0 + 256 * x1 + 65536 * x2 + 16777216
        * x3) by (bit_vector)
        requires
            x0 < 256,
            x1 < 256,
            x2 < 256,
            x3 < 256,
    ;
    x0 | (x1 << 8) | (x2 << 16) | (x3 << 24)
}

/// Byte `k` of `x`, counted from the least significant one.
pub fn word_byte(x: u32, k: usize) -> (b: u8)
    requires
        k < 4,
    ensures
        b == byte_of(x, k as int),
{
    let shifted: u32 = if k == 0 {
        x
    } else if k == 1 {
        x / 256
    } else if k == 2 {
        x / 65536
    } else {
        x / 16777216
    };
    (shifted % 256) as u8
}

/// Adds modulo 2^32.
pub fn add32(x: u32, y: u32) -> (z: u32)
    ensures
        z == sum32(x, y),
{
    x.wrapping_add(y)
}

/// Rotates `x` left by `s` bits; any `s` is accepted and counts modulo 32.
pub fn rotate_left(x: u32, s: u32) -> (y: u32)
    ensures
        y == rotl(x, s),
{
    let r: u32 = s % 32;
    if r == 0 {
        x
    } else {
        (x << r) | (x >> (32 - r))
    }
}

/// Reverses the order of the four bytes of `x`.
pub fn swap_bytes(x: u32) -> (y: u32)
    ensures
        y == reversed(x),
{
    assert(((x << 24) | ((x & 0xff00) << 8) | ((x >> 8) & 0xff00) | (x >> 24)) == (x / 16777216
        % 256) + 256 * (x / 65536 % 256) + 65536 * (x / 256 % 256) + 16777216 * (x % 256))
        by (bit_vector);
    (x << 24) | ((x & 0xff00) << 8) | ((x >> 8) & 0xff00) | (x >> 24)
}

/// A word is the little-endian reading of its own four bytes.
pub proof fn lemma_word_of_its_bytes(x: u32)
    ensures
        le_word(byte_of(x, 0), byte_of(x, 1), byte_of(x, 2), byte_of(x, 3)) == x,
{
}

/// Each byte of a word read from four bytes is the byte it was read from.
pub proof fn lemma_bytes_of_word(b0: u8, b1: u8, b2: u8, b3: u8)
    ensures
        byte_of(le_word(b0, b1, b2, b3), 0) == b0,
        byte_of(le_word(b0, b1, b2, b3), 1) == b1,
        byte_of(le_word(b0, b1, b2, b3), 2) == b2,
        byte_of(le_word(b0, b1, b2, b3), 3) == b3,
{
    let w: u32 = le_word(b0, b1, b2, b3);
    assert(w % 256 == b0 && w / 256 % 256 == b1 && w / 65536 % 256 == b2 && w / 16777216 % 256
        == b3) by (bit_vector)
        requires
            w == b0 + 256 * b1 + 65536 * b2 + 16777216 * b3,
    ;
}

/// Reversing the bytes moves byte `k` to place `3 - k`, and doing it twice
/// gives the word back.
pub proof fn lemma_reversed(x: u32)
    ensures
        forall|k: int| 0 <= k < 4 ==> byte_of(reversed(x), k) == byte_of(x, 3 - k),
        reversed(reversed(x)) == x,
{
    lemma_bytes_of_word(byte_of(x, 3), byte_of(x, 2), byte_of(x, 1), byte_of(x, 0));
    lemma_word_of_its_bytes(x);
}

/// Rotation by `s` carries bit `i` to place `(i + s) mod 32`: no bit is lost
/// and none is made up.
pub proof fn lemma_rotl_moves_bits(x: u32, s: u32, i: u32)
    requires
        i < 32,
    ensures
        bit_of(rotl(x, s), ((i + s % 32) % 32) as u32) == bit_of(x, i),
{
    let r: u32 = s % 32;
    let j: u32 = ((i + r) % 32) as u32;
    if r == 0 {
        assert(j == i);
    } else {
        let k: u32 = (32 - r) as u32;
        assert((((x << r) | (x >> k)) >> j) & 1 == (x >> i) & 1) by (bit_vector)
            requires
                0 < r < 32,
                k == 32 - r,
                i < 32,
                j == (i + r) % 32,
        ;
    }
}

} // verus!
