//! Decoding: a byte sequence read as 32-bit little-endian words, sixteen
//! words to a block.

use crate::bits::{byte_of, le_word, word_from_le};
use vstd::prelude::*;

verus! {

/// The words that `bytes` holds: every four bytes make one word, the first
/// byte least significant. Bytes after the last whole group make none.
pub open spec fn words_of(bytes: Seq<u8>) -> Seq<u32> {
    Seq::new(
        bytes.len() / 4,
        |k: int| le_word(bytes[4 * k], bytes[4 * k + 1], bytes[4 * k + 2], bytes[4 * k + 3]),
    )
}

/// The bytes that `words` stand for: four per word, least significant first.
pub open spec fn bytes_of(words: Seq<u32>) -> Seq<u8> {
    Seq::new(4 * words.len(), |i: int| byte_of(words[i / 4], i % 4))
}

/// Block `j` of `words`: the sixteen words from place `16 * j` on.
pub open spec fn block_of(words: Seq<u32>, j: int) -> Seq<u32>
    recommends
        0 <= j,
        16 * (j + 1) <= words.len(),
{
    words.subrange(16 * j, 16 * j + 16)
}

/// Decodes `bytes`, whose length must be a multiple of 4, into words.
pub fn decode_words(bytes: &Vec<u8>) -> (words: Vec<u32>)
    requires
        bytes@.len() % 4 == 0,
    ensures
        words@ == words_of(bytes@),
{
    let count: usize = bytes.len() / 4;
    let mut words: Vec<u32> = Vec::with_capacity(count);
    let mut k: usize = 0;
    while k < count
        invariant
            bytes@.len() == 4 * count,
            4 * count <= usize::MAX,
            k <= count,
            words@ == words_of(bytes@).subrange(0, k as int),
        decreases count - k,
    {
        let w: u32 = word_from_le(bytes[4 * k], bytes[4 * k + 1], bytes[4 * k + 2], bytes[4 * k + 3]);
        words.push(w);
        k += 1;
        assert(words@ =~= words_of(bytes@).subrange(0, k as int));
    }
    assert(words@ =~= words_of(bytes@));
    words
}

/// Decoding loses nothing: the words of a byte sequence of whole groups
/// stand for exactly those bytes.
pub proof fn lemma_bytes_of_words_of(bytes: Seq<u8>)
    requires
        bytes.len() % 4 == 0,
    ensures
        bytes_of(words_of(bytes)) == bytes,
{
    let back = bytes_of(words_of(bytes));
    assert(back.len() == bytes.len());
    assert forall|i: int| 0 <= i < bytes.len() implies back[i] == bytes[i] by {
        let k = i / 4;
        crate::bits::lemma_bytes_of_word(
            bytes[4 * k],
            bytes[4 * k + 1],
            bytes[4 * k + 2],
            bytes[4 * k + 3],
        );
    }
    assert(back =~= bytes);
}

/// Encoding loses nothing either: the bytes of a word sequence decode to
/// those words.
pub proof fn lemma_words_of_bytes_of(words: Seq<u32>)
    ensures
        words_of(bytes_of(words)) == words,
{
    let b = bytes_of(words);
    let back = words_of(b);
    assert(back.len() == words.len());
    assert forall|k: int| 0 <= k < words.len() implies back[k] == words[k] by {
        crate::bits::lemma_word_of_its_bytes(words[k]);
        assert((4 * k) / 4 == k && (4 * k + 1) / 4 == k && (4 * k + 2) / 4 == k && (4 * k + 3) / 4
            == k);
    }
    assert(back =~= words);
}

/// The blocks cover the words: a padded buffer of `len` bytes, a multiple of
/// 64, holds `len / 64` blocks of sixteen words each.
pub proof fn lemma_block_count(bytes: Seq<u8>)
    requires
        bytes.len() % 64 == 0,
    ensures
        words_of(bytes).len() == 16 * (bytes.len() / 64),
        forall|j: int| 0 <= j < bytes.len() / 64 ==> (#[trigger] block_of(words_of(bytes), j)).len() == 16,
{
}

} // verus!
