//! The digest engine: pad, decode, fold every block into the state in
//! order, and give out the final registers.

use crate::bits::{byte_of, reversed, swap_bytes, word_byte};
use crate::block::{compress, process_block};
use crate::padding::{add_padding, pad, paddable, padded_len};
use crate::state::Md5State;
use crate::words::{block_of, bytes_of, decode_words, words_of};
use vstd::prelude::*;
use vstd::slice::slice_subrange;

verus! {

/// The running state after the first `n` blocks of `words`, starting from
/// `st`: the blocks are folded in one after the other, in order.
pub open spec fn absorb(st: Md5State, words: Seq<u32>, n: nat) -> Md5State
    recommends
        16 * n <= words.len(),
    decreases n,
{
    if n == 0 {
        st
    } else {
        compress(absorb(st, words, (n - 1) as nat), block_of(words, n - 1))
    }
}

/// The registers after the whole padded message has been folded into the
/// initial state.
pub open spec fn final_state(msg: Seq<u8>) -> Md5State {
    let words = words_of(pad(msg));
    absorb(Md5State::initial(), words, words.len() / 16)
}

/// The digest as four words: the final registers A, B, C, D, each with its
/// bytes reversed, so that printing each word as eight hexadecimal digits
/// gives the digest's usual text.
pub open spec fn spec_md5(msg: Seq<u8>) -> Seq<u32> {
    let s = final_state(msg);
    seq![reversed(s.a), reversed(s.b), reversed(s.c), reversed(s.d)]
}

/// The digest as sixteen bytes: the final registers A, B, C, D, each least
/// significant byte first.
pub open spec fn spec_digest(msg: Seq<u8>) -> Seq<u8> {
    bytes_of(final_state(msg).registers())
}

/// The MD5 digest of `data` as four words, in the order and byte order in
/// which they are printed. The length of `data` in bits must fit in 64 bits,
/// and the padded message in memory.
pub fn md5(data: &Vec<u8>) -> (out: [u32; 4])
    requires
        paddable(data@.len()),
    ensures
        out@ == spec_md5(data@),
{
    // a whole number of 64-byte blocks
    let padded: Vec<u8> = add_padding(data);
    // the same as 32-bit words, sixteen to a block
    let words: Vec<u32> = decode_words(&padded);
    let count: usize = words.len() / 16;

    let mut state: Md5State = Md5State::new();
    let mut j: usize = 0;
    while j < count
        invariant
            words@ == words_of(pad(data@)),
            words@.len() == 16 * count,
            16 * count <= usize::MAX,
            j <= count,
            state == absorb(Md5State::initial(), words@, j as nat),
        decreases count - j,
    {
        let block: &[u32] = slice_subrange(words.as_slice(), 16 * j, 16 * j + 16);
        state = process_block(state, block);
        j += 1;
    }

    let a: u32 = swap_bytes(state.a);
    let b: u32 = swap_bytes(state.b);
    let c: u32 = swap_bytes(state.c);
    let d: u32 = swap_bytes(state.d);
    let out: [u32; 4] = [a, b, c, d];
    assert(out@ =~= spec_md5(data@));
    out
}

/// The MD5 digest of `message` as sixteen bytes. The length of `message` in
/// bits must fit in 64 bits, and the padded message in memory.
pub fn digest(message: &Vec<u8>) -> (out: [u8; 16])
    requires
        paddable(message@.len()),
    ensures
        out@ == spec_digest(message@),
{
    let words: [u32; 4] = md5(message);
    let out: [u8; 16] = [
        word_byte(words[0], 3),
        word_byte(words[0], 2),
        word_byte(words[0], 1),
        word_byte(words[0], 0),
        word_byte(words[1], 3),
        word_byte(words[1], 2),
        word_byte(words[1], 1),
        word_byte(words[1], 0),
        word_byte(words[2], 3),
        word_byte(words[2], 2),
        word_byte(words[2], 1),
        word_byte(words[2], 0),
        word_byte(words[3], 3),
        word_byte(words[3], 2),
        word_byte(words[3], 1),
        word_byte(words[3], 0),
    ];
    assert forall|i: int| 0 <= i < 16 implies out@[i] == spec_digest(message@)[i] by {
        lemma_digest_forms(message@, i / 4, i % 4);
    }
    assert(out@ =~= spec_digest(message@)) by {
        lemma_digest_forms(message@, 0, 0);
    }
    out
}

/// The state after `n` blocks depends on the first `n` blocks only: words
/// that come later have no part in it.
pub proof fn lemma_absorb_prefix(st: Md5State, words: Seq<u32>, n: nat)
    requires
        16 * n <= words.len(),
    ensures
        absorb(st, words, n) == absorb(st, words.subrange(0, 16 * n as int), n),
    decreases n,
{
    if n > 0 {
        let m = (n - 1) as nat;
        let head = words.subrange(0, 16 * n as int);
        lemma_absorb_prefix(st, words, m);
        lemma_absorb_prefix(st, head, m);
        assert(head.subrange(0, 16 * m as int) =~= words.subrange(0, 16 * m as int));
        assert(block_of(head, n - 1) =~= block_of(words, n - 1));
    }
}

/// The same message has the same digest: the digest depends on the bytes of
/// the message and on nothing else.
pub proof fn lemma_digest_deterministic(m1: Seq<u8>, m2: Seq<u8>)
    requires
        m1 =~= m2,
    ensures
        spec_md5(m1) == spec_md5(m2),
        spec_digest(m1) == spec_digest(m2),
{
}

/// The two forms of the digest agree: byte `3 - j` of word `k` of the word
/// form, counted from the least significant one, is byte `4 * k + j` of the
/// byte form. Read most significant byte first, the words spell the bytes.
pub proof fn lemma_digest_forms(msg: Seq<u8>, k: int, j: int)
    requires
        0 <= k < 4,
        0 <= j < 4,
    ensures
        spec_md5(msg).len() == 4,
        spec_digest(msg).len() == 16,
        spec_digest(msg)[4 * k + j] == byte_of(spec_md5(msg)[k], 3 - j),
{
    let regs = final_state(msg).registers();
    let w = regs[k];
    assert(spec_md5(msg)[k] == reversed(w));
    assert(spec_digest(msg)[4 * k + j] == byte_of(w, j)) by {
        assert((4 * k + j) / 4 == k && (4 * k + j) % 4 == j);
    }
    assert(byte_of(reversed(w), 3 - j) == byte_of(w, j)) by {
        crate::bits::lemma_reversed(w);
    }
}

/// A message of `n` bytes is digested in `n / 64 + 1` blocks where
/// `n mod 64` is below 56, and in `n / 64 + 2` blocks otherwise.
pub proof fn lemma_blocks_of_message(msg: Seq<u8>)
    ensures
        words_of(pad(msg)).len() == 16 * (padded_len(msg.len()) / 64),
        padded_len(msg.len()) / 64 == if msg.len() % 64 < 56 {
            msg.len() / 64 + 1
        } else {
            msg.len() / 64 + 2
        },
{
    crate::padding::lemma_pad_len(msg);
}

} // verus!
