//! The four 32-bit registers that carry the running hash value.

use crate::bits::{add32, le_word, rotate_left, rotl, sum32, word_from_le};
use crate::round::Round;
use vstd::prelude::*;

verus! {

/// The registers A, B, C and D.
#[derive(Clone, Copy, Debug, PartialEq, Eq, Structural)]
pub struct Md5State {
    pub a: u32,
    pub b: u32,
    pub c: u32,
    pub d: u32,
}

impl Md5State {
    /// The state that every digest starts from.
    pub open spec fn initial() -> Md5State {
        Md5State { a: 0x67452301, b: 0xefcdab89, c: 0x98badcfe, d: 0x10325476 }
    }

    /// The state after one step: the step's value is the sum of register A,
    /// the round's function of B, C and D, the message word and the key; B
    /// gains that value rotated left, and the other registers move on by one
    /// place.
    pub open spec fn spec_round(self, r: Round, msg_block: u32, key: u32, shift_by: u32) -> Md5State {
        let e = sum32(sum32(sum32(self.a, r.spec_mix(self.b, self.c, self.d)), msg_block), key);
        Md5State { a: self.d, b: sum32(self.b, rotl(e, shift_by)), c: self.b, d: self.c }
    }

    /// The register-wise sum modulo 2^32 of two states.
    pub open spec fn spec_update_state(self, new_state: Md5State) -> Md5State {
        Md5State {
            a: sum32(self.a, new_state.a),
            b: sum32(self.b, new_state.b),
            c: sum32(self.c, new_state.c),
            d: sum32(self.d, new_state.d),
        }
    }

    /// The registers as a sequence, A first.
    pub open spec fn registers(self) -> Seq<u32> {
        seq![self.a, self.b, self.c, self.d]
    }

    /// The initial state, each register read from its four bytes in
    /// little-endian order.
    pub fn new() -> (s: Md5State)
        ensures
            s == Md5State::initial(),
    {
        Md5State {
            a: word_from_le(0x01, 0x23, 0x45, 0x67),
            b: word_from_le(0x89, 0xab, 0xcd, 0xef),
            c: word_from_le(0xfe, 0xdc, 0xba, 0x98),
            d: word_from_le(0x76, 0x54, 0x32, 0x10),
        }
    }

    /// Advances the state by one step of round `r`, with message word
    /// `msg_block`, additive constant `key` and rotation amount `shift_by`.
    pub fn round(&mut self, r: Round, msg_block: u32, key: u32, shift_by: u32)
        ensures
            *final(self) == old(self).spec_round(r, msg_block, key, shift_by),
    {
        let f: u32 = r.mix(self.b, self.c, self.d);
        let e: u32 = add32(add32(add32(self.a, f), msg_block), key);
        let b: u32 = self.b;
        self.a = self.d;
        self.d = self.c;
        self.c = b;
        self.b = add32(b, rotate_left(e, shift_by));
    }

    /// Adds `new_state` into this state, register by register, modulo 2^32.
    pub fn update_state(self, new_state: Md5State) -> (s: Md5State)
        ensures
            s == self.spec_update_state(new_state),
    {
        Md5State {
            a: add32(self.a, new_state.a),
            b: add32(self.b, new_state.b),
            c: add32(self.c, new_state.c),
            d: add32(self.d, new_state.d),
        }
    }
}

/// The initial registers are the little-endian readings of the byte runs
/// 01 23 45 67, 89 ab cd ef, fe dc ba 98 and 76 54 32 10.
pub proof fn lemma_initial_bytes()
    ensures
        Md5State::initial().a == le_word(0x01, 0x23, 0x45, 0x67),
        Md5State::initial().b == le_word(0x89, 0xab, 0xcd, 0xef),
        Md5State::initial().c == le_word(0xfe, 0xdc, 0xba, 0x98),
        Md5State::initial().d == le_word(0x76, 0x54, 0x32, 0x10),
{
}

} // verus!
