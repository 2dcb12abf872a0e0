//! The four rounds of sixteen steps: which round a step belongs to, and what
//! each round mixes, which message word it reads and by how much it rotates.

use crate::bits::bit_of;
use vstd::prelude::*;

verus! {

/// One of the four rounds. Steps 0 to 15 belong to the first, 16 to 31 to the
/// second, 32 to 47 to the third and 48 to 63 to the fourth.
#[derive(Clone, Copy, Debug, PartialEq, Eq, Structural)]
pub enum Round {
    Round1,
    Round2,
    Round3,
    Round4,
}

impl Round {
    /// The round that step `i` belongs to.
    pub open spec fn spec_of_step(i: int) -> Round
        recommends
            0 <= i < 64,
    {
        if i < 16 {
            Round::Round1
        } else if i < 32 {
            Round::Round2
        } else if i < 48 {
            Round::Round3
        } else {
            Round::Round4
        }
    }

    /// The nonlinear function of this round, applied bit by bit.
    pub open spec fn spec_mix(self, x: u32, y: u32, z: u32) -> u32 {
        match self {
            Round::Round1 => (x & y) | (!x & z),
            Round::Round2 => (x & z) | (y & !z),
            Round::Round3 => x ^ y ^ z,
            Round::Round4 => y ^ (x | !z),
        }
    }

    /// The index of the message word that step `i` of this round reads.
    pub open spec fn spec_message_index(self, i: int) -> int
        recommends
            0 <= i < 64,
    {
        match self {
            Round::Round1 => i,
            Round::Round2 => (5 * i + 1) % 16,
            Round::Round3 => (3 * i + 5) % 16,
            Round::Round4 => (7 * i) % 16,
        }
    }

    /// The four rotation amounts of this round.
    pub open spec fn spec_shifts(self) -> Seq<u32> {
        match self {
            Round::Round1 => seq![7u32, 12u32, 17u32, 22u32],
            Round::Round2 => seq![5u32, 9u32, 14u32, 20u32],
            Round::Round3 => seq![4u32, 11u32, 16u32, 23u32],
            Round::Round4 => seq![6u32, 10u32, 15u32, 21u32],
        }
    }

    /// The rotation amount of step `i` of this round: the four amounts are
    /// taken in turn.
    pub open spec fn spec_shift(self, i: int) -> u32
        recommends
            0 <= i < 64,
    {
        self.spec_shifts()[i % 4]
    }

    /// The round that step `i` belongs to.
    pub fn of_step(i: usize) -> (r: Round)
        requires
            i < 64,
        ensures
            r == Round::spec_of_step(i as int),
    {
        if i < 16 {
            Round::Round1
        } else if i < 32 {
            Round::Round2
        } else if i < 48 {
            Round::Round3
        } else {
            Round::Round4
        }
    }

    /// Applies the nonlinear function of this round.
    pub fn mix(self, x: u32, y: u32, z: u32) -> (f: u32)
        ensures
            f == self.spec_mix(x, y, z),
    {
        match self {
            Round::Round1 => (x & y) | (!x & z),
            Round::Round2 => (x & z) | (y & !z),
            Round::Round3 => x ^ y ^ z,
            Round::Round4 => y ^ (x | !z),
        }
    }

    /// The index of the message word that step `i` reads by this round's
    /// formula; it lies inside the block where `i` is a step of this round.
    pub fn message_index(self, i: usize) -> (g: usize)
        requires
            i < 64,
        ensures
            g == self.spec_message_index(i as int),
            self == Round::spec_of_step(i as int) ==> g < 16,
    {
        match self {
            Round::Round1 => i,
            Round::Round2 => (5 * i + 1) % 16,
            Round::Round3 => (3 * i + 5) % 16,
            Round::Round4 => (7 * i) % 16,
        }
    }
}

/// What each round's function does to one bit position: the first round
/// chooses between `y` and `z` by `x`, the second between `x` and `y` by `z`,
/// the third takes the parity of the three, and the fourth compares `y` with
/// "`x` or not `z`".
pub proof fn lemma_mix_bitwise(r: Round, x: u32, y: u32, z: u32, i: u32)
    requires
        i < 32,
    ensures
        bit_of(r.spec_mix(x, y, z), i) == match r {
            Round::Round1 => if bit_of(x, i) {
                bit_of(y, i)
            } else {
                bit_of(z, i)
            },
            Round::Round2 => if bit_of(z, i) {
                bit_of(x, i)
            } else {
                bit_of(y, i)
            },
            Round::Round3 => (bit_of(x, i) != bit_of(y, i)) != bit_of(z, i),
            Round::Round4 => bit_of(y, i) != (bit_of(x, i) || !bit_of(z, i)),
        },
{
    match r {
        Round::Round1 => {
            assert(((((x & y) | (!x & z)) >> i) & 1 == 1) == (if (x >> i) & 1 == 1 {
                (y >> i) & 1 == 1
            } else {
                (z >> i) & 1 == 1
            })) by (bit_vector)
                requires
                    i < 32,
            ;
        },
        Round::Round2 => {
            assert(((((x & z) | (y & !z)) >> i) & 1 == 1) == (if (z >> i) & 1 == 1 {
                (x >> i) & 1 == 1
            } else {
                (y >> i) & 1 == 1
            })) by (bit_vector)
                requires
                    i < 32,
            ;
        },
        Round::Round3 => {
            assert((((x ^ y ^ z) >> i) & 1 == 1) == ((((x >> i) & 1 == 1) != ((y >> i) & 1 == 1))
                != ((z >> i) & 1 == 1))) by (bit_vector)
                requires
                    i < 32,
            ;
        },
        Round::Round4 => {
            assert((((y ^ (x | !z)) >> i) & 1 == 1) == (((y >> i) & 1 == 1) != (((x >> i) & 1 == 1)
                || !((z >> i) & 1 == 1)))) by (bit_vector)
                requires
                    i < 32,
            ;
        },
    }
}

/// Within one round every message word is read exactly once: the sixteen
/// steps of a round read sixteen different words of the block.
pub proof fn lemma_message_index_once(i: int, j: int)
    requires
        0 <= i < 64,
        0 <= j < 64,
        Round::spec_of_step(i) == Round::spec_of_step(j),
        Round::spec_of_step(i).spec_message_index(i) == Round::spec_of_step(j).spec_message_index(
            j,
        ),
    ensures
        i == j,
{
    let a: u32 = i as u32;
    let b: u32 = j as u32;
    match Round::spec_of_step(i) {
        Round::Round1 => {},
        Round::Round2 => {
            assert(a == b) by (bit_vector)
                requires
                    16 <= a < 32,
                    16 <= b < 32,
                    (5 * a + 1) % 16 == (5 * b + 1) % 16,
            ;
        },
        Round::Round3 => {
            assert(a == b) by (bit_vector)
                requires
                    32 <= a < 48,
                    32 <= b < 48,
                    (3 * a + 5) % 16 == (3 * b + 5) % 16,
            ;
        },
        Round::Round4 => {
            assert(a == b) by (bit_vector)
                requires
                    48 <= a < 64,
                    48 <= b < 64,
                    (7 * a) % 16 == (7 * b) % 16,
            ;
        },
    }
}

/// The message index of a step lies inside the block.
pub proof fn lemma_message_index_in_block(i: int)
    requires
        0 <= i < 64,
    ensures
        0 <= Round::spec_of_step(i).spec_message_index(i) < 16,
{
}

} // verus!
