//! The block processor: sixty-four steps on a working copy of the state,
//! which is then added into the running state.

use crate::round::Round;
use crate::state::Md5State;
use crate::tables::{round_constant, round_constant_at, shift_at};
use vstd::prelude::*;

verus! {

/// The working state after step `i` on `block`, starting from `st`.
pub open spec fn step(st: Md5State, block: Seq<u32>, i: int) -> Md5State
    recommends
        block.len() == 16,
        0 <= i < 64,
{
    let r = Round::spec_of_step(i);
    st.spec_round(r, block[r.spec_message_index(i)], round_constant(i), r.spec_shift(i))
}

/// The working state after the first `n` steps on `block`, starting from `st`.
pub open spec fn steps(st: Md5State, block: Seq<u32>, n: nat) -> Md5State
    recommends
        block.len() == 16,
        n <= 64,
    decreases n,
{
    if n == 0 {
        st
    } else {
        step(steps(st, block, (n - 1) as nat), block, n - 1)
    }
}

/// The running state after `block`: the state before it, plus the working
/// state that sixty-four steps make of a copy of it.
pub open spec fn compress(st: Md5State, block: Seq<u32>) -> Md5State
    recommends
        block.len() == 16,
{
    st.spec_update_state(steps(st, block, 64))
}

/// Folds one block of sixteen words into `state`.
pub fn process_block(state: Md5State, block: &[u32]) -> (next: Md5State)
    requires
        block@.len() == 16,
    ensures
        next == compress(state, block@),
{
    let mut current_state: Md5State = state;
    let mut i: usize = 0;
    while i < 64
        invariant
            i <= 64,
            block@.len() == 16,
            current_state == steps(state, block@, i as nat),
        decreases 64 - i,
    {
        let r: Round = Round::of_step(i);
        let g: usize = r.message_index(i);
        current_state.round(r, block[g], round_constant_at(i), shift_at(i));
        i += 1;
    }
    state.update_state(current_state)
}

} // verus!
