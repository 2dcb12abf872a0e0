//! Padding: a message becomes a whole number of 64-byte blocks by appending
//! one set bit, zero bits, and the message's length in bits.

use vstd::prelude::*;

verus! {

/// The length in bytes of a padded message of `n` bytes: the least multiple
/// of 64 that leaves room for the marker byte and the 8-byte length field.
pub open spec fn padded_len(n: nat) -> nat {
    (((n + 8) / 64 + 1) * 64) as nat
}

/// The eight bytes of the length field for a message of `bits` bits: the
/// low 64 bits of `bits`, least significant byte first.
pub open spec fn length_field(bits: nat) -> Seq<u8> {
    seq![
        (bits % 0x100) as u8,
        (bits / 0x100 % 0x100) as u8,
        (bits / 0x1_0000 % 0x100) as u8,
        (bits / 0x100_0000 % 0x100) as u8,
        (bits / 0x1_0000_0000 % 0x100) as u8,
        (bits / 0x100_0000_0000 % 0x100) as u8,
        (bits / 0x1_0000_0000_0000 % 0x100) as u8,
        (bits / 0x100_0000_0000_0000 % 0x100) as u8,
    ]
}

/// The number that eight bytes stand for in little-endian order.
pub open spec fn le_u64(s: Seq<u8>) -> nat
    recommends
        s.len() == 8,
{
    (s[0] + 0x100 * s[1] + 0x1_0000 * s[2] + 0x100_0000 * s[3] + 0x1_0000_0000 * s[4]
        + 0x100_0000_0000 * s[5] + 0x1_0000_0000_0000 * s[6] + 0x100_0000_0000_0000 * s[7]) as nat
}

/// The run of zero bytes between the marker byte and the length field.
pub open spec fn zero_fill(msg_len: nat) -> Seq<u8> {
    Seq::new((padded_len(msg_len) - msg_len - 9) as nat, |i: int| 0u8)
}

/// The padded message: the message, the byte 0x80, zero bytes up to eight
/// bytes before the next block boundary, and the message's length in bits.
pub open spec fn pad(msg: Seq<u8>) -> Seq<u8> {
    msg + seq![0x80u8] + zero_fill(msg.len()) + length_field(8 * msg.len())
}

/// Whether a message of `n` bytes can be padded on this machine: its length
/// in bits fits the 64-bit length field, and its padded length fits a `usize`.
pub open spec fn paddable(n: nat) -> bool {
    8 * n <= u64::MAX && padded_len(n) <= usize::MAX
}

/// Tells whether a message of `len` bytes can be padded.
pub fn is_paddable(len: usize) -> (ok: bool)
    ensures
        ok == paddable(len as nat),
{
    len <= usize::MAX - 72 && len as u64 <= u64::MAX / 8
}

/// Appends the eight bytes of the length field for `bits` to `out`.
pub fn push_length_field(out: &mut Vec<u8>, bits: u64)
    ensures
        final(out)@ == old(out)@ + length_field(bits as nat),
{
    out.push((bits % 0x100) as u8);
    out.push((bits / 0x100 % 0x100) as u8);
    out.push((bits / 0x1_0000 % 0x100) as u8);
    out.push((bits / 0x100_0000 % 0x100) as u8);
    out.push((bits / 0x1_0000_0000 % 0x100) as u8);
    out.push((bits / 0x100_0000_0000 % 0x100) as u8);
    out.push((bits / 0x1_0000_0000_0000 % 0x100) as u8);
    out.push((bits / 0x100_0000_0000_0000 % 0x100) as u8);
    assert(out@ =~= old(out)@ + length_field(bits as nat));
}

/// Pads `data`. The length in bits must fit the 64-bit length field, and the
/// padded length must fit in memory.
pub fn add_padding(data: &Vec<u8>) -> (padded: Vec<u8>)
    requires
        paddable(data@.len()),
    ensures
        padded@ == pad(data@),
        padded@.len() % 64 == 0,
        padded@.len() >= data@.len() + 9,
        le_u64(padded@.subrange(padded@.len() - 8, padded@.len() as int)) == 8 * data@.len(),
{
    proof {
        lemma_pad_len(data@);
        lemma_pad_length_field(data@);
    }
    let n: usize = data.len();
    let total: usize = (n + 8) / 64 * 64 + 64;
    let msg_bits: u64 = (n as u64) * 8;
    let mut padded: Vec<u8> = data.clone();
    // the set bit, then the clear bits
    padded.push(0x80);
    let ghost marked = padded@;
    padded.resize(total - 8, 0x00);
    assert(padded@ =~= data@ + seq![0x80u8] + zero_fill(data@.len())) by {
        assert(marked =~= data@ + seq![0x80u8]);
        assert forall|i: int| 0 <= i < n + 1 implies padded@[i] == marked[i] by {
            assert(padded@[i] == padded@.subrange(0, n + 1)[i]);
        }
    }
    // the message length
    push_length_field(&mut padded, msg_bits);
    padded
}

/// The padded length is a multiple of 64 and exceeds the message's length by
/// at least 9 and at most 72.
pub proof fn lemma_padded_len_bounds(n: nat)
    ensures
        padded_len(n) % 64 == 0,
        n + 9 <= padded_len(n) <= n + 72,
{
}

/// No smaller multiple of 64 leaves room for the marker byte and the length
/// field.
pub proof fn lemma_padded_len_least(n: nat, k: nat)
    requires
        k % 64 == 0,
        k >= n + 9,
    ensures
        k >= padded_len(n),
{
}

/// Counted in bits, the part before the length field has
/// `(bits + 64 + 512) / 512 * 512 - 64` bits, where `bits` is the message's
/// length in bits.
pub proof fn lemma_padded_len_in_bits(n: nat)
    ensures
        8 * (padded_len(n) - 8) == (8 * n + 64 + 512) / 512 * 512 - 64,
{
}

/// A padded message is a whole number of 64-byte blocks and at least 9 bytes
/// longer than the message.
pub proof fn lemma_pad_len(msg: Seq<u8>)
    ensures
        pad(msg).len() == padded_len(msg.len()),
        pad(msg).len() % 64 == 0,
        pad(msg).len() >= msg.len() + 9,
{
    lemma_padded_len_bounds(msg.len());
}

/// The length field reads back, in little-endian order, as the number of
/// bits it was made from.
pub proof fn lemma_length_field_value(bits: nat)
    requires
        bits <= u64::MAX,
    ensures
        length_field(bits).len() == 8,
        le_u64(length_field(bits)) == bits,
{
    let b: u64 = bits as u64;
    assert(b % 0x100 + 0x100 * (b / 0x100 % 0x100) + 0x1_0000 * (b / 0x1_0000 % 0x100) + 0x100_0000
        * (b / 0x100_0000 % 0x100) + 0x1_0000_0000 * (b / 0x1_0000_0000 % 0x100) + 0x100_0000_0000
        * (b / 0x100_0000_0000 % 0x100) + 0x1_0000_0000_0000 * (b / 0x1_0000_0000_0000 % 0x100)
        + 0x100_0000_0000_0000 * (b / 0x100_0000_0000_0000 % 0x100) == b) by (bit_vector);
}

/// The last 8 bytes of a padded message, read in little-endian order, are 8
/// times the message's length in bytes.
pub proof fn lemma_pad_length_field(msg: Seq<u8>)
    requires
        8 * msg.len() <= u64::MAX,
    ensures
        le_u64(pad(msg).subrange(pad(msg).len() - 8, pad(msg).len() as int)) == 8 * msg.len(),
{
    let p = pad(msg);
    lemma_length_field_value(8 * msg.len());
    assert(p.subrange(p.len() - 8, p.len() as int) =~= length_field(8 * msg.len()));
}

/// A padded message starts with the message itself, followed by the byte
/// 0x80 and then zero bytes only, up to the length field.
pub proof fn lemma_pad_layout(msg: Seq<u8>)
    ensures
        pad(msg).subrange(0, msg.len() as int) == msg,
        pad(msg)[msg.len() as int] == 0x80u8,
        forall|i: int| msg.len() < i < pad(msg).len() - 8 ==> pad(msg)[i] == 0u8,
{
    assert(pad(msg).subrange(0, msg.len() as int) =~= msg);
}

/// Padding loses nothing: two messages with the same padded form are the
/// same message.
pub proof fn lemma_pad_injective(m1: Seq<u8>, m2: Seq<u8>)
    requires
        8 * m1.len() <= u64::MAX,
        8 * m2.len() <= u64::MAX,
        pad(m1) == pad(m2),
    ensures
        m1 == m2,
{
    lemma_pad_length_field(m1);
    lemma_pad_length_field(m2);
    lemma_pad_layout(m1);
    lemma_pad_layout(m2);
}

} // verus!
