//! Packing a short message into one padded, big-endian 16-word block.

use vstd::prelude::*;

verus! {

/// Byte `p` of the padded message: the message, then the byte 0x80, then
/// zeros.
pub open spec fn padded_byte(message: Seq<u8>, p: int) -> u8 {
    if 0 <= p < message.len() {
        message[p]
    } else if p == message.len() {
        0x80
    } else {
        0
    }
}

/// The word made of four bytes, the first byte the most significant.
pub open spec fn be_word(b0: u8, b1: u8, b2: u8, b3: u8) -> u32 {
    ((b0 as u32) << 24) | ((b1 as u32) << 16) | ((b2 as u32) << 8) | (b3 as u32)
}

/// Word `i` of the block for `message`: words 0 to 13 pack the padded message
/// big-endian, words 14 and 15 hold the high and the low half of the
/// message's length in bits.
pub open spec fn padded_word(message: Seq<u8>, i: int) -> u32 {
    if i == 14 {
        ((message.len() * 8) / 0x1_0000_0000) as u32
    } else if i == 15 {
        ((message.len() * 8) % 0x1_0000_0000) as u32
    } else {
        be_word(
            padded_byte(message, 4 * i),
            padded_byte(message, 4 * i + 1),
            padded_byte(message, 4 * i + 2),
            padded_byte(message, 4 * i + 3),
        )
    }
}

/// The block for `message`.
pub open spec fn padded_block(message: Seq<u8>) -> Seq<u32> {
    Seq::new(16, |i: int| padded_word(message, i))
}

fn padded_byte_at(message: &[u8], p: usize) -> (b: u8)
    ensures
        b == padded_byte(message@, p as int),
{
    if p < message.len() {
        message[p]
    } else if p == message.len() {
        0x80
    } else {
        0
    }
}

/// Builds the single block for `message`: its bytes, the padding bit, zeros,
/// and the length in bits in the last two words. For a message of at most 55
/// bytes this is the padding that SHA-256 prescribes; of a longer one only
/// the part before the length words is kept.
pub fn pad_message_to_block(message: &[u8]) -> (block: [u32; 16])
    requires
        message@.len() * 8 <= u64::MAX,
    ensures
        block@ == padded_block(message@),
{
    let mut block: [u32; 16] = [0, 0, 0, 0, 0, 0, 0, 0, 0, 0, 0, 0, 0, 0, 0, 0];
    let mut i: usize = 0;
    while i < 14
        invariant
            i <= 14,
            forall|j: int| 0 <= j < i ==> block@[j] == padded_word(message@, j),
        decreases 14 - i,
    {
        let b0 = padded_byte_at(message, 4 * i);
        let b1 = padded_byte_at(message, 4 * i + 1);
        let b2 = padded_byte_at(message, 4 * i + 2);
        let b3 = padded_byte_at(message, 4 * i + 3);
        block[i] = ((b0 as u32) << 24) | ((b1 as u32) << 16) | ((b2 as u32) << 8) | (b3 as u32);
        i += 1;
    }
    let message_len_bits: u64 = (message.len() as u64) * 8;
    block[14] = (message_len_bits / 0x1_0000_0000) as u32;
    block[15] = (message_len_bits % 0x1_0000_0000) as u32;
    assert(block@ =~= padded_block(message@));
    block
}

} // verus!
