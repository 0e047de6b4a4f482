//! The message schedule: the 64 words derived from a block, and the 16-word
//! window that the core slides over them.

use vstd::prelude::*;
use crate::words::{add32, gamma0, gamma1, spec_add32, spec_gamma0, spec_gamma1};

verus! {

/// The word that extends a schedule, from the words 16, 15, 7 and 2 places
/// before it (`w0`, `w1`, `w9`, `w14` when they sit in a 16-word window).
pub open spec fn spec_expand(w0: u32, w1: u32, w9: u32, w14: u32) -> u32 {
    spec_add32(spec_add32(spec_add32(spec_gamma1(w14), w9), spec_gamma0(w1)), w0)
}

/// Word `t` of the 64-word message schedule of `block`: the block's own
/// words first, each later word expanded from four earlier ones. An index
/// that is not one of the 64 rounds gives 0.
pub open spec fn schedule_word(block: Seq<u32>, t: int) -> u32
    decreases t,
{
    if t < 0 || t >= 64 {
        0
    } else if t < 16 {
        if t < block.len() {
            block[t]
        } else {
            0
        }
    } else {
        spec_expand(
            schedule_word(block, t - 16),
            schedule_word(block, t - 15),
            schedule_word(block, t - 7),
            schedule_word(block, t - 2),
        )
    }
}

/// The 16 schedule words starting at word `from`.
pub open spec fn schedule_window(block: Seq<u32>, from: int) -> Seq<u32> {
    Seq::new(16, |i: int| schedule_word(block, from + i))
}

/// What the window holds when the core is about to execute round `t`: the
/// block itself through round 16, afterwards the 16 words before word `t`.
pub open spec fn window_at(block: Seq<u32>, t: int) -> Seq<u32> {
    schedule_window(
        block,
        if t <= 16 {
            0
        } else {
            t - 16
        },
    )
}

/// The window moved on by one word: every entry moves one place down and the
/// expansion of the old entries is appended.
pub open spec fn spec_shift(w: Seq<u32>) -> Seq<u32> {
    w.subrange(1, 16).push(spec_expand(w[0], w[1], w[9], w[14]))
}

/// The word that `get_w` selects: the stored word during the first 16 rounds,
/// the expansion in the rounds 16 to 63, and 0 for anything past the last
/// round.
pub open spec fn spec_get_w(round: int, w0: u32, w1: u32, w9: u32, w14: u32) -> u32 {
    if round < 16 {
        w0
    } else if round < 64 {
        spec_expand(w0, w1, w9, w14)
    } else {
        0
    }
}

/// The window one clock edge after a computing cycle in round `round`: held
/// during the first 16 rounds, afterwards moved one place down with the word
/// that `get_w` selects appended.
pub open spec fn spec_next_window(round: int, w: Seq<u32>) -> Seq<u32> {
    if round < 16 {
        w
    } else {
        w.subrange(1, 16).push(spec_get_w(round, w[0], w[1], w[9], w[14]))
    }
}

/// The schedule word that enters the window in round `round`: the stored word
/// during the first 16 rounds, the expansion of the four window entries in
/// the rounds 16 to 63, and 0 where `round` is past the last round.
pub fn get_w(round: u128, w0: u32, w1: u32, w9: u32, w14: u32) -> (r: u32)
    ensures
        r == spec_get_w(round as int, w0, w1, w9, w14),
{
    if round < 16 {
        w0
    } else if round < 64 {
        add32(add32(add32(gamma1(w14), w9), gamma0(w1)), w0)
    } else {
        0
    }
}

/// A window over the schedule of a 16-word block starts as the block.
pub proof fn lemma_first_window(block: Seq<u32>)
    requires
        block.len() == 16,
    ensures
        schedule_window(block, 0) == block,
{
    assert(schedule_window(block, 0) =~= block);
}

/// Shifting a window over the schedule gives the window one word further on,
/// as long as the word that enters is one of the 64; it is what the core
/// appends in round `from + 16`.
pub proof fn lemma_shift_follows_schedule(block: Seq<u32>, from: int)
    requires
        0 <= from < 48,
    ensures
        spec_shift(schedule_window(block, from)) == schedule_window(block, from + 1),
        spec_shift(schedule_window(block, from))[15] == schedule_word(block, from + 16),
        spec_next_window(from + 16, schedule_window(block, from)) == schedule_window(
            block,
            from + 1,
        ),
{
    let w = schedule_window(block, from);
    assert(schedule_word(block, from + 16) == spec_expand(w[0], w[1], w[9], w[14]));
    assert(spec_shift(w) =~= schedule_window(block, from + 1));
}

/// The schedule of the all-zero block is all zero.
pub proof fn lemma_zero_block_schedule(block: Seq<u32>, t: int)
    requires
        block.len() == 16,
        forall|i: int| 0 <= i < 16 ==> block[i] == 0,
    ensures
        schedule_word(block, t) == 0,
        schedule_window(block, t) == Seq::new(16, |i: int| 0u32),
{
    assert forall|u: int| schedule_word(block, u) == 0 by {
        lemma_zero_block_word(block, u);
    }
    assert(schedule_window(block, t) =~= Seq::new(16, |i: int| 0u32));
}

proof fn lemma_zero_block_word(block: Seq<u32>, t: int)
    requires
        block.len() == 16,
        forall|i: int| 0 <= i < 16 ==> block[i] == 0,
    ensures
        schedule_word(block, t) == 0,
    decreases t,
{
    if 16 <= t < 64 {
        lemma_zero_block_word(block, t - 16);
        lemma_zero_block_word(block, t - 15);
        lemma_zero_block_word(block, t - 7);
        lemma_zero_block_word(block, t - 2);
        assert(spec_gamma0(0) == 0) by (bit_vector);
        assert(spec_gamma1(0) == 0) by (bit_vector);
    }
}

} // verus!
