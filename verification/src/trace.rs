//! The core over many clock edges: what holds of every state it can reach,
//! and what it has computed a given number of cycles after a start.

use vstd::prelude::*;
use crate::machine::{
    accumulate, kernel, loaded, regs_of, reset_model, round_regs, round_word, step, well_formed,
    CoreModel, InputModel, Regs, Sha256Core, Sha256Input, StateModel,
};
use crate::schedule::{
    lemma_first_window, lemma_shift_follows_schedule, lemma_zero_block_schedule, schedule_word,
    spec_expand, window_at,
};
use crate::tables::{spec_h0, spec_k};

verus! {

/// The registers after the core has sampled `inputs` one by one, starting
/// from `q`.
pub open spec fn run(q: CoreModel, inputs: Seq<InputModel>) -> CoreModel
    decreases inputs.len(),
{
    if inputs.len() == 0 {
        q
    } else {
        step(run(q, inputs.drop_last()), inputs.last())
    }
}

/// The working registers after the first `t` rounds of compressing `block`
/// from the initial hash value.
pub open spec fn rounds(block: Seq<u32>, t: nat) -> Regs
    decreases t,
{
    if t == 0 {
        regs_of(spec_h0())
    } else {
        round_regs(
            rounds(block, (t - 1) as nat),
            spec_k(t - 1),
            schedule_word(block, t - 1),
        )
    }
}

/// The SHA-256 compression of `block` from the initial hash value: the
/// initial words plus the working registers after all 64 rounds.
pub open spec fn digest(block: Seq<u32>) -> Seq<u32> {
    accumulate(spec_h0(), rounds(block, 64))
}

/// The registers `n` clock edges after the edge that loaded `block`, with no
/// start in between.
pub open spec fn block_state(block: Seq<u32>, n: nat) -> CoreModel {
    let t = if n < 64 {
        n
    } else {
        64
    };
    CoreModel {
        state: StateModel {
            h: if n < 64 {
                spec_h0()
            } else {
                digest(block)
            },
            regs: rounds(block, t),
            round: t,
            done: n >= 64,
        },
        w: window_at(block, t as int),
    }
}

/// Every input of `inputs` carries a 16-word block.
pub open spec fn blocks_sized(inputs: Seq<InputModel>) -> bool {
    forall|i: int| 0 <= i < inputs.len() ==> (#[trigger] inputs[i]).block.len() == 16
}

/// The completion flag is set exactly when the round counter has reached 64,
/// and the counter never passes 64: this holds after a reset, and every clock
/// edge keeps it, whatever the input.
pub proof fn lemma_step_keeps_well_formed(q: CoreModel, input: InputModel)
    requires
        well_formed(q),
        input.block.len() == 16,
    ensures
        well_formed(reset_model()),
        well_formed(loaded(input.block)),
        well_formed(step(q, input)),
{
}

/// In every state reached from reset, the completion flag is clear while the
/// round counter is below 64 and set once it is 64.
pub proof fn lemma_reachable_well_formed(inputs: Seq<InputModel>)
    requires
        blocks_sized(inputs),
    ensures
        well_formed(run(reset_model(), inputs)),
        run(reset_model(), inputs).state.done == (run(reset_model(), inputs).state.round >= 64),
    decreases inputs.len(),
{
    if inputs.len() > 0 {
        lemma_reachable_well_formed(inputs.drop_last());
        lemma_step_keeps_well_formed(run(reset_model(), inputs.drop_last()), inputs.last());
    }
}

/// Without a start, the round counter goes up by exactly one per clock edge
/// until it is 64, and then stays at 64.
pub proof fn lemma_round_counts_up(q: CoreModel, input: InputModel)
    requires
        well_formed(q),
        !input.start,
    ensures
        !q.state.done ==> step(q, input).state.round == q.state.round + 1,
        q.state.done ==> q.state.round == 64 && step(q, input).state.round == 64,
        step(q, input).state.round >= q.state.round,
{
}

/// Without a start, the accumulators change at no clock edge but the one that
/// takes the round counter from 63 to 64; there they become the old
/// accumulators plus the working registers that the last round leaves.
pub proof fn lemma_accumulators_change_once(q: CoreModel, input: InputModel)
    requires
        well_formed(q),
        !input.start,
    ensures
        q.state.round != 63 ==> step(q, input).state.h == q.state.h,
        q.state.round == 63 ==> step(q, input).state.round == 64 && step(q, input).state.h
            == accumulate(q.state.h, step(q, input).state.regs),
{
}

/// Once done, the core holds all its registers until the next start.
pub proof fn lemma_done_holds(q: CoreModel, input: InputModel)
    requires
        q.state.done,
        !input.start,
    ensures
        step(q, input) == q,
{
}

/// A start takes the core to the loaded state of the input block, whatever
/// it was doing: nothing of the earlier state remains.
pub proof fn lemma_start_preempts(q1: CoreModel, q2: CoreModel, input: InputModel)
    requires
        input.start,
    ensures
        step(q1, input) == loaded(input.block),
        step(q1, input) == step(q2, input),
        step(q1, input).state.round == 0,
        !step(q1, input).state.done,
{
}

/// In each of the 64 rounds the core consumes the word of the message
/// schedule that belongs to the round; from round 16 on that word is the
/// expansion of the schedule words 16, 15, 7 and 2 places before it.
pub proof fn lemma_round_word_is_schedule_word(block: Seq<u32>, t: nat)
    requires
        block.len() == 16,
        t < 64,
    ensures
        round_word(block_state(block, t)) == schedule_word(block, t as int),
        t >= 16 ==> round_word(block_state(block, t)) == spec_expand(
            schedule_word(block, t - 16),
            schedule_word(block, t - 15),
            schedule_word(block, t - 7),
            schedule_word(block, t - 2),
        ),
{
    if t >= 16 {
        lemma_shift_follows_schedule(block, t - 16);
    }
}

/// One computing cycle takes the state `n` cycles after a load to the state
/// `n + 1` cycles after it.
pub proof fn lemma_block_state_steps(block: Seq<u32>, n: nat, input: InputModel)
    requires
        block.len() == 16,
        !input.start,
    ensures
        block_state(block, 0) == loaded(block),
        step(block_state(block, n), input) == block_state(block, n + 1),
{
    lemma_first_window(block);
    if n < 64 {
        lemma_round_word_is_schedule_word(block, n);
        if n >= 16 {
            lemma_shift_follows_schedule(block, n - 16);
        }
        assert(rounds(block, n + 1) == round_regs(
            rounds(block, n),
            spec_k(n as int),
            schedule_word(block, n as int),
        ));
        assert(step(block_state(block, n), input).w =~= block_state(block, n + 1).w);
    }
}

/// From any state, after a start at position `s` of the inputs and no start
/// after it, the registers depend only on the block given at the start and on
/// the number of cycles since: the round counter is that number, capped at
/// 64; the accumulators are the initial hash value for the first 64 cycles and
/// the compression of the block from then on; the window has slid along the
/// message schedule.
pub proof fn lemma_run_after_start(q: CoreModel, inputs: Seq<InputModel>, s: int)
    requires
        0 <= s < inputs.len(),
        inputs[s].start,
        inputs[s].block.len() == 16,
        forall|j: int| s < j < inputs.len() ==> !(#[trigger] inputs[j]).start,
    ensures
        run(q, inputs) == block_state(inputs[s].block, (inputs.len() - 1 - s) as nat),
    decreases inputs.len(),
{
    let block = inputs[s].block;
    if s == inputs.len() - 1 {
        lemma_block_state_steps(block, 0, InputModel { block, start: false });
    } else {
        let before = inputs.drop_last();
        assert(before[s] == inputs[s]);
        lemma_run_after_start(q, before, s);
        lemma_block_state_steps(block, (before.len() - 1 - s) as nat, inputs.last());
    }
}

/// The latency of the core: with a start at position `s` of the inputs and no
/// start after it, the completion flag is set exactly when at least 64 further
/// inputs have been sampled, and from then on the accumulators hold the
/// compression of the block; before that they hold the initial hash value.
pub proof fn lemma_done_after_64_cycles(q: CoreModel, inputs: Seq<InputModel>, s: int)
    requires
        0 <= s < inputs.len(),
        inputs[s].start,
        inputs[s].block.len() == 16,
        forall|j: int| s < j < inputs.len() ==> !(#[trigger] inputs[j]).start,
    ensures
        run(q, inputs).state.done == (inputs.len() - 1 - s >= 64),
        run(q, inputs).state.done ==> run(q, inputs).state.round == 64 && run(q, inputs).state.h
            == digest(inputs[s].block),
        !run(q, inputs).state.done ==> run(q, inputs).state.round == inputs.len() - 1 - s && run(
            q,
            inputs,
        ).state.h == spec_h0(),
{
    lemma_run_after_start(q, inputs, s);
}

/// In any run, the round that follows `n < 64` computing cycles after a start
/// consumes word `n` of the message schedule of the block that the start
/// loaded.
pub proof fn lemma_run_consumes_schedule(q: CoreModel, inputs: Seq<InputModel>, s: int)
    requires
        0 <= s < inputs.len(),
        inputs[s].start,
        inputs[s].block.len() == 16,
        forall|j: int| s < j < inputs.len() ==> !(#[trigger] inputs[j]).start,
        inputs.len() - 1 - s < 64,
    ensures
        run(q, inputs).state.round == inputs.len() - 1 - s,
        round_word(run(q, inputs)) == schedule_word(inputs[s].block, inputs.len() - 1 - s),
{
    lemma_run_after_start(q, inputs, s);
    lemma_round_word_is_schedule_word(inputs[s].block, (inputs.len() - 1 - s) as nat);
}

/// The all-zero block: every word of its schedule is zero, so the window is
/// all zero at every edge after the start, and 64 cycles after the start the
/// core is done with the compression of the block in its accumulators.
pub proof fn lemma_zero_block_run(q: CoreModel, inputs: Seq<InputModel>, s: int)
    requires
        0 <= s < inputs.len(),
        inputs[s].start,
        inputs[s].block.len() == 16,
        forall|i: int| 0 <= i < 16 ==> inputs[s].block[i] == 0,
        forall|j: int| s < j < inputs.len() ==> !(#[trigger] inputs[j]).start,
    ensures
        run(q, inputs).w == Seq::new(16, |i: int| 0u32),
        inputs.len() - 1 - s >= 64 ==> run(q, inputs).state.done && run(q, inputs).state.round
            == 64 && run(q, inputs).state.h == digest(inputs[s].block),
{
    let n = (inputs.len() - 1 - s) as nat;
    lemma_run_after_start(q, inputs, s);
    lemma_zero_block_schedule(
        inputs[s].block,
        if n <= 16 {
            0
        } else if n < 64 {
            n - 16
        } else {
            48
        },
    );
}

/// Runs the core for one block: a start that loads `block`, then `cycles`
/// further clock edges without a start. With 64 cycles or more the
/// accumulators of the result hold the compression of the block.
pub fn run_block(block: [u32; 16], cycles: usize) -> (core: Sha256Core)
    ensures
        core@ == block_state(block@, cycles as nat),
{
    let (_, mut core) = kernel(Sha256Input { block, start: true }, Sha256Core::default());
    let idle = Sha256Input { block, start: false };
    let mut n: usize = 0;
    proof {
        lemma_block_state_steps(block@, 0, idle@);
    }
    while n < cycles
        invariant
            n <= cycles,
            idle@ == (InputModel { block: block@, start: false }),
            core@ == block_state(block@, n as nat),
        decreases cycles - n,
    {
        proof {
            lemma_block_state_steps(block@, n as nat, idle@);
        }
        let (_, next) = kernel(idle, core);
        core = next;
        n += 1;
    }
    core
}

} // verus!
