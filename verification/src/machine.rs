//! The core itself: its registers, its input and output, and the transition
//! that one clock edge makes.

use vstd::prelude::*;
use crate::schedule::{get_w, spec_next_window};
use crate::tables::{get_k, spec_h0, spec_k, H0};
use crate::words::{
    add32, ch, maj, sigma0, sigma1, spec_add32, spec_ch, spec_maj, spec_sigma0, spec_sigma1,
};

verus! {

/// The eight working registers.
pub struct Regs {
    pub a: u32,
    pub b: u32,
    pub c: u32,
    pub d: u32,
    pub e: u32,
    pub f: u32,
    pub g: u32,
    pub h: u32,
}

/// Mathematical model of [`Sha256State`].
pub struct StateModel {
    pub h: Seq<u32>,
    pub regs: Regs,
    pub round: nat,
    pub done: bool,
}

/// Mathematical model of [`Sha256Input`].
pub struct InputModel {
    pub block: Seq<u32>,
    pub start: bool,
}

/// Mathematical model of [`Sha256Core`]: the state and the schedule window.
pub struct CoreModel {
    pub state: StateModel,
    pub w: Seq<u32>,
}

/// Accumulators, working registers, round counter and completion flag.
#[derive(Clone, Copy, PartialEq, Eq, Debug)]
pub struct Sha256State {
    pub h: [u32; 8],
    pub a: u32,
    pub b: u32,
    pub c: u32,
    pub d: u32,
    pub e: u32,
    pub f: u32,
    pub g: u32,
    pub h_reg: u32,
    pub round: u128,
    pub done: bool,
}

/// What the core samples at a clock edge: a 16-word block and the start signal.
#[derive(Clone, Copy, PartialEq, Eq, Debug)]
pub struct Sha256Input {
    pub block: [u32; 16],
    pub start: bool,
}

/// What the core drives: the completion flag.
#[derive(Clone, Copy, PartialEq, Eq, Debug)]
pub struct Sha256Output {
    pub done: bool,
}

/// All the registers of the core: the state and the 16-word schedule window.
#[derive(Clone, Copy, PartialEq, Eq, Debug)]
pub struct Sha256Core {
    pub state: Sha256State,
    pub w: [u32; 16],
}

impl View for Sha256State {
    type V = StateModel;

    open spec fn view(&self) -> StateModel {
        StateModel {
            h: self.h@,
            regs: Regs {
                a: self.a,
                b: self.b,
                c: self.c,
                d: self.d,
                e: self.e,
                f: self.f,
                g: self.g,
                h: self.h_reg,
            },
            round: self.round as nat,
            done: self.done,
        }
    }
}

impl View for Sha256Input {
    type V = InputModel;

    open spec fn view(&self) -> InputModel {
        InputModel { block: self.block@, start: self.start }
    }
}

impl View for Sha256Core {
    type V = CoreModel;

    open spec fn view(&self) -> CoreModel {
        CoreModel { state: self.state@, w: self.w@ }
    }
}

/// What holds of the registers in every state the core can reach: eight
/// accumulators, a 16-word window, a round counter of at most 64, and the
/// completion flag set exactly when the counter has reached 64.
pub open spec fn well_formed(q: CoreModel) -> bool {
    &&& q.state.h.len() == 8
    &&& q.w.len() == 16
    &&& q.state.round <= 64
    &&& q.state.done == (q.state.round >= 64)
}

/// The working registers in order, `a` first.
pub open spec fn regs_seq(r: Regs) -> Seq<u32> {
    seq![r.a, r.b, r.c, r.d, r.e, r.f, r.g, r.h]
}

/// The working registers that hold the eight words of `s`.
pub open spec fn regs_of(s: Seq<u32>) -> Regs {
    Regs { a: s[0], b: s[1], c: s[2], d: s[3], e: s[4], f: s[5], g: s[6], h: s[7] }
}

/// One round of compression on the working registers, with round constant
/// `k` and schedule word `w`.
pub open spec fn round_regs(r: Regs, k: u32, w: u32) -> Regs {
    let temp1 = spec_add32(
        spec_add32(spec_add32(spec_add32(r.h, spec_sigma1(r.e)), spec_ch(r.e, r.f, r.g)), k),
        w,
    );
    let temp2 = spec_add32(spec_sigma0(r.a), spec_maj(r.a, r.b, r.c));
    Regs {
        a: spec_add32(temp1, temp2),
        b: r.a,
        c: r.b,
        d: r.c,
        e: spec_add32(r.d, temp1),
        f: r.e,
        g: r.f,
        h: r.g,
    }
}

/// The accumulators after the working registers are added to them, word by
/// word and modulo 2^32.
pub open spec fn accumulate(h: Seq<u32>, r: Regs) -> Seq<u32> {
    Seq::new(8, |i: int| spec_add32(h[i], regs_seq(r)[i]))
}

/// The registers right after a start: accumulators and working registers at
/// their initial values, round 0, not done, the window holding the block.
pub open spec fn loaded(block: Seq<u32>) -> CoreModel {
    CoreModel {
        state: StateModel { h: spec_h0(), regs: regs_of(spec_h0()), round: 0, done: false },
        w: block,
    }
}

/// The registers after a reset: everything zero, the flag clear.
pub open spec fn reset_model() -> CoreModel {
    CoreModel {
        state: StateModel {
            h: Seq::new(8, |i: int| 0u32),
            regs: Regs { a: 0, b: 0, c: 0, d: 0, e: 0, f: 0, g: 0, h: 0 },
            round: 0,
            done: false,
        },
        w: Seq::new(16, |i: int| 0u32),
    }
}

/// The schedule word that the round about to execute consumes: during the
/// first 16 rounds the window entry of that round, afterwards the word that
/// the shift appends in the same cycle.
pub open spec fn round_word(q: CoreModel) -> u32 {
    if q.state.round < 16 {
        q.w[q.state.round as int]
    } else {
        spec_next_window(q.state.round as int, q.w)[15]
    }
}

/// The registers one clock edge later, when the core is computing (no start,
/// the flag clear). A round counter of 64 or more with the flag clear is no
/// state the core reaches; there the state is held and a zero enters the
/// window.
pub open spec fn advance(q: CoreModel) -> CoreModel {
    let t = q.state.round;
    let w = spec_next_window(t as int, q.w);
    if t < 64 {
        let r = round_regs(q.state.regs, spec_k(t as int), round_word(q));
        CoreModel {
            state: StateModel {
                h: if t == 63 {
                    accumulate(q.state.h, r)
                } else {
                    q.state.h
                },
                regs: r,
                round: t + 1,
                done: t == 63,
            },
            w,
        }
    } else {
        CoreModel { state: q.state, w }
    }
}

/// The transition of the core: the registers one clock edge later, from the
/// registers now and the input sampled at the edge.
pub open spec fn step(q: CoreModel, input: InputModel) -> CoreModel {
    if input.start {
        loaded(input.block)
    } else if !q.state.done {
        advance(q)
    } else {
        q
    }
}

impl Default for Sha256State {
    /// The state after a reset.
    fn default() -> (s: Self)
        ensures
            s@ == reset_model().state,
    {
        let s = Sha256State {
            h: [0, 0, 0, 0, 0, 0, 0, 0],
            a: 0,
            b: 0,
            c: 0,
            d: 0,
            e: 0,
            f: 0,
            g: 0,
            h_reg: 0,
            round: 0,
            done: false,
        };
        assert(s.h@ =~= reset_model().state.h);
        s
    }
}

impl Default for Sha256Core {
    /// The core after a reset.
    fn default() -> (core: Self)
        ensures
            core@ == reset_model(),
            well_formed(core@),
    {
        let core = Sha256Core {
            state: Sha256State::default(),
            w: [0, 0, 0, 0, 0, 0, 0, 0, 0, 0, 0, 0, 0, 0, 0, 0],
        };
        assert(core.w@ =~= reset_model().w);
        core
    }
}

/// One clock edge of the core. The output is the completion flag as it stands
/// before the edge; the second component holds the registers after it. A
/// start loads the block, whatever the core was doing; otherwise the core
/// executes one round, or holds once it is done.
pub fn kernel(input: Sha256Input, q: Sha256Core) -> (out: (Sha256Output, Sha256Core))
    ensures
        out.0.done == q.state.done,
        out.1@ == step(q@, input@),
        well_formed(q@) ==> well_formed(out.1@),
{
    let output = Sha256Output { done: q.state.done };
    if input.start {
        let state = Sha256State {
            h: [H0[0], H0[1], H0[2], H0[3], H0[4], H0[5], H0[6], H0[7]],
            a: H0[0],
            b: H0[1],
            c: H0[2],
            d: H0[3],
            e: H0[4],
            f: H0[5],
            g: H0[6],
            h_reg: H0[7],
            round: 0,
            done: false,
        };
        assert(state.h@ =~= spec_h0());
        (output, Sha256Core { state, w: input.block })
    } else if !q.state.done {
        let round_val: u128 = q.state.round;
        let w: [u32; 16] = if round_val >= 16 {
            [
                q.w[1],
                q.w[2],
                q.w[3],
                q.w[4],
                q.w[5],
                q.w[6],
                q.w[7],
                q.w[8],
                q.w[9],
                q.w[10],
                q.w[11],
                q.w[12],
                q.w[13],
                q.w[14],
                q.w[15],
                get_w(round_val, q.w[0], q.w[1], q.w[9], q.w[14]),
            ]
        } else {
            q.w
        };
        assert(w@ =~= spec_next_window(round_val as int, q.w@));
        if round_val < 64 {
            let current_w: u32 = if round_val < 16 {
                q.w[round_val as usize]
            } else {
                w[15]
            };
            let s1 = sigma1(q.state.e);
            let ch_result = ch(q.state.e, q.state.f, q.state.g);
            let temp1 = add32(
                add32(add32(add32(q.state.h_reg, s1), ch_result), get_k(round_val)),
                current_w,
            );
            let s0 = sigma0(q.state.a);
            let maj_result = maj(q.state.a, q.state.b, q.state.c);
            let temp2 = add32(s0, maj_result);
            let a = add32(temp1, temp2);
            let b = q.state.a;
            let c = q.state.b;
            let d = q.state.c;
            let e = add32(q.state.d, temp1);
            let f = q.state.e;
            let g = q.state.f;
            let h_reg = q.state.g;
            let last = round_val == 63;
            let h: [u32; 8] = if last {
                [
                    add32(q.state.h[0], a),
                    add32(q.state.h[1], b),
                    add32(q.state.h[2], c),
                    add32(q.state.h[3], d),
                    add32(q.state.h[4], e),
                    add32(q.state.h[5], f),
                    add32(q.state.h[6], g),
                    add32(q.state.h[7], h_reg),
                ]
            } else {
                q.state.h
            };
            let state = Sha256State {
                h,
                a,
                b,
                c,
                d,
                e,
                f,
                g,
                h_reg,
                round: round_val + 1,
                done: last,
            };
            assert(last ==> h@ =~= accumulate(q.state.h@, state@.regs));
            (output, Sha256Core { state, w })
        } else {
            (output, Sha256Core { state: q.state, w })
        }
    } else {
        (output, q)
    }
}

} // verus!
