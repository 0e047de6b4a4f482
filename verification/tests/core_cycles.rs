use sha2::digest::consts::U64;
use sha2::digest::generic_array::GenericArray;
use sha2::{compress256, Digest, Sha256};
use sha256_core::tables::H0;
use sha256_core::{
    kernel, pad_message_to_block, run_block, Sha256Core, Sha256Input, Sha256Output, Sha256State,
};

const ABC_DIGEST: [u32; 8] = [
    0xba7816bf, 0x8f01cfea, 0x414140de, 0x5dae2223, 0xb00361a3, 0x96177a9c, 0xb410ff61, 0xf20015ad,
];

const ZERO_BLOCK_DIGEST: [u32; 8] = [
    0xda5698be, 0x17b9b469, 0x62335799, 0x779fbeca, 0x8ce5d491, 0xc0d26243, 0xbafef9ea, 0x1837a9d8,
];

const ONES_BLOCK_DIGEST: [u32; 8] = [
    0xef0c748d, 0xf4da50a8, 0xd6c43c01, 0x3edc3ce7, 0x6c9d9fa9, 0xa1458ade, 0x56eb86c0, 0xa64492d2,
];

fn start(block: [u32; 16]) -> Sha256Input {
    Sha256Input { block, start: true }
}

fn idle(block: [u32; 16]) -> Sha256Input {
    Sha256Input { block, start: false }
}

/// A start pulse on `block` from the reset state, then `cycles` idle edges.
fn drive(block: [u32; 16], cycles: usize) -> Sha256Core {
    let (_, mut core) = kernel(start(block), Sha256Core::default());
    for _ in 0..cycles {
        let (_, next) = kernel(idle(block), core);
        core = next;
    }
    core
}

/// The 64-word message schedule, computed on a full array.
fn reference_schedule(block: [u32; 16]) -> [u32; 64] {
    let mut w: [u32; 64] = [0; 64];
    w[..16].copy_from_slice(&block);
    for t in 16..64usize {
        let s0: u32 = w[t - 15].rotate_right(7) ^ w[t - 15].rotate_right(18) ^ (w[t - 15] >> 3);
        let s1: u32 = w[t - 2].rotate_right(17) ^ w[t - 2].rotate_right(19) ^ (w[t - 2] >> 10);
        w[t] = s1
            .wrapping_add(w[t - 7])
            .wrapping_add(s0)
            .wrapping_add(w[t - 16]);
    }
    w
}

/// The compression of `block` from the initial hash value, by an independent
/// implementation.
fn reference_compress(block: [u32; 16]) -> [u32; 8] {
    let mut bytes: [u8; 64] = [0; 64];
    for (i, word) in block.iter().enumerate() {
        bytes[4 * i..4 * i + 4].copy_from_slice(&word.to_be_bytes());
    }
    let blocks: [GenericArray<u8, U64>; 1] = [GenericArray::from(bytes)];
    let mut state: [u32; 8] = H0;
    compress256(&mut state, &blocks);
    state
}

fn digest_words(message: &[u8]) -> [u32; 8] {
    let out = Sha256::digest(message);
    let mut words: [u32; 8] = [0; 8];
    for i in 0..8usize {
        words[i] = u32::from_be_bytes([out[4 * i], out[4 * i + 1], out[4 * i + 2], out[4 * i + 3]]);
    }
    words
}

#[test]
fn abc_digest_after_start_and_64_cycles() {
    let block = pad_message_to_block("abc".as_bytes());
    let (_, mut core) = kernel(start(block), Sha256Core::default());
    for _ in 0..64 {
        let (_, next) = kernel(idle(block), core);
        core = next;
    }
    assert!(core.state.done);
    assert_eq!(core.state.round, 64);
    assert_eq!(core.state.h, ABC_DIGEST);
    assert_eq!(core.state.h, digest_words(b"abc"));
}

#[test]
fn default_core_is_all_zero() {
    let core = Sha256Core::default();
    assert_eq!(core.w, [0u32; 16]);
    assert_eq!(core.state, Sha256State::default());
    assert_eq!(
        core.state,
        Sha256State {
            h: [0; 8],
            a: 0,
            b: 0,
            c: 0,
            d: 0,
            e: 0,
            f: 0,
            g: 0,
            h_reg: 0,
            round: 0,
            done: false,
        }
    );
}

#[test]
fn start_loads_initial_values_and_block() {
    let mut block: [u32; 16] = [0; 16];
    for i in 0..16usize {
        block[i] = 0x0101_0101u32.wrapping_mul(i as u32 + 1);
    }
    let (out, core) = kernel(start(block), Sha256Core::default());
    assert_eq!(out, Sha256Output { done: false });
    assert_eq!(core.w, block);
    assert_eq!(core.state.h, H0);
    assert_eq!(
        [
            core.state.a,
            core.state.b,
            core.state.c,
            core.state.d,
            core.state.e,
            core.state.f,
            core.state.g,
            core.state.h_reg
        ],
        H0
    );
    assert_eq!(core.state.round, 0);
    assert!(!core.state.done);
}

#[test]
fn first_round_of_abc_exact_registers() {
    let block = pad_message_to_block(b"abc");
    let core = drive(block, 1);
    assert_eq!(core.state.round, 1);
    assert_eq!(core.state.a, 0x5d6aebcd);
    assert_eq!(core.state.b, 0x6a09e667);
    assert_eq!(core.state.c, 0xbb67ae85);
    assert_eq!(core.state.d, 0x3c6ef372);
    assert_eq!(core.state.e, 0xfa2a4622);
    assert_eq!(core.state.f, 0x510e527f);
    assert_eq!(core.state.g, 0x9b05688c);
    assert_eq!(core.state.h_reg, 0x1f83d9ab);
    assert_eq!(core.state.h, H0);
    assert_eq!(core.w, block);
}

#[test]
fn registers_after_30_rounds_of_abc() {
    let core = drive(pad_message_to_block(b"abc"), 30);
    assert_eq!(core.state.round, 30);
    assert_eq!(
        [
            core.state.a,
            core.state.b,
            core.state.c,
            core.state.d,
            core.state.e,
            core.state.f,
            core.state.g,
            core.state.h_reg
        ],
        [
            0xa0060b30, 0x363482c9, 0x77d37528, 0xb62ec4bc, 0xade79437, 0x6112a3b7, 0xedffbff8,
            0xc74c6516
        ]
    );
}

#[test]
fn round_counts_up_by_one_and_holds_at_64() {
    let block = pad_message_to_block(b"abc");
    let (_, mut core) = kernel(start(block), Sha256Core::default());
    for n in 0..64u128 {
        assert_eq!(core.state.round, n);
        let (_, next) = kernel(idle(block), core);
        assert_eq!(next.state.round, core.state.round + 1);
        core = next;
    }
    for _ in 0..10 {
        assert_eq!(core.state.round, 64);
        let (_, next) = kernel(idle(block), core);
        core = next;
    }
    assert_eq!(core.state.round, 64);
}

#[test]
fn done_flag_is_set_exactly_from_round_64() {
    let block = pad_message_to_block(b"abc");
    let (_, mut core) = kernel(start(block), Sha256Core::default());
    for _ in 0..80 {
        assert_eq!(core.state.done, core.state.round >= 64);
        let (_, next) = kernel(idle(block), core);
        core = next;
    }
    assert!(core.state.done);
}

#[test]
fn output_flag_rises_65_edges_after_the_start_pulse() {
    let block = pad_message_to_block(b"abc");
    let (out, mut core) = kernel(start(block), Sha256Core::default());
    assert!(!out.done);
    for _ in 0..64 {
        let (out, next) = kernel(idle(block), core);
        assert!(!out.done);
        core = next;
    }
    for _ in 0..5 {
        let (out, next) = kernel(idle(block), core);
        assert!(out.done);
        core = next;
    }
}

#[test]
fn accumulators_change_only_at_the_last_round() {
    let block = pad_message_to_block(b"abc");
    let (_, mut core) = kernel(start(block), Sha256Core::default());
    for n in 0..80u32 {
        let (_, next) = kernel(idle(block), core);
        if n == 63 {
            assert_eq!(core.state.h, H0);
            assert_eq!(next.state.h, ABC_DIGEST);
            assert_eq!(next.state.h[0], H0[0].wrapping_add(next.state.a));
            assert_eq!(next.state.h[7], H0[7].wrapping_add(next.state.h_reg));
        } else {
            assert_eq!(next.state.h, core.state.h);
        }
        core = next;
    }
}

#[test]
fn done_state_is_held() {
    let block = pad_message_to_block(b"abc");
    let done = drive(block, 64);
    let (out, next) = kernel(idle([0x5555_5555; 16]), done);
    assert!(out.done);
    assert_eq!(next, done);
}

#[test]
fn start_mid_computation_resets_round_and_discards_progress() {
    let first = pad_message_to_block(b"abc");
    let second = pad_message_to_block(b"a different message");
    let mid = drive(first, 30);
    assert_eq!(mid.state.round, 30);
    let (out, restarted) = kernel(start(second), mid);
    assert!(!out.done);
    assert_eq!(restarted.state.round, 0);
    assert!(!restarted.state.done);
    assert_eq!(restarted.state.h, H0);
    let (_, fresh) = kernel(start(second), Sha256Core::default());
    assert_eq!(restarted, fresh);
    let mut core = restarted;
    for _ in 0..64 {
        let (_, next) = kernel(idle(second), core);
        core = next;
    }
    assert!(core.state.done);
    assert_eq!(core.state.h, digest_words(b"a different message"));
}

#[test]
fn start_after_done_begins_a_new_block() {
    let done = drive(pad_message_to_block(b"abc"), 70);
    assert!(done.state.done);
    let (out, core) = kernel(start([0; 16]), done);
    assert!(out.done);
    assert_eq!(core.state.round, 0);
    assert!(!core.state.done);
    let mut core = core;
    for _ in 0..64 {
        let (_, next) = kernel(idle([0; 16]), core);
        core = next;
    }
    assert_eq!(core.state.h, ZERO_BLOCK_DIGEST);
}

#[test]
fn idle_block_input_is_ignored() {
    let block = pad_message_to_block(b"abc");
    let (_, mut core) = kernel(start(block), Sha256Core::default());
    for n in 0..64u32 {
        let (_, next) = kernel(idle([n; 16]), core);
        core = next;
    }
    assert_eq!(core.state.h, ABC_DIGEST);
}

#[test]
fn window_follows_the_reference_schedule() {
    let mut block: [u32; 16] = [0; 16];
    for i in 0..16usize {
        block[i] = 0x9e37_79b9u32.wrapping_mul(i as u32 + 1) ^ 0x0f0f_1234;
    }
    let reference = reference_schedule(block);
    let (_, mut core) = kernel(start(block), Sha256Core::default());
    for t in 0..64usize {
        assert_eq!(core.state.round, t as u128);
        if t <= 16 {
            assert_eq!(core.w, block);
        } else {
            assert_eq!(core.w[..], reference[t - 16..t]);
        }
        let (_, next) = kernel(idle(block), core);
        if t >= 16 {
            let expected: u32 = (reference[t - 2].rotate_right(17)
                ^ reference[t - 2].rotate_right(19)
                ^ (reference[t - 2] >> 10))
                .wrapping_add(reference[t - 7])
                .wrapping_add(
                    reference[t - 15].rotate_right(7)
                        ^ reference[t - 15].rotate_right(18)
                        ^ (reference[t - 15] >> 3),
                )
                .wrapping_add(reference[t - 16]);
            assert_eq!(next.w[15], expected);
            assert_eq!(next.w[15], reference[t]);
        }
        core = next;
    }
    assert_eq!(core.w[..], reference[48..64]);
}

#[test]
fn abc_schedule_words_exact() {
    let block = pad_message_to_block(b"abc");
    assert_eq!(drive(block, 17).w[15], 0x61626380);
    assert_eq!(drive(block, 18).w[15], 0x000f0000);
    assert_eq!(drive(block, 19).w[15], 0x7da86405);
    assert_eq!(drive(block, 20).w[15], 0x600003c6);
    assert_eq!(drive(block, 64).w[15], 0x12b1edeb);
}

#[test]
fn zero_block_digest() {
    let core = drive([0; 16], 64);
    assert!(core.state.done);
    assert_eq!(core.state.h, ZERO_BLOCK_DIGEST);
    assert_eq!(core.state.h, reference_compress([0; 16]));
}

#[test]
fn all_ones_block_digest() {
    let core = drive([0xffff_ffff; 16], 64);
    assert!(core.state.done);
    assert_eq!(core.state.h, ONES_BLOCK_DIGEST);
    assert_eq!(core.state.h, reference_compress([0xffff_ffff; 16]));
}

#[test]
fn patterned_blocks_match_reference_compression() {
    for seed in 1..20u32 {
        let mut block: [u32; 16] = [0; 16];
        for i in 0..16usize {
            block[i] = seed.wrapping_mul(0x0100_0193).rotate_left(i as u32) ^ (i as u32);
        }
        assert_eq!(drive(block, 64).state.h, reference_compress(block));
    }
}

#[test]
fn run_block_equals_start_then_idle_cycles() {
    let block = pad_message_to_block(b"abc");
    for cycles in [0usize, 1, 15, 16, 17, 63, 64, 65, 70] {
        assert_eq!(run_block(block, cycles), drive(block, cycles));
    }
    assert_eq!(run_block(block, 64).state.h, ABC_DIGEST);
    assert_eq!(run_block(block, 1000).state.h, ABC_DIGEST);
    assert_eq!(run_block(block, 63).state.h, H0);
}

#[test]
fn reset_state_computes_on_zeroed_registers() {
    let (out, next) = kernel(idle([0xabcd_ef01; 16]), Sha256Core::default());
    assert!(!out.done);
    assert_eq!(next.state.round, 1);
    assert_eq!(next.w, [0u32; 16]);
    assert_eq!(next.state.h, [0u32; 8]);
    // temp1 = 0 + sigma1(0) + ch(0, 0, 0) + K[0] + 0, temp2 = 0
    assert_eq!(next.state.a, 0x428a2f98);
    assert_eq!(next.state.e, 0x428a2f98);
    assert_eq!(next.state.b, 0);
}

#[test]
fn counter_past_64_without_flag_holds_state_and_shifts_window() {
    let mut w: [u32; 16] = [0; 16];
    for i in 0..16usize {
        w[i] = i as u32 + 1;
    }
    let state = Sha256State {
        h: [9; 8],
        a: 1,
        b: 2,
        c: 3,
        d: 4,
        e: 5,
        f: 6,
        g: 7,
        h_reg: 8,
        round: 100,
        done: false,
    };
    let (out, next) = kernel(idle([0; 16]), Sha256Core { state, w });
    assert!(!out.done);
    assert_eq!(next.state, state);
    assert_eq!(next.w[..15], w[1..]);
    // No schedule word belongs to a round past the last one: a zero enters.
    assert_eq!(next.w[15], 0);
}

#[test]
fn counter_at_64_without_flag_appends_zero() {
    let state = Sha256State {
        h: [9; 8],
        a: 1,
        b: 2,
        c: 3,
        d: 4,
        e: 5,
        f: 6,
        g: 7,
        h_reg: 8,
        round: 64,
        done: false,
    };
    let mut w: [u32; 16] = [0; 16];
    w[0] = 1;
    let (_, next) = kernel(idle([0; 16]), Sha256Core { state, w });
    assert_eq!(next.state, state);
    assert_eq!(next.w, [0u32; 16]);
}

#[test]
fn last_round_still_expands_the_window() {
    let mut w: [u32; 16] = [0; 16];
    for i in 0..16usize {
        w[i] = i as u32 + 1;
    }
    let state = Sha256State {
        h: [0; 8],
        a: 0,
        b: 0,
        c: 0,
        d: 0,
        e: 0,
        f: 0,
        g: 0,
        h_reg: 0,
        round: 63,
        done: false,
    };
    let (_, next) = kernel(idle([0; 16]), Sha256Core { state, w });
    let expected: u32 = (15u32.rotate_right(17) ^ 15u32.rotate_right(19) ^ (15u32 >> 10))
        .wrapping_add(10)
        .wrapping_add(2u32.rotate_right(7) ^ 2u32.rotate_right(18) ^ (2u32 >> 3))
        .wrapping_add(1);
    assert_eq!(next.w[..15], w[1..]);
    assert_eq!(next.w[15], expected);
    assert_eq!(next.state.round, 64);
    assert!(next.state.done);
}

#[test]
fn zero_block_keeps_the_window_zero() {
    let (_, mut core) = kernel(start([0; 16]), Sha256Core::default());
    for _ in 0..64 {
        assert_eq!(core.w, [0u32; 16]);
        let (_, next) = kernel(idle([0; 16]), core);
        core = next;
    }
    assert!(core.state.done);
    assert_eq!(core.w, [0u32; 16]);
    assert_eq!(core.state.h, ZERO_BLOCK_DIGEST);
    assert_eq!(core.state.h, reference_compress([0; 16]));
}
