//! The combinational word functions of SHA-256: rotation, choice, majority
//! and the four mixing functions, all on 32-bit words.

use vstd::prelude::*;

verus! {

/// Sum of two words modulo 2^32.
pub open spec fn spec_add32(x: u32, y: u32) -> u32 {
    ((x + y) % 0x1_0000_0000) as u32
}

/// `x` rotated right by `n mod 32` bit positions.
pub open spec fn spec_rotr(x: u32, n: u32) -> u32 {
    let k = n % 32;
    if k == 0 {
        x
    } else {
        (x >> k) | (x << ((32 - k) as u32))
    }
}

/// Each bit of `x` selects the matching bit of `y` (where it is 1) or of `z`
/// (where it is 0).
pub open spec fn spec_ch(x: u32, y: u32, z: u32) -> u32 {
    (x & y) ^ (!x & z)
}

/// Each result bit is the value that at least two of the three inputs share.
pub open spec fn spec_maj(x: u32, y: u32, z: u32) -> u32 {
    (x & y) ^ (x & z) ^ (y & z)
}

/// The mixing function applied to register `a` in each round.
pub open spec fn spec_sigma0(x: u32) -> u32 {
    spec_rotr(x, 2) ^ spec_rotr(x, 13) ^ spec_rotr(x, 22)
}

/// The mixing function applied to register `e` in each round.
pub open spec fn spec_sigma1(x: u32) -> u32 {
    spec_rotr(x, 6) ^ spec_rotr(x, 11) ^ spec_rotr(x, 25)
}

/// The first mixing function of the schedule expansion; its last term is a
/// plain shift, which drops bits.
pub open spec fn spec_gamma0(x: u32) -> u32 {
    spec_rotr(x, 7) ^ spec_rotr(x, 18) ^ (x >> 3)
}

/// The second mixing function of the schedule expansion; its last term is a
/// plain shift, which drops bits.
pub open spec fn spec_gamma1(x: u32) -> u32 {
    spec_rotr(x, 17) ^ spec_rotr(x, 19) ^ (x >> 10)
}

/// Wrap-around addition of two words.
pub fn add32(x: u32, y: u32) -> (r: u32)
    ensures
        r == spec_add32(x, y),
{
    x.wrapping_add(y)
}

/// Rotates `x` right by `n mod 32` bits.
pub fn rotr(x: u32, n: u32) -> (r: u32)
    ensures
        r == spec_rotr(x, n),
{
    let k: u32 = n % 32;
    if k == 0 {
        x
    } else {
        (x >> k) | (x << (32 - k))
    }
}

/// Choice of `y` or `z`, bit by bit, by `x`.
pub fn ch(x: u32, y: u32, z: u32) -> (r: u32)
    ensures
        r == spec_ch(x, y, z),
{
    (x & y) ^ (!x & z)
}

/// Majority of the three words, bit by bit.
pub fn maj(x: u32, y: u32, z: u32) -> (r: u32)
    ensures
        r == spec_maj(x, y, z),
{
    (x & y) ^ (x & z) ^ (y & z)
}

/// `rotr(x, 2) ^ rotr(x, 13) ^ rotr(x, 22)`.
pub fn sigma0(x: u32) -> (r: u32)
    ensures
        r == spec_sigma0(x),
{
    rotr(x, 2) ^ rotr(x, 13) ^ rotr(x, 22)
}

/// `rotr(x, 6) ^ rotr(x, 11) ^ rotr(x, 25)`.
pub fn sigma1(x: u32) -> (r: u32)
    ensures
        r == spec_sigma1(x),
{
    rotr(x, 6) ^ rotr(x, 11) ^ rotr(x, 25)
}

/// `rotr(x, 7) ^ rotr(x, 18) ^ (x >> 3)`.
pub fn gamma0(x: u32) -> (r: u32)
    ensures
        r == spec_gamma0(x),
{
    rotr(x, 7) ^ rotr(x, 18) ^ (x >> 3)
}

/// `rotr(x, 17) ^ rotr(x, 19) ^ (x >> 10)`.
pub fn gamma1(x: u32) -> (r: u32)
    ensures
        r == spec_gamma1(x),
{
    rotr(x, 17) ^ rotr(x, 19) ^ (x >> 10)
}

/// A rotation moves bits without losing any: bit `i` of the result is bit
/// `(i + n) mod 32` of the input.
pub proof fn lemma_rotr_moves_bits(x: u32, n: u32, i: u32)
    requires
        i < 32,
    ensures
        (spec_rotr(x, n) >> i) & 1 == (x >> (((i + n % 32) % 32) as u32)) & 1,
{
    let k: u32 = n % 32;
    let j: u32 = ((i + k) % 32) as u32;
    assert(k < 32 && i < 32 && j == (i + k) % 32 ==> (((if k == 0 {
        x
    } else {
        (x >> k) | (x << ((32 - k) as u32))
    }) >> i) & 1 == (x >> j) & 1)) by (bit_vector);
}

} // verus!
