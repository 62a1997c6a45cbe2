//! Pseudo-random numbers drawn from the block's random seed.

use vstd::prelude::*;

verus! {

/// The byte at index `i` of `seed` rotated left by `k` places.
pub open spec fn rotated_byte(seed: Seq<u8>, k: int, i: int) -> u8 {
    seed[(i + k) % (seed.len() as int)]
}

/// The little-endian `u32` made of the first four bytes of `seed` rotated
/// left by `k` places.
pub open spec fn random_from_seed(seed: Seq<u8>, k: int) -> int {
    rotated_byte(seed, k, 0) + 256 * rotated_byte(seed, k, 1) + 65536 * rotated_byte(seed, k, 2)
        + 16777216 * rotated_byte(seed, k, 3)
}

/// `(k + i) % len`, computed without overflow.
fn rotated_index(k: usize, i: usize, len: usize) -> (r: usize)
    requires
        k < len,
        i < len,
    ensures
        r == (k + i) % (len as int),
        r < len,
{
    if k >= len - i {
        proof {
            vstd::arithmetic::div_mod::lemma_mod_sub_multiples_vanish((k + i) as int, len as int);
            vstd::arithmetic::div_mod::lemma_small_mod((k + i - len) as nat, len as nat);
        }
        k - (len - i)
    } else {
        proof {
            vstd::arithmetic::div_mod::lemma_small_mod((k + i) as nat, len as nat);
        }
        k + i
    }
}

/// A number drawn from `seed`: the seed is rotated left by `shift_amount`
/// (taken as a `usize`) modulo its length, and its first four bytes are read
/// as a little-endian `u32`.
pub fn get_random_number(seed: &Vec<u8>, shift_amount: u128) -> (r: u32)
    requires
        seed.len() >= 4,
    ensures
        r == random_from_seed(seed@, (shift_amount as usize) as int % (seed.len() as int)),
{
    let seed_len = seed.len();
    let k = shift_amount as usize % seed_len;
    let b0 = seed[rotated_index(k, 0, seed_len)] as u32;
    let b1 = seed[rotated_index(k, 1, seed_len)] as u32;
    let b2 = seed[rotated_index(k, 2, seed_len)] as u32;
    let b3 = seed[rotated_index(k, 3, seed_len)] as u32;
    assert(b0 + 256 * b1 + 65536 * b2 + 16777216 * b3 <= u32::MAX) by (nonlinear_arith)
        requires
            b0 < 256,
            b1 < 256,
            b2 < 256,
            b3 < 256,
    ;
    b0 + 256 * b1 + 65536 * b2 + 16777216 * b3
}

} // verus!
