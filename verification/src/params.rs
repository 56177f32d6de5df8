//! The fixed parameters of MT19937.

use vstd::prelude::*;

verus! {

/// Word size, in bits.
pub const W: u32 = 32;

/// Degree of the recurrence: the number of words in the state.
pub const N: usize = 624;

/// Middle word: the offset used by the recurrence, `1 <= M < N`.
pub const M: usize = 397;

/// Separation point of one word: the number of bits of the lower mask.
pub const R: u32 = 31;

/// Coefficients of the rational normal form twist matrix.
pub const A: u32 = 0x9908B0DF;

/// First tempering mask.
pub const B: u32 = 0x9D2C5680;

/// Second tempering mask.
pub const C: u32 = 0xEFC60000;

/// First tempering left shift.
pub const S: u32 = 7;

/// Second tempering left shift.
pub const T: u32 = 15;

/// First tempering right shift.
pub const U: u32 = 11;

/// Mask applied after the first tempering right shift.
pub const D: u32 = 0xFFFFFFFF;

/// Last tempering right shift.
pub const L: u32 = 18;

/// Multiplier of the seeding recurrence.
pub const F: u32 = 1812433253;

/// The seed used when none is given.
pub const DEFAULT_SEED: u32 = 5489;

/// The low `R` bits of a word.
pub const LOWER_MASK: u32 = 0x7FFFFFFF;

/// The bits of a word above the low `R` bits.
pub const UPPER_MASK: u32 = 0x80000000;

/// The two masks split a word: they share no bit and together cover all 32,
/// and the lower one is `2^R - 1`.
pub proof fn lemma_masks_partition()
    ensures
        LOWER_MASK ^ UPPER_MASK == 0xFFFFFFFFu32,
        LOWER_MASK & UPPER_MASK == 0u32,
        UPPER_MASK == !LOWER_MASK,
        LOWER_MASK == (1u32 << R) - 1,
{
    assert(0x7FFFFFFFu32 ^ 0x80000000u32 == 0xFFFFFFFFu32) by (bit_vector);
    assert(0x7FFFFFFFu32 & 0x80000000u32 == 0u32) by (bit_vector);
    assert(0x80000000u32 == !0x7FFFFFFFu32) by (bit_vector);
    assert(0x7FFFFFFFu32 == (1u32 << 31u32) - 1) by (bit_vector);
}

} // verus!
