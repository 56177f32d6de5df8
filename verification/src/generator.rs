//! The executable generator.

use vstd::prelude::*;
use crate::model::{State, advance, output, seed_word, seeded, twist_prefix, twisted};
use crate::params::{A, B, C, D, DEFAULT_SEED, F, L, LOWER_MASK, M, N, R, S, T, U, UPPER_MASK, W};

verus! {

/// An MT19937 generator.
pub struct Random {
    mt: [u32; N],
    index: usize,
    lower_mask: u32,
    upper_mask: u32,
}

impl View for Random {
    type V = State;

    closed spec fn view(&self) -> State {
        State { words: self.mt@, index: self.index as nat }
    }
}

impl Random {
    #[verifier::type_invariant]
    spec fn well_formed(&self) -> bool {
        &&& self.index <= N
        &&& self.lower_mask == LOWER_MASK
        &&& self.upper_mask == UPPER_MASK
    }

    /// A generator seeded with `DEFAULT_SEED`.
    pub fn new() -> (r: Self)
        ensures
            r@ == seeded(DEFAULT_SEED),
    {
        Self::from_seed(DEFAULT_SEED)
    }

    /// A generator seeded with `seed`: its first word is the seed, the other
    /// `N - 1` follow from the seeding recurrence, and its cursor stands at
    /// `N`.
    pub fn from_seed(seed: u32) -> (r: Self)
        ensures
            r@ == seeded(seed),
    {
        assert((1u32 << 31u32) - 1 == 0x7FFFFFFFu32) by (bit_vector);
        assert(!0x7FFFFFFFu32 == 0x80000000u32) by (bit_vector);
        let lower_mask: u32 = (1u32 << R) - 1;
        let mut random = Random { mt: [0u32; N], index: N, lower_mask, upper_mask: !lower_mask };

        random.seed_mt(seed);

        random
    }

    /// Seeds the generator anew, whatever state it was in.
    ///
    /// Every one of the `N` words is written, the last one included.
    pub fn seed_mt(&mut self, seed: u32)
        ensures
            final(self)@ == seeded(seed),
    {
        proof {
            use_type_invariant(&*self);
        }
        self.index = N;
        self.mt[0] = seed;
        let mut i: usize = 1;
        while i < N
            invariant
                1 <= i <= N,
                self.index == N,
                forall|j: int| 0 <= j < i ==> self.mt@[j] == seed_word(seed, j as nat),
            decreases N - i,
        {
            proof {
                use_type_invariant(&*self);
            }
            let word: u32 = self.mt[i - 1];
            let previous: u64 = word as u64;
            let mixed: u64 = previous ^ (previous >> ((W - 2) as u64));
            assert(mixed == (word ^ (word >> 30)) as u64) by (bit_vector)
                requires
                    previous == word as u64,
                    mixed == previous ^ (previous >> 30u64),
            ;
            assert(F as u64 * mixed <= 0x7FFF_FFFF * 0xFFFF_FFFF) by (nonlinear_arith)
                requires
                    F as u64 <= 0x7FFF_FFFF,
                    mixed <= 0xFFFF_FFFF,
            ;
            let operation: u64 = (F as u64 * mixed) + (i as u64);
            let low: u32 = #[verifier::truncate] (operation as u32);
            assert(low == operation % 0x1_0000_0000) by (bit_vector)
                requires
                    low == operation as u32,
            ;
            self.mt[i] = low;
            i += 1;
        }
        assert(self.mt@ =~= seeded(seed).words);
    }

    /// The next word of the stream.
    ///
    /// The state is regenerated first when the cursor has run off its end;
    /// then the word under the cursor is tempered and the cursor moves on by
    /// one. The stored words are not changed by the tempering.
    pub fn next(&mut self) -> (y: u32)
        ensures
            y == output(old(self)@),
            final(self)@ == advance(old(self)@),
            1 <= final(self)@.index <= N,
    {
        proof {
            use_type_invariant(&*self);
        }
        if self.index >= N {
            self.twist();
        }
        proof {
            use_type_invariant(&*self);
        }

        let mut y: u32 = self.mt[self.index];
        y ^= (y >> U) & D;
        y ^= (y << S) & B;
        y ^= (y << T) & C;
        y ^= y >> L;

        self.index += 1;

        y
    }

    /// The words of the state, as they stand.
    pub fn state(&self) -> (words: &[u32; N])
        ensures
            words@ == self@.words,
    {
        &self.mt
    }

    /// The mask of the low `R` bits of a word.
    pub fn lower_mask(&self) -> (mask: u32)
        ensures
            mask == LOWER_MASK,
    {
        proof {
            use_type_invariant(self);
        }
        self.lower_mask
    }

    /// The mask of the bits above the low `R` bits of a word.
    pub fn upper_mask(&self) -> (mask: u32)
        ensures
            mask == UPPER_MASK,
    {
        proof {
            use_type_invariant(self);
        }
        self.upper_mask
    }

    /// The cursor: the position of the word that is handed out next, or `N`
    /// when the state is regenerated first.
    pub fn index(&self) -> (i: usize)
        ensures
            i == self@.index,
            i <= N,
    {
        proof {
            use_type_invariant(self);
        }
        self.index
    }

    /// Regenerates all `N` words in place, in increasing order of position,
    /// and puts the cursor back at zero.
    pub fn twist(&mut self)
        ensures
            final(self)@ == (State { words: twisted(old(self)@.words), index: 0 }),
    {
        let ghost start = self.mt@;
        let mut i: usize = 0;
        while i < N
            invariant
                i <= N,
                self.mt@ == twist_prefix(start, i as nat),
            decreases N - i,
        {
            proof {
                use_type_invariant(&*self);
            }
            let cur: u32 = self.mt[i];
            let next: u32 = self.mt[(i + 1) % N];
            assert((cur & 0x80000000u32) + (next & 0x7FFFFFFFu32) <= 0xFFFFFFFF) by (bit_vector);
            let x: u32 = (cur & self.upper_mask) + (next & self.lower_mask);
            let mut x_a: u32 = x >> 1;
            if x % 2 != 0 {
                x_a ^= A;
            }
            self.mt[i] = self.mt[(i + M) % N] ^ x_a;
            i += 1;
        }
        proof {
            use_type_invariant(&*self);
        }
        self.index = 0;
    }
}

} // verus!
