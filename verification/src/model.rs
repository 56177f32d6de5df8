//! The mathematical model of the generator.
//!
//! A generator is a sequence of `N` words together with a cursor. Everything
//! the executable code does is stated here as a function on that pair.

use vstd::prelude::*;
use crate::params::{A, B, C, D, F, L, LOWER_MASK, M, N, S, T, U, UPPER_MASK};

verus! {

/// What a generator is, mathematically: its words and its cursor.
pub struct State {
    pub words: Seq<u32>,
    pub index: nat,
}

/// One step of the seeding recurrence: the word at position `i`, given the
/// word before it. The multiply-add is taken modulo `2^32`.
pub open spec fn seed_step(prev: u32, i: nat) -> u32 {
    ((F as int * (prev ^ (prev >> 30)) as int + i as int) % 0x1_0000_0000) as u32
}

/// The word at position `i` of a freshly seeded state.
pub open spec fn seed_word(seed: u32, i: nat) -> u32
    decreases i,
{
    if i == 0 {
        seed
    } else {
        seed_step(seed_word(seed, (i - 1) as nat), i)
    }
}

/// The `N` words of a freshly seeded state: the seed, then the recurrence.
pub open spec fn seeded_words(seed: u32) -> Seq<u32> {
    Seq::new(N as nat, |i: int| seed_word(seed, i as nat))
}

/// A freshly seeded generator: its cursor stands at `N`, so that the first
/// output is taken from the regenerated state.
pub open spec fn seeded(seed: u32) -> State {
    State { words: seeded_words(seed), index: N as nat }
}

/// The word that the twist folds into position `i`: the top bit of the
/// word at `i` joined with the low bits of its successor, shifted right, and
/// xored with `A` when the joined word is odd.
pub open spec fn twist_mix(cur: u32, next: u32) -> u32 {
    let x = ((cur & UPPER_MASK) + (next & LOWER_MASK)) as u32;
    if x % 2 != 0 {
        (x >> 1) ^ A
    } else {
        x >> 1
    }
}

/// The words after position `i` alone has been regenerated.
pub open spec fn twist_at(words: Seq<u32>, i: int) -> Seq<u32> {
    words.update(i, words[(i + M) % (N as int)] ^ twist_mix(words[i], words[(i + 1) % (N as int)]))
}

/// The words after positions `0 .. k` have been regenerated, one after the
/// other in increasing order. Each position reads the words as they stand
/// when its turn comes, so late positions see early ones already rewritten.
pub open spec fn twist_prefix(words: Seq<u32>, k: nat) -> Seq<u32>
    decreases k,
{
    if k == 0 {
        words
    } else {
        twist_at(twist_prefix(words, (k - 1) as nat), k - 1)
    }
}

/// The words after a full twist.
pub open spec fn twisted(words: Seq<u32>) -> Seq<u32> {
    twist_prefix(words, N as nat)
}

/// The output transform: a fixed shift, mask and xor of one word.
pub open spec fn temper(y: u32) -> u32 {
    let y1 = y ^ ((y >> U) & D);
    let y2 = y1 ^ ((y1 << S) & B);
    let y3 = y2 ^ ((y2 << T) & C);
    y3 ^ (y3 >> L)
}

/// The state from which the next word is read: twisted, with the cursor back
/// at zero, if the cursor has run off the end; unchanged otherwise.
pub open spec fn refreshed(s: State) -> State {
    if s.index >= N {
        State { words: twisted(s.words), index: 0 }
    } else {
        s
    }
}

/// The word that a generator in state `s` hands out next.
pub open spec fn output(s: State) -> u32 {
    temper(refreshed(s).words[refreshed(s).index as int])
}

/// The state of a generator after it has handed out one word.
pub open spec fn advance(s: State) -> State {
    State { words: refreshed(s).words, index: refreshed(s).index + 1 }
}

/// The state of a generator after it has handed out `n` words.
pub open spec fn after(s: State, n: nat) -> State
    decreases n,
{
    if n == 0 {
        s
    } else {
        advance(after(s, (n - 1) as nat))
    }
}

/// The `n`-th word, counted from zero, that a generator in state `s` hands
/// out.
pub open spec fn nth_output(s: State, n: nat) -> u32 {
    output(after(s, n))
}

/// The words of the state after `g` twists of a freshly seeded one.
pub open spec fn generation(seed: u32, g: nat) -> Seq<u32>
    decreases g,
{
    if g == 0 {
        seeded_words(seed)
    } else {
        twisted(generation(seed, (g - 1) as nat))
    }
}

} // verus!
