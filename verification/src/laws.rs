//! Properties of the generator, stated over its model.
//!
//! The executable functions of [`crate::generator`] are specified by the
//! functions of [`crate::model`]; what is proved here of the model therefore
//! holds of every generator.

use vstd::prelude::*;
use crate::generator::Random;
use crate::model::{
    State, after, generation, nth_output, refreshed, seeded, seeded_words, temper, twist_mix,
    twist_prefix, twisted,
};
use crate::params::{M, N};

verus! {

/// While the twist runs, the state keeps its length, the positions that it
/// has not reached yet still hold their old words, and a position that it
/// has passed holds the word that it was given when its turn came.
pub proof fn lemma_twist_prefix_frame(words: Seq<u32>, k: nat, j: int)
    requires
        words.len() == N,
        k <= N,
        0 <= j < N,
    ensures
        twist_prefix(words, k).len() == N,
        j >= k ==> twist_prefix(words, k)[j] == words[j],
        j < k ==> twist_prefix(words, k)[j] == twist_prefix(words, (j + 1) as nat)[j],
    decreases k,
{
    if k > 0 {
        lemma_twist_prefix_frame(words, (k - 1) as nat, j);
    }
}

/// A twist keeps the number of words.
pub proof fn lemma_twisted_len(words: Seq<u32>)
    requires
        words.len() == N,
    ensures
        twisted(words).len() == N,
{
    lemma_twist_prefix_frame(words, N as nat, 0);
}

/// What a full twist leaves at position `i`.
///
/// The twist is sequential: where the word `M` places ahead, or the
/// successor, lies beyond the end of the state, the position wraps around and
/// reads a word that the same twist has already rewritten.
pub proof fn lemma_twisted_word(words: Seq<u32>, i: int)
    requires
        words.len() == N,
        0 <= i < N,
    ensures
        twisted(words)[i] == (if i + M < N {
            words[i + M]
        } else {
            twisted(words)[i + M - N]
        }) ^ twist_mix(
            words[i],
            if i + 1 < N {
                words[i + 1]
            } else {
                twisted(words)[0]
            },
        ),
{
    let far = (i + M) % (N as int);
    let near = (i + 1) % (N as int);
    lemma_twist_prefix_frame(words, N as nat, i);
    lemma_twist_prefix_frame(words, i as nat, i);
    lemma_twist_prefix_frame(words, i as nat, far);
    lemma_twist_prefix_frame(words, i as nat, near);
    lemma_twist_prefix_frame(words, N as nat, far);
    lemma_twist_prefix_frame(words, N as nat, near);
}

/// Drawing words never leads out of the state: however many words have been
/// drawn, the state still has `N` words, the cursor is at most `N`, and the
/// next word is read from a position below `N`.
pub proof fn lemma_after_in_bounds(s: State, n: nat)
    requires
        s.words.len() == N,
    ensures
        after(s, n).words.len() == N,
        n >= 1 ==> 1 <= after(s, n).index <= N,
        refreshed(after(s, n)).words.len() == N,
        refreshed(after(s, n)).index < N,
    decreases n,
{
    if n > 0 {
        lemma_after_in_bounds(s, (n - 1) as nat);
    }
    lemma_twisted_len(after(s, n).words);
}

/// A freshly seeded state has `N` words, and so has every generation that
/// follows it.
pub proof fn lemma_generation_len(seed: u32, g: nat)
    ensures
        generation(seed, g).len() == N,
    decreases g,
{
    if g > 0 {
        lemma_generation_len(seed, (g - 1) as nat);
        lemma_twisted_len(generation(seed, (g - 1) as nat));
    }
}

/// The state of a seeded generator after `n >= 1` words, in closed form: the
/// state has been twisted once for every `N` words begun, and the cursor
/// counts the words drawn since the last twist.
pub proof fn lemma_after_seeded(seed: u32, n: nat)
    requires
        n >= 1,
    ensures
        after(seeded(seed), n) == (State {
            words: generation(seed, ((n - 1) / (N as int) + 1) as nat),
            index: ((n - 1) % (N as int) + 1) as nat,
        }),
    decreases n,
{
    let len = N as int;
    if n == 1 {
        assert(after(seeded(seed), 0) == seeded(seed));
        assert(generation(seed, 1) == twisted(generation(seed, 0)));
    } else {
        lemma_after_seeded(seed, (n - 1) as nat);
        let prev = after(seeded(seed), (n - 1) as nat);
        let g = ((n - 2) / len + 1) as nat;
        if prev.index >= N {
            assert((n - 1) % len == 0 && (n - 1) / len == (n - 2) / len + 1);
            assert(generation(seed, g + 1) == twisted(generation(seed, g)));
        } else {
            assert((n - 1) % len == (n - 2) % len + 1 && (n - 1) / len == (n - 2) / len);
        }
    }
}

/// The `n`-th word of a seeded generator, in closed form: it depends on
/// the seed and on `n` alone.
pub proof fn lemma_nth_output_seeded(seed: u32, n: nat)
    ensures
        nth_output(seeded(seed), n) == temper(
            generation(seed, (n / N as nat + 1) as nat)[(n % N as nat) as int],
        ),
{
    let len = N as int;
    if n == 0 {
        assert(after(seeded(seed), 0) == seeded(seed));
        assert(generation(seed, 1) == twisted(generation(seed, 0)));
    } else {
        lemma_after_seeded(seed, n);
        let g = ((n - 1) / len + 1) as nat;
        if after(seeded(seed), n).index >= N {
            assert(n % N as nat == 0 && n / N as nat == (n - 1) / len + 1);
            assert(generation(seed, g + 1) == twisted(generation(seed, g)));
        } else {
            assert(n % N as nat == (n - 1) % len + 1 && n / N as nat == (n - 1) / len);
        }
    }
}

/// Determinism: two generators seeded with the same seed hand out the same
/// words and pass through the same states, however many words are drawn.
pub proof fn lemma_same_seed_same_stream(a: Random, b: Random, seed: u32, n: nat)
    requires
        a@ == seeded(seed),
        b@ == seeded(seed),
    ensures
        nth_output(a@, n) == nth_output(b@, n),
        after(a@, n) == after(b@, n),
{
}

/// The first `N` words of a seeded generator are all read from the state
/// as twisted once, the cursor counting them; the word after those is read
/// from the state as twisted twice, and leaves the cursor at one.
pub proof fn lemma_twist_boundary(seed: u32, n: nat)
    requires
        1 <= n <= N,
    ensures
        after(seeded(seed), n) == (State { words: twisted(seeded_words(seed)), index: n }),
        after(seeded(seed), N as nat).index == N,
        after(seeded(seed), (N + 1) as nat) == (State {
            words: twisted(twisted(seeded_words(seed))),
            index: 1,
        }),
{
    assert(generation(seed, 1) == twisted(generation(seed, 0)));
    assert(generation(seed, 2) == twisted(generation(seed, 1)));
    lemma_after_seeded(seed, n);
    lemma_after_seeded(seed, N as nat);
    lemma_after_seeded(seed, (N + 1) as nat);
}

} // verus!
