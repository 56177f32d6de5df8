use mersenne_twister::{
    Random, A, B, C, D, DEFAULT_SEED, F, L, LOWER_MASK, M, N, R, S, T, U, UPPER_MASK, W,
};

fn draw(generator: &mut Random, count: usize) -> Vec<u32> {
    let mut words = Vec::with_capacity(count);
    for _ in 0..count {
        words.push(generator.next());
    }
    words
}

#[test]
fn parameters_have_their_standard_values() {
    assert_eq!(W, 32);
    assert_eq!(N, 624);
    assert_eq!(M, 397);
    assert_eq!(R, 31);
    assert_eq!(A, 0x9908B0DF);
    assert_eq!(B, 0x9D2C5680);
    assert_eq!(C, 0xEFC60000);
    assert_eq!(S, 7);
    assert_eq!(T, 15);
    assert_eq!(U, 11);
    assert_eq!(D, 0xFFFFFFFF);
    assert_eq!(L, 18);
    assert_eq!(F, 1812433253);
    assert_eq!(DEFAULT_SEED, 5489);
}

#[test]
fn masks_split_a_word() {
    let generator = Random::new();

    assert_eq!(LOWER_MASK, 0x7FFFFFFF);
    assert_eq!(UPPER_MASK, 0x80000000);
    assert_eq!(generator.lower_mask(), LOWER_MASK);
    assert_eq!(generator.upper_mask(), UPPER_MASK);
    assert_eq!(generator.lower_mask() ^ generator.upper_mask(), 0xFFFFFFFF);
    assert_eq!(generator.lower_mask() & generator.upper_mask(), 0);
}

#[test]
fn seeding_follows_the_recurrence() {
    let generator = Random::from_seed(32);
    let words = generator.state();

    assert_eq!(words.len(), 624);
    assert_eq!(words[0], 32);
    assert_eq!(words[1], 2163289249);
    assert_eq!(words[2], 3967735633);
    assert_eq!(words[622], 2413174221);
}

#[test]
fn seeding_fills_the_last_word() {
    assert_eq!(Random::from_seed(32).state()[623], 2048298010);
    assert_eq!(Random::from_seed(0).state()[623], 1796872496);
    assert_eq!(Random::new().state()[623], 79981964);
}

#[test]
fn seeding_with_zero() {
    let mut generator = Random::from_seed(0);

    assert_eq!(generator.state()[0], 0);
    assert_eq!(generator.state()[1], 1);
    assert_eq!(generator.state()[2], 1812433255);
    assert_eq!(generator.index(), 624);
    assert_eq!(draw(&mut generator, 3), vec![2357136044, 2546248239, 3071714933]);
}

#[test]
fn seeding_with_the_largest_seed() {
    let mut generator = Random::from_seed(u32::MAX);

    assert_eq!(generator.state()[0], 4294967295);
    assert_eq!(generator.state()[1], 1340201581);
    assert_eq!(generator.state()[623], 3413567280);
    assert_eq!(draw(&mut generator, 3), vec![419326371, 479346978, 3918654476]);
}

#[test]
fn default_seed_is_5489() {
    let mut by_default = Random::new();
    let mut by_seed = Random::from_seed(5489);

    assert_eq!(by_default.state(), by_seed.state());
    assert_eq!(by_default.index(), by_seed.index());
    assert_eq!(draw(&mut by_default, 1300), draw(&mut by_seed, 1300));
}

#[test]
fn default_seed_gives_the_standard_stream() {
    let mut generator = Random::new();
    let words = draw(&mut generator, 10000);

    assert_eq!(words[0], 3499211612);
    assert_eq!(words[1], 581869302);
    assert_eq!(words[2], 3890346734);
    assert_eq!(words[623], 4020325887);
    assert_eq!(words[624], 4178893912);
    assert_eq!(words[1247], 2538210759);
    assert_eq!(words[1248], 358555951);
    assert_eq!(words[9999], 4123659995);
}

#[test]
fn stream_of_seed_32() {
    let mut generator = Random::from_seed(32);
    let words = draw(&mut generator, 1300);

    assert_eq!(words[0..5], [3688901335, 256222763, 1600782213, 1808344374, 2384259964]);
    assert_eq!(words[226], 3567309519);
    assert_eq!(words[227], 4191583438);
    assert_eq!(words[622], 4174581012);
    assert_eq!(words[623], 2850887892);
    assert_eq!(words[624], 2371411827);
    assert_eq!(words[1247], 2588370270);
    assert_eq!(words[1248], 1812884825);
}

#[test]
fn twist_rewrites_every_word_in_order() {
    let mut generator = Random::from_seed(32);

    generator.twist();

    assert_eq!(generator.index(), 0);
    assert_eq!(generator.state()[0], 3570979253);
    assert_eq!(generator.state()[227], 1169350759);
    assert_eq!(generator.state()[623], 3049100189);

    generator.twist();

    assert_eq!(generator.index(), 0);
    assert_eq!(generator.state()[0], 3997394633);
    assert_eq!(generator.state()[623], 2880713673);
}

#[test]
fn twist_reads_words_it_has_already_rewritten() {
    let mut generator = Random::new();
    generator.twist();
    generator.twist();
    generator.twist();
    let before = *generator.state();

    generator.twist();
    let after = generator.state();

    let mix = |cur: u32, next: u32| {
        let x = (cur & UPPER_MASK) + (next & LOWER_MASK);
        if x % 2 != 0 {
            (x >> 1) ^ A
        } else {
            x >> 1
        }
    };
    assert_eq!(after[0], before[397] ^ mix(before[0], before[1]));
    assert_eq!(after[226], before[623] ^ mix(before[226], before[227]));
    assert_eq!(after[227], after[0] ^ mix(before[227], before[228]));
    assert_ne!(after[227], before[0] ^ mix(before[227], before[228]));
    assert_eq!(after[623], after[396] ^ mix(before[623], after[0]));
}

#[test]
fn tempering_leaves_the_state_alone() {
    let mut generator = Random::from_seed(32);
    let _ = generator.next();
    let before = *generator.state();

    let word = generator.next();

    assert_eq!(*generator.state(), before);
    assert_eq!(before[1], 1503839650);
    assert_eq!(word, 256222763);
}

#[test]
fn same_seed_gives_the_same_stream() {
    for seed in [0u32, 1, 11, 32, 5489, 0x8000_0000, u32::MAX] {
        let mut first = Random::from_seed(seed);
        let mut second = Random::from_seed(seed);

        assert_eq!(draw(&mut first, 2000), draw(&mut second, 2000));
        assert_eq!(first.state(), second.state());
        assert_eq!(first.index(), second.index());
    }
}

#[test]
fn different_seeds_give_different_first_words() {
    let seeds = [0u32, 1, 11, 32, 5489, u32::MAX];
    for (i, a) in seeds.iter().enumerate() {
        for b in &seeds[i + 1..] {
            assert_ne!(Random::from_seed(*a).next(), Random::from_seed(*b).next());
        }
    }
}

#[test]
fn sequential_words_differ() {
    let mut generator = Random::new();
    let words = draw(&mut generator, 16);

    for pair in words.windows(2) {
        assert_ne!(pair[0], pair[1]);
    }
}

#[test]
fn cursor_crosses_the_twist_boundary() {
    let mut generator = Random::from_seed(32);
    assert_eq!(generator.index(), 624);

    let _ = generator.next();
    assert_eq!(generator.index(), 1);
    let once = *generator.state();

    for drawn in 2..=624 {
        let _ = generator.next();
        assert_eq!(generator.index(), drawn);
        assert_eq!(*generator.state(), once);
    }
    assert_eq!(generator.index(), 624);

    let _ = generator.next();
    assert_eq!(generator.index(), 1);
    assert_ne!(*generator.state(), once);

    let mut twice = Random::from_seed(32);
    twice.twist();
    twice.twist();
    assert_eq!(generator.state(), twice.state());
}

#[test]
fn generation_goes_on_past_two_periods() {
    let mut generator = Random::new();

    for drawn in 0..3 * 624 + 7 {
        let _ = generator.next();
        assert!(1 <= generator.index() && generator.index() <= 624);
        assert_eq!(generator.index(), drawn % 624 + 1);
        assert_eq!(generator.state().len(), 624);
    }
}

#[test]
fn seeding_anew_restarts_the_stream() {
    let mut generator = Random::from_seed(11);
    let _ = draw(&mut generator, 700);

    generator.seed_mt(32);

    assert_eq!(generator.index(), 624);
    assert_eq!(generator.state(), Random::from_seed(32).state());
    assert_eq!(generator.next(), 3688901335);
    assert_eq!(Random::from_seed(11).next(), 774252441);
}
