//! The generator: a state of `N` words and the index of the next unread word.
use vstd::prelude::*;

use crate::model::{
    add_mod, array_seed_state, forward_pass, forward_step, forward_steps, init_state, init_word,
    lemma_wrapping_ops, mix_word, reverse_pass, seeded, step, store_and_advance, sub_mod, twist,
    twist_upto, TwisterView, ARRAY_BASE_SEED, DEFAULT_SEED, FORWARD_MULT, INIT_MULT, LOWER_MASK, M,
    MATRIX_A, N, REVERSE_MULT, TEMPER_B, TEMPER_C, TEMPER_D, TOP_BIT, UPPER_MASK,
};

verus! {

/// The only way construction can fail: an empty seed sequence.
#[derive(Debug, Clone, Copy, PartialEq, Eq, Structural)]
pub enum SeedError {
    InvalidSeed,
}

/// A 64-bit Mersenne Twister generator.
pub struct MersenneTwister64 {
    state: [u64; N],
    index: usize,
}

impl View for MersenneTwister64 {
    type V = TwisterView;

    /// The state words and the index of the next unread one.
    closed spec fn view(&self) -> TwisterView {
        TwisterView { words: self.state@, index: self.index as nat }
    }
}

impl MersenneTwister64 {
    /// The index never passes `N`.
    pub closed spec fn wf(&self) -> bool {
        self.index <= N
    }

    fn new_unseeded() -> (r: MersenneTwister64)
        ensures
            r.wf(),
    {
        MersenneTwister64 { state: [0u64; N], index: N }
    }

    /// A generator seeded with the default scalar seed.
    pub fn new() -> (r: MersenneTwister64)
        ensures
            r.wf(),
            r@ == seeded(init_state(DEFAULT_SEED)),
    {
        let mut output = MersenneTwister64::new_unseeded();
        output.seed(DEFAULT_SEED);
        output
    }

    /// A generator seeded with the key `seed`, which must not be empty.
    pub fn new_from_array_seed(seed: &[u64]) -> (r: Result<MersenneTwister64, SeedError>)
        ensures
            seed@.len() == 0 <==> r is Err,
            r is Err ==> r == Err::<MersenneTwister64, SeedError>(SeedError::InvalidSeed),
            r matches Ok(g) ==> g.wf() && g@ == seeded(array_seed_state(seed@)),
    {
        if seed.len() == 0 {
            return Err(SeedError::InvalidSeed);
        }
        let mut output = MersenneTwister64::new_unseeded();
        output.seed_by_array(seed);
        Ok(output)
    }

    /// Fills the state from a scalar seed and marks it used up.
    fn seed(&mut self, seed: u64)
        ensures
            final(self)@.words == init_state(seed),
            final(self)@.index == N,
            final(self).wf(),
    {
        self.state[0] = seed;
        let mut i: usize = 1;
        while i < N
            invariant
                1 <= i <= N,
                forall|k: int| 0 <= k < i ==> #[trigger] self.state@[k] == init_word(seed, k as nat),
            decreases N - i,
        {
            let prev = self.state[i - 1];
            self.state[i] = INIT_MULT.wrapping_mul(prev ^ (prev >> 62u64)).wrapping_add(i as u64);
            i = i + 1;
        }
        self.index = N;
        assert(self.state@ =~= init_state(seed));
    }

    /// Fills the state from a non-empty key by the two mixing passes.
    fn seed_by_array(&mut self, key: &[u64])
        requires
            key@.len() > 0,
        ensures
            final(self)@.words == array_seed_state(key@),
            final(self)@.index == N,
            final(self).wf(),
    {
        self.seed(ARRAY_BASE_SEED);
        let len = key.len();
        let steps = if N > len { N } else { len };
        let mut i: usize = 1;
        let mut j: usize = 0;
        let mut k: usize = 0;
        while k < steps
            invariant
                len == key@.len() > 0,
                steps == forward_steps(len as nat),
                k <= steps,
                1 <= i < N,
                j < len,
                self.index == N,
                forward_pass(key@, k as nat).0 == self.state@,
                forward_pass(key@, k as nat).1 == i,
                forward_pass(key@, k as nat).2 == j,
            decreases steps - k,
        {
            let prev = self.state[i - 1];
            let mixed = self.state[i] ^ (prev ^ (prev >> 62u64)).wrapping_mul(FORWARD_MULT);
            let keyed = mixed.wrapping_add(key[j]);
            let v = keyed.wrapping_add(j as u64);
            proof {
                lemma_wrapping_ops(prev ^ (prev >> 62u64), FORWARD_MULT);
                lemma_wrapping_ops(mixed, key@[j as int]);
                lemma_wrapping_ops(keyed, j as u64);
            }
            let ghost (old_state, old_i, old_j) = (self.state@, i as int, j as int);
            let ghost expected = store_and_advance(old_state, old_i, v);
            assert(v == add_mod(
                add_mod(mix_word(self.state@[i as int], prev, FORWARD_MULT), key@[j as int]),
                j as u64,
            ));
            self.state[i] = v;
            i = i + 1;
            if i >= N {
                self.state[0] = self.state[N - 1];
                i = 1;
            }
            assert(self.state@ =~= expected.0);
            j = j + 1;
            if j >= len {
                j = 0;
            }
            assert(forward_step(key@, old_state, old_i, old_j) == (expected.0, expected.1, j as int));
            k = k + 1;
        }
        let mut k: usize = 0;
        while k < N - 1
            invariant
                len == key@.len() > 0,
                k <= N - 1,
                1 <= i < N,
                self.index == N,
                reverse_pass(key@, k as nat).0 == self.state@,
                reverse_pass(key@, k as nat).1 == i,
            decreases N - 1 - k,
        {
            let prev = self.state[i - 1];
            let mixed = self.state[i] ^ (prev ^ (prev >> 62u64)).wrapping_mul(REVERSE_MULT);
            let v = mixed.wrapping_sub(i as u64);
            proof {
                lemma_wrapping_ops(prev ^ (prev >> 62u64), REVERSE_MULT);
                lemma_wrapping_ops(mixed, i as u64);
            }
            let ghost expected = store_and_advance(self.state@, i as int, v);
            assert(v == sub_mod(mix_word(self.state@[i as int], prev, REVERSE_MULT), i as u64));
            self.state[i] = v;
            i = i + 1;
            if i >= N {
                self.state[0] = self.state[N - 1];
                i = 1;
            }
            assert(self.state@ =~= expected.0);
            assert(reverse_pass(key@, (k + 1) as nat) == expected);
            k = k + 1;
        }
        self.state[0] = TOP_BIT;
    }

    /// The next output word; the state is twisted first when it is used up.
    pub fn next_u64(&mut self) -> (r: u64)
        requires
            old(self).wf(),
        ensures
            final(self).wf(),
            (r, final(self)@) == step(old(self)@),
    {
        if self.index >= N {
            self.twist();
        }
        let mut y = self.state[self.index];
        y = y ^ ((y >> 29u64) & TEMPER_D);
        y = y ^ ((y << 17u64) & TEMPER_B);
        y = y ^ ((y << 37u64) & TEMPER_C);
        y = y ^ (y >> 43u64);
        self.index = self.index + 1;
        y
    }

    /// Rewrites every state word by the twist recurrence and resets the index.
    fn twist(&mut self)
        ensures
            final(self)@.words == twist(old(self)@.words),
            final(self)@.index == 0,
            final(self).wf(),
    {
        let ghost start = self.state@;
        let mut i: usize = 0;
        while i < N
            invariant
                i <= N,
                self.state@ == twist_upto(start, i as nat),
            decreases N - i,
        {
            let next = if i + 1 < N { i + 1 } else { 0 };
            let far = if i < N - M { i + M } else { i + M - N };
            let y = (self.state[i] & UPPER_MASK) | (self.state[next] & LOWER_MASK);
            let magic = if y & 1 == 0 { 0 } else { MATRIX_A };
            self.state[i] = self.state[far] ^ (y >> 1u64) ^ magic;
            assert(self.state@ =~= twist_upto(start, (i + 1) as nat));
            i = i + 1;
        }
        self.index = 0;
    }
}

} // verus!
