//! The mathematical model of MT19937-64: words as `u64` values, arithmetic
//! modulo 2^64, and the generator's state as a sequence of words with a cursor.
use vstd::prelude::*;

verus! {

/// Number of words in the state.
pub const N: usize = 312;

/// Distance between the two words that the twist combines.
pub const M: usize = 156;

/// Multiplier of the scalar state initialisation.
pub const INIT_MULT: u64 = 6364136223846793005;

/// Multiplier of the forward mixing pass of array seeding.
pub const FORWARD_MULT: u64 = 3935559000370003845;

/// Multiplier of the reverse mixing pass of array seeding.
pub const REVERSE_MULT: u64 = 2862933555777941757;

/// Seed of the scalar initialisation that array seeding starts from.
pub const ARRAY_BASE_SEED: u64 = 19650218;

/// Seed of the default generator.
pub const DEFAULT_SEED: u64 = 5489;

/// Word that array seeding stores at index 0 last.
pub const TOP_BIT: u64 = 0x8000_0000_0000_0000;

/// Twist matrix constant.
pub const MATRIX_A: u64 = 0xB502_6F5A_A966_19E9;

/// Most significant 33 bits.
pub const UPPER_MASK: u64 = 0xFFFF_FFFF_8000_0000;

/// Least significant 31 bits.
pub const LOWER_MASK: u64 = 0x7FFF_FFFF;

/// Mask of the first tempering step (right shift by 29).
pub const TEMPER_D: u64 = 0x5555_5555_5555_5555;

/// Mask of the second tempering step (left shift by 17).
pub const TEMPER_B: u64 = 0x71D6_7FFF_EDA6_0000;

/// Mask of the third tempering step (left shift by 37).
pub const TEMPER_C: u64 = 0xFFF7_EEE0_0000_0000;

/// The number of distinct `u64` values.
pub open spec fn word_modulus() -> int {
    0x1_0000_0000_0000_0000
}

/// `a + b` modulo 2^64.
pub open spec fn add_mod(a: u64, b: u64) -> u64 {
    ((a as int + b as int) % word_modulus()) as u64
}

/// `a - b` modulo 2^64.
pub open spec fn sub_mod(a: u64, b: u64) -> u64 {
    ((a as int - b as int) % word_modulus()) as u64
}

/// `a * b` modulo 2^64.
pub open spec fn mul_mod(a: u64, b: u64) -> u64 {
    ((a as int * b as int) % word_modulus()) as u64
}

/// The modular operations agree with std's wrapping arithmetic on `u64`.
pub proof fn lemma_wrapping_ops(a: u64, b: u64)
    ensures
        vstd::wrapping::u64_specs::wrapping_add(a, b) == add_mod(a, b),
        vstd::wrapping::u64_specs::wrapping_sub(a, b) == sub_mod(a, b),
        vstd::wrapping::u64_specs::wrapping_mul(a, b) == mul_mod(a, b),
{
}

/// Word `i` of the state that the scalar initialisation derives from `seed`:
/// `seed` itself, then `F * (w ^ (w >> 62)) + i` of the word before it.
pub open spec fn init_word(seed: u64, i: nat) -> u64
    decreases i,
{
    if i == 0 {
        seed
    } else {
        let p = init_word(seed, (i - 1) as nat);
        add_mod(mul_mod(INIT_MULT, p ^ (p >> 62u64)), i as u64)
    }
}

/// The full state that the scalar initialisation derives from `seed`.
pub open spec fn init_state(seed: u64) -> Seq<u64> {
    Seq::new(N as nat, |i: int| init_word(seed, i as nat))
}

/// The word `cur ^ ((prev ^ (prev >> 62)) * mult)` that both mixing passes build on.
pub open spec fn mix_word(cur: u64, prev: u64, mult: u64) -> u64 {
    cur ^ mul_mod(prev ^ (prev >> 62u64), mult)
}

/// Stores `v` at index `i` and advances `i`; past the last word, index 0
/// takes a copy of the last word and `i` goes back to 1.
pub open spec fn store_and_advance(st: Seq<u64>, i: int, v: u64) -> (Seq<u64>, int) {
    let st1 = st.update(i, v);
    if i + 1 >= N {
        (st1.update(0, st1[N - 1]), 1)
    } else {
        (st1, i + 1)
    }
}

/// Number of steps of the forward mixing pass for a key of `len` words.
pub open spec fn forward_steps(len: nat) -> nat {
    if len > N {
        len
    } else {
        N as nat
    }
}

/// State, state cursor and key cursor after `k` steps of the forward mixing pass.
pub open spec fn forward_pass(key: Seq<u64>, k: nat) -> (Seq<u64>, int, int)
    decreases k,
{
    if k == 0 {
        (init_state(ARRAY_BASE_SEED), 1, 0)
    } else {
        let prev = forward_pass(key, (k - 1) as nat);
        forward_step(key, prev.0, prev.1, prev.2)
    }
}

/// One step of the forward mixing pass at state cursor `i` and key cursor `j`.
pub open spec fn forward_step(key: Seq<u64>, st: Seq<u64>, i: int, j: int) -> (Seq<u64>, int, int) {
    let v = add_mod(add_mod(mix_word(st[i], st[i - 1], FORWARD_MULT), key[j]), j as u64);
    let next = store_and_advance(st, i, v);
    (next.0, next.1, if j + 1 >= key.len() { 0 } else { j + 1 })
}

/// State and state cursor after the whole forward pass and `k` steps of the
/// reverse mixing pass.
pub open spec fn reverse_pass(key: Seq<u64>, k: nat) -> (Seq<u64>, int)
    decreases k,
{
    if k == 0 {
        let (st, i, _j) = forward_pass(key, forward_steps(key.len()));
        (st, i)
    } else {
        let (st, i) = reverse_pass(key, (k - 1) as nat);
        store_and_advance(st, i, sub_mod(mix_word(st[i], st[i - 1], REVERSE_MULT), i as u64))
    }
}

/// The state that array seeding derives from `key`.
pub open spec fn array_seed_state(key: Seq<u64>) -> Seq<u64> {
    reverse_pass(key, (N - 1) as nat).0.update(0, TOP_BIT)
}

/// The twist of one word: the upper bit of `cur` and the lower 31 bits of
/// `next`, shifted right once and multiplied into `far` by the twist matrix.
pub open spec fn twist_word(cur: u64, next: u64, far: u64) -> u64 {
    let y = (cur & UPPER_MASK) | (next & LOWER_MASK);
    far ^ (y >> 1u64) ^ (if y & 1 == 0 { 0 } else { MATRIX_A })
}

/// The state after the first `k` words of a twist have been rewritten, in
/// place and in order: word `i` reads words `i + 1` and `i + M` (modulo `N`)
/// as they stand at that moment, so words that wrap around are already new.
pub open spec fn twist_upto(s: Seq<u64>, k: nat) -> Seq<u64>
    decreases k,
{
    if k == 0 {
        s
    } else {
        let t = twist_upto(s, (k - 1) as nat);
        let i = k - 1;
        t.update(i, twist_word(t[i], t[(i + 1) % (N as int)], t[(i + M) % (N as int)]))
    }
}

/// The state after a full twist.
pub open spec fn twist(s: Seq<u64>) -> Seq<u64> {
    twist_upto(s, N as nat)
}

/// The tempering of a state word into an output word.
pub open spec fn temper(x: u64) -> u64 {
    let y1 = x ^ ((x >> 29u64) & TEMPER_D);
    let y2 = y1 ^ ((y1 << 17u64) & TEMPER_B);
    let y3 = y2 ^ ((y2 << 37u64) & TEMPER_C);
    y3 ^ (y3 >> 43u64)
}

/// The abstract generator: the state words and the index of the next unread one.
pub struct TwisterView {
    pub words: Seq<u64>,
    pub index: nat,
}

/// A well-formed abstract generator: `N` words and an index in `[0, N]`.
pub open spec fn view_wf(v: TwisterView) -> bool {
    v.words.len() == N && v.index <= N
}

/// A generator freshly seeded with the words `words`: the state is used up,
/// so the first request twists.
pub open spec fn seeded(words: Seq<u64>) -> TwisterView {
    TwisterView { words, index: N as nat }
}

/// One request: the output and the generator after it. A used-up state is
/// twisted first and its word 0 read.
pub open spec fn step(v: TwisterView) -> (u64, TwisterView) {
    if v.index >= N {
        let w = twist(v.words);
        (temper(w[0]), TwisterView { words: w, index: 1 })
    } else {
        (temper(v.words[v.index as int]), TwisterView { words: v.words, index: v.index + 1 })
    }
}

/// The generator after `k` requests.
pub open spec fn run(v: TwisterView, k: nat) -> TwisterView
    decreases k,
{
    if k == 0 {
        v
    } else {
        step(run(v, (k - 1) as nat)).1
    }
}

/// The first `k` outputs.
pub open spec fn outputs(v: TwisterView, k: nat) -> Seq<u64>
    decreases k,
{
    if k == 0 {
        Seq::empty()
    } else {
        outputs(v, (k - 1) as nat).push(step(run(v, (k - 1) as nat)).0)
    }
}

} // verus!
