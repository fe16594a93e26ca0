//! Laws of the generator, stated over the model that the executable
//! functions' contracts use.
use vstd::prelude::*;

use crate::model::{
    array_seed_state, init_state, outputs, run, seeded, step, temper, twist, twist_upto, view_wf,
    TwisterView, N,
};

verus! {

/// The outputs list has one entry per request, and entry `t` is what request
/// `t` returns.
pub proof fn lemma_outputs_index(v: TwisterView, k: nat, t: nat)
    requires
        t < k,
    ensures
        outputs(v, k).len() == k,
        outputs(v, k)[t as int] == step(run(v, t)).0,
    decreases k,
{
    if k == t + 1 {
        lemma_outputs_len(v, t);
    } else {
        lemma_outputs_index(v, (k - 1) as nat, t);
    }
}

proof fn lemma_outputs_len(v: TwisterView, k: nat)
    ensures
        outputs(v, k).len() == k,
    decreases k,
{
    if k > 0 {
        lemma_outputs_len(v, (k - 1) as nat);
    }
}

/// A twist rewrites words in place: the state keeps its length.
pub proof fn lemma_twist_len(s: Seq<u64>, k: nat)
    requires
        k <= s.len(),
    ensures
        twist_upto(s, k).len() == s.len(),
    decreases k,
{
    if k > 0 {
        lemma_twist_len(s, (k - 1) as nat);
    }
}

/// A request keeps the generator well formed: `N` words and an index in
/// `[0, N]`.
pub proof fn lemma_step_keeps_wf(v: TwisterView)
    requires
        view_wf(v),
    ensures
        view_wf(step(v).1),
        step(v).1.index >= 1,
{
    lemma_twist_len(v.words, N as nat);
}

/// Determinism: two generators seeded with the same key, or with the same
/// scalar seed, produce the same outputs for any number of requests.
pub proof fn lemma_determinism(key_a: Seq<u64>, key_b: Seq<u64>, seed_a: u64, seed_b: u64, k: nat)
    requires
        key_a == key_b,
        key_a.len() > 0,
        seed_a == seed_b,
    ensures
        outputs(seeded(array_seed_state(key_a)), k) == outputs(seeded(array_seed_state(key_b)), k),
        run(seeded(array_seed_state(key_a)), k) == run(seeded(array_seed_state(key_b)), k),
        outputs(seeded(init_state(seed_a)), k) == outputs(seeded(init_state(seed_b)), k),
        run(seeded(init_state(seed_a)), k) == run(seeded(init_state(seed_b)), k),
{
}

/// Requests made while unread words remain read them in order and leave the
/// words as they are.
proof fn lemma_no_twist_before_end(v: TwisterView, k: nat)
    requires
        v.index + k <= N,
    ensures
        run(v, k) == (TwisterView { words: v.words, index: v.index + k }),
    decreases k,
{
    if k > 0 {
        lemma_no_twist_before_end(v, (k - 1) as nat);
    }
}

/// Period boundary: from a generator `v`, the next `N - v.index` requests
/// return the tempered words `v.index..N` in order and twist nothing; the
/// request after them twists the state exactly once and returns the tempered
/// word 0 of the twisted state. A freshly seeded generator (`v.index == N`)
/// thus twists on its first request, and one that has returned all `N` words
/// since its last twist twists on the next.
pub proof fn lemma_period_boundary(v: TwisterView, t: nat)
    requires
        view_wf(v),
    ensures
        run(v, (N - v.index) as nat) == (TwisterView { words: v.words, index: N as nat }),
        t < N - v.index ==> outputs(v, (N - v.index) as nat)[t as int] == temper(
            v.words[(v.index + t) as int],
        ),
        run(v, (N - v.index + 1) as nat) == (TwisterView { words: twist(v.words), index: 1 }),
        outputs(v, (N - v.index + 1) as nat)[N - v.index] == temper(twist(v.words)[0]),
{
    let k = (N - v.index) as nat;
    lemma_no_twist_before_end(v, k);
    if t < k {
        lemma_no_twist_before_end(v, t);
        lemma_outputs_index(v, k, t);
    }
    lemma_outputs_index(v, k + 1, k);
}

} // verus!
