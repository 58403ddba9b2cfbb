//! A small linear congruential generator shared by materials and previews.
//!
//! 64-bit LCG with multiplier `6364136223846793005` and increment 1; a zero
//! seed is normalised to 1 so the generator never degenerates.

use vstd::prelude::*;

verus! {

/// The LCG multiplier (Knuth).
pub const LCG_MULTIPLIER: u64 = 6364136223846793005u64;

/// One step of the generator on its 64-bit state: `state * a + 1 (mod 2^64)`.
pub open spec fn lcg_step(state: u64) -> u64 {
    (((state as nat * LCG_MULTIPLIER as nat) % 0x1_0000_0000_0000_0000nat + 1) % 0x1_0000_0000_0000_0000nat) as u64
}

/// The state a seed is normalised to.
pub open spec fn seed_state(seed: u64) -> u64 {
    if seed == 0 { 1 } else { seed }
}

/// State after `n` steps from `state`.
pub open spec fn lcg_iter(state: u64, n: nat) -> u64
    decreases n,
{
    if n == 0 { state } else { lcg_step(lcg_iter(state, (n - 1) as nat)) }
}

/// Simple linear congruential RNG.
#[derive(Debug, Clone, Copy)]
pub struct SimpleRng {
    state: u64,
}

impl SimpleRng {
    /// The generator's current state.
    pub closed spec fn state(&self) -> u64 {
        self.state
    }

    /// Creates a generator from `seed`; a zero seed becomes 1.
    pub fn new(seed: u64) -> (r: Self)
        ensures
            r.state() == seed_state(seed),
            r.state() != 0,
    {
        let state = if seed > 1 { seed } else { 1 };
        SimpleRng { state }
    }

    /// Advances the state and returns it.
    pub fn next_u64(&mut self) -> (r: u64)
        ensures
            r == lcg_step(old(self).state()),
            final(self).state() == r,
    {
        let next = self.state.wrapping_mul(LCG_MULTIPLIER).wrapping_add(1);
        self.state = next;
        next
    }

    /// Advances the state and returns its low 24 bits, the numerator of
    /// the generator's value in `[0, 1)` over `2^24`.
    pub fn next_24(&mut self) -> (r: u32)
        ensures
            r == lcg_step(old(self).state()) % 0x100_0000,
            final(self).state() == lcg_step(old(self).state()),
    {
        let next = self.next_u64();
        (next % 0x100_0000) as u32
    }
}

/// A zero seed behaves exactly as seed 1, and generators made from the
/// same seed yield the same sequence: the state after `n` outputs depends
/// on the normalised seed and `n` alone.
pub proof fn law_seed_determines_sequence(seed: u64, n: nat)
    ensures
        seed_state(0) == seed_state(1),
        lcg_iter(seed_state(seed), n + 1) == lcg_step(lcg_iter(seed_state(seed), n)),
        seed == 0 ==> lcg_iter(seed_state(seed), n) == lcg_iter(seed_state(1), n),
{
}

/// Whether `draws` are the outputs of successive `next_u64` calls on a
/// generator made from `seed`: the first is one step from the normalised
/// seed, each later one is one step from the one before (what the
/// contracts of `new` and `next_u64` give call after call).
pub open spec fn successive_draws(seed: u64, draws: Seq<u64>) -> bool {
    forall|i: int| 0 <= i < draws.len() ==> #[trigger] draws[i] == lcg_step(
        if i == 0 { seed_state(seed) } else { draws[i - 1] },
    )
}

proof fn lemma_draw_at(seed: u64, draws: Seq<u64>, i: int)
    requires
        successive_draws(seed, draws),
        0 <= i < draws.len(),
    ensures
        draws[i] == lcg_iter(seed_state(seed), (i + 1) as nat),
    decreases i,
{
    assert(draws[i] == lcg_step(if i == 0 { seed_state(seed) } else { draws[i - 1] }));
    if i > 0 {
        lemma_draw_at(seed, draws, i - 1);
    }
    assert(lcg_iter(seed_state(seed), (i + 1) as nat) == lcg_step(lcg_iter(seed_state(seed), i as nat)));
}

/// The k-th call: the `k`-th output (from 1) of a generator made from
/// `seed` is the state `k` steps from the normalised seed, so two
/// generators made from the same seed give the same outputs, call by call.
pub proof fn law_kth_draw(seed: u64, draws: Seq<u64>, other: Seq<u64>)
    requires
        successive_draws(seed, draws),
        successive_draws(seed, other),
        draws.len() == other.len(),
    ensures
        forall|i: int| 0 <= i < draws.len() ==> #[trigger] draws[i] == lcg_iter(seed_state(seed), (i + 1) as nat),
        draws == other,
{
    assert forall|i: int| 0 <= i < draws.len() implies #[trigger] draws[i] == lcg_iter(
        seed_state(seed),
        (i + 1) as nat,
    ) by {
        lemma_draw_at(seed, draws, i);
    }
    assert forall|i: int| 0 <= i < other.len() implies #[trigger] other[i] == draws[i] by {
        lemma_draw_at(seed, draws, i);
        lemma_draw_at(seed, other, i);
    }
    assert(draws =~= other);
}

/// The inverse of the multiplier modulo `2^64`.
pub open spec fn lcg_inverse() -> int {
    13877824140714322085
}

/// Multiplying by the multiplier modulo `2^64` can be undone.
proof fn lemma_multiplier_invertible(x: int)
    requires
        0 <= x < 0x1_0000_0000_0000_0000,
    ensures
        ((x * LCG_MULTIPLIER) % 0x1_0000_0000_0000_0000) * lcg_inverse() % 0x1_0000_0000_0000_0000 == x,
{
    let m: int = 0x1_0000_0000_0000_0000;
    let a: int = LCG_MULTIPLIER as int;
    let b: int = lcg_inverse();
    let k: int = 4787856489426250814;
    assert(a * b == 1 + k * m) by (nonlinear_arith)
        requires
            a == 6364136223846793005,
            b == 13877824140714322085,
            k == 4787856489426250814,
            m == 0x1_0000_0000_0000_0000,
    ;
    vstd::arithmetic::div_mod::lemma_mul_mod_noop_left(x * a, b, m);
    vstd::arithmetic::mul::lemma_mul_is_associative(x, a, b);
    assert(x * (a * b) == x * (1 + k * m));
    vstd::arithmetic::mul::lemma_mul_is_distributive_add(x, 1, k * m);
    vstd::arithmetic::mul::lemma_mul_is_associative(x, k, m);
    assert(x * (k * m) == m * (x * k)) by (nonlinear_arith);
    assert(x * (1 + k * m) == m * (x * k) + x) by (nonlinear_arith);
    vstd::arithmetic::div_mod::lemma_mod_multiples_vanish(x * k, x, m);
    vstd::arithmetic::div_mod::lemma_small_mod(x as nat, m as nat);
}

proof fn lemma_step_injective(s1: u64, s2: u64)
    ensures
        lcg_step(s1) == lcg_step(s2) ==> s1 == s2,
{
    let m: int = 0x1_0000_0000_0000_0000;
    let p1: int = (s1 as int * LCG_MULTIPLIER as int) % m;
    let p2: int = (s2 as int * LCG_MULTIPLIER as int) % m;
    if lcg_step(s1) == lcg_step(s2) {
        assert(0 <= p1 < m && 0 <= p2 < m) by (nonlinear_arith)
            requires
                p1 == (s1 as int * LCG_MULTIPLIER as int) % m,
                p2 == (s2 as int * LCG_MULTIPLIER as int) % m,
                m == 0x1_0000_0000_0000_0000,
        ;
        assert((p1 + 1) % m == (p2 + 1) % m);
        assert(p1 == p2) by {
            if p1 + 1 == m {
                assert((p1 + 1) % m == 0);
            } else {
                vstd::arithmetic::div_mod::lemma_small_mod((p1 + 1) as nat, m as nat);
            }
            if p2 + 1 == m {
                assert((p2 + 1) % m == 0);
            } else {
                vstd::arithmetic::div_mod::lemma_small_mod((p2 + 1) as nat, m as nat);
            }
        }
        lemma_multiplier_invertible(s1 as int);
        lemma_multiplier_invertible(s2 as int);
    }
}

/// One step of the generator is a bijection on states: different states
/// always lead to different next states, so generators whose normalised
/// seeds differ give different first outputs.
pub proof fn law_step_injective(s1: u64, s2: u64)
    ensures
        lcg_step(s1) == lcg_step(s2) ==> s1 == s2,
        seed_state(s1) != seed_state(s2) ==> lcg_step(seed_state(s1)) != lcg_step(seed_state(s2)),
{
    lemma_step_injective(s1, s2);
    lemma_step_injective(seed_state(s1), seed_state(s2));
}


/// Two generators in different states never meet: after the same number
/// of steps their states still differ.
pub proof fn law_states_never_merge(s1: u64, s2: u64, n: nat)
    ensures
        lcg_iter(s1, n) == lcg_iter(s2, n) ==> s1 == s2,
    decreases n,
{
    if n > 0 {
        lemma_step_injective(lcg_iter(s1, (n - 1) as nat), lcg_iter(s2, (n - 1) as nat));
        law_states_never_merge(s1, s2, (n - 1) as nat);
    }
}

} // verus!
