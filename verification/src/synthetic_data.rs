//! Seeded xorshift64 generator used to synthesise reproducible sensor data.

use vstd::prelude::*;

verus! {

/// Number of BLR input features of the Hall sensor model: `[1, B, B², B³]`.
pub const N_FEATURES: usize = 4;

/// Constant mixed into every seed so that no seed leaves the generator at zero.
pub const SEED_MIX: u64 = 0x6C62_272E_07BB_0142;

/// Number of generator steps taken when a generator is created.
pub const WARM_UP_STEPS: usize = 8;

/// One xorshift64 step (shifts 13, 7, 17).
pub open spec fn xorshift(x: u64) -> u64 {
    let a = x ^ (x << 13u64);
    let b = a ^ (a >> 7u64);
    b ^ (b << 17u64)
}

/// `k` xorshift steps from `x`.
pub open spec fn advance(x: u64, k: nat) -> u64
    decreases k,
{
    if k == 0 {
        x
    } else {
        xorshift(advance(x, (k - 1) as nat))
    }
}

/// The state a seed is mixed into, before warm-up.
pub open spec fn seed_start(seed: u64) -> u64 {
    let s = seed ^ SEED_MIX;
    if s == 0 {
        SEED_MIX
    } else {
        s
    }
}

/// The state of a freshly created generator.
pub open spec fn seeded_state(seed: u64) -> u64 {
    advance(seed_start(seed), WARM_UP_STEPS as nat)
}

/// The `k`-th value (from 0) that `next_u64` returns on a generator made from `seed`.
pub open spec fn stream(seed: u64, k: nat) -> u64
    decreases k,
{
    if k == 0 {
        xorshift(seeded_state(seed))
    } else {
        xorshift(stream(seed, (k - 1) as nat))
    }
}

proof fn lemma_xorshift_nonzero(x: u64)
    requires
        x != 0,
    ensures
        xorshift(x) != 0,
{
    let a = x ^ (x << 13u64);
    let b = a ^ (a >> 7u64);
    let c = b ^ (b << 17u64);
    assert(a != 0) by (bit_vector)
        requires
            x != 0,
            a == x ^ (x << 13u64),
    ;
    assert(b != 0) by (bit_vector)
        requires
            a != 0,
            b == a ^ (a >> 7u64),
    ;
    assert(c != 0) by (bit_vector)
        requires
            b != 0,
            c == b ^ (b << 17u64),
    ;
}

proof fn lemma_xorshift_injective(x: u64, y: u64)
    requires
        xorshift(x) == xorshift(y),
    ensures
        x == y,
{
    let ax = x ^ (x << 13u64);
    let bx = ax ^ (ax >> 7u64);
    let ay = y ^ (y << 13u64);
    let by = ay ^ (ay >> 7u64);
    assert(bx == by) by (bit_vector)
        requires
            bx ^ (bx << 17u64) == by ^ (by << 17u64),
    ;
    assert(ax == ay) by (bit_vector)
        requires
            ax ^ (ax >> 7u64) == ay ^ (ay >> 7u64),
    ;
    assert(x == y) by (bit_vector)
        requires
            x ^ (x << 13u64) == y ^ (y << 13u64),
    ;
}

proof fn lemma_advance_injective(x: u64, y: u64, k: nat)
    requires
        x != y,
    ensures
        advance(x, k) != advance(y, k),
    decreases k,
{
    if k > 0 {
        lemma_advance_injective(x, y, (k - 1) as nat);
        if advance(x, k) == advance(y, k) {
            lemma_xorshift_injective(advance(x, (k - 1) as nat), advance(y, (k - 1) as nat));
        }
    }
}

proof fn lemma_advance_nonzero(x: u64, k: nat)
    requires
        x != 0,
    ensures
        advance(x, k) != 0,
    decreases k,
{
    if k > 0 {
        lemma_advance_nonzero(x, (k - 1) as nat);
        lemma_xorshift_nonzero(advance(x, (k - 1) as nat));
    }
}

/// The generator never yields zero: every value of every seed's stream is nonzero.
pub proof fn lemma_stream_nonzero(seed: u64, k: nat)
    ensures
        stream(seed, k) != 0,
    decreases k,
{
    if k == 0 {
        lemma_advance_nonzero(seed_start(seed), WARM_UP_STEPS as nat);
        lemma_xorshift_nonzero(seeded_state(seed));
    } else {
        lemma_stream_nonzero(seed, (k - 1) as nat);
        lemma_xorshift_nonzero(stream(seed, (k - 1) as nat));
    }
}

proof fn lemma_distinct_states_distinct_streams(s1: u64, s2: u64, k: nat)
    requires
        seeded_state(s1) != seeded_state(s2),
    ensures
        stream(s1, k) != stream(s2, k),
    decreases k,
{
    if k == 0 {
        if stream(s1, 0) == stream(s2, 0) {
            lemma_xorshift_injective(seeded_state(s1), seeded_state(s2));
        }
    } else {
        lemma_distinct_states_distinct_streams(s1, s2, (k - 1) as nat);
        if stream(s1, k) == stream(s2, k) {
            lemma_xorshift_injective(stream(s1, (k - 1) as nat), stream(s2, (k - 1) as nat));
        }
    }
}

/// Different seeds give different streams, value by value: for every `k`,
/// the `k`-th outputs differ. The one exception is the pair of seeds `0` and
/// `SEED_MIX`, which both start from `SEED_MIX`.
pub proof fn lemma_distinct_seeds_distinct_streams(s1: u64, s2: u64, k: nat)
    requires
        s1 != s2,
        !(s1 == 0 && s2 == SEED_MIX),
        !(s1 == SEED_MIX && s2 == 0),
    ensures
        stream(s1, k) != stream(s2, k),
{
    let m1 = s1 ^ SEED_MIX;
    let m2 = s2 ^ SEED_MIX;
    assert(m1 != m2) by (bit_vector)
        requires
            s1 != s2,
            m1 == s1 ^ SEED_MIX,
            m2 == s2 ^ SEED_MIX,
    ;
    assert(m1 == 0 ==> s1 == SEED_MIX) by (bit_vector)
        requires
            m1 == s1 ^ SEED_MIX,
    ;
    assert(m2 == 0 ==> s2 == SEED_MIX) by (bit_vector)
        requires
            m2 == s2 ^ SEED_MIX,
    ;
    assert(m1 == SEED_MIX ==> s1 == 0) by (bit_vector)
        requires
            m1 == s1 ^ SEED_MIX,
    ;
    assert(m2 == SEED_MIX ==> s2 == 0) by (bit_vector)
        requires
            m2 == s2 ^ SEED_MIX,
    ;
    assert(seed_start(s1) != seed_start(s2));
    lemma_advance_injective(seed_start(s1), seed_start(s2), WARM_UP_STEPS as nat);
    lemma_distinct_states_distinct_streams(s1, s2, k);
}

/// A seeded xorshift64 pseudo-random number generator. Its state is never zero.
pub struct Rng {
    state: u64,
}

impl View for Rng {
    type V = u64;

    closed spec fn view(&self) -> u64 {
        self.state
    }
}

impl Rng {
    #[verifier::type_invariant]
    spec fn state_nonzero(self) -> bool {
        self.state != 0
    }

    /// Create a generator seeded with `seed`: the seed is mixed with
    /// `SEED_MIX` (a zero result is replaced by `SEED_MIX`), then the
    /// generator takes `WARM_UP_STEPS` steps.
    pub fn new(seed: u64) -> (r: Self)
        ensures
            r@ == seeded_state(seed),
            r@ != 0,
    {
        let state = seed ^ SEED_MIX;
        let state = if state == 0 {
            SEED_MIX
        } else {
            state
        };
        let mut rng = Rng { state };
        for i in 0..WARM_UP_STEPS
            invariant
                rng@ == advance(seed_start(seed), i as nat),
        {
            rng.next_u64();
        }
        proof {
            use_type_invariant(&rng);
        }
        rng
    }

    /// Advance the state by one xorshift step and return the new state.
    pub fn next_u64(&mut self) -> (r: u64)
        ensures
            final(self)@ == xorshift(old(self)@),
            r == final(self)@,
            r != 0,
    {
        proof {
            use_type_invariant(&*self);
            lemma_xorshift_nonzero(self.state);
        }
        let mut x = self.state;
        x ^= x << 13;
        x ^= x >> 7;
        x ^= x << 17;
        self.state = x;
        x
    }

    /// Advance the generator by one step and return the top 53 bits of the
    /// new state: the integer that `uniform` scales by 2⁻⁵³ into `[0, 1)`.
    pub fn next_mantissa(&mut self) -> (r: u64)
        ensures
            final(self)@ == xorshift(old(self)@),
            r == final(self)@ >> 11u64,
            r < 0x20_0000_0000_0000u64,
    {
        let x = self.next_u64();
        let r = x >> 11;
        assert(r < 0x20_0000_0000_0000u64) by (bit_vector)
            requires
                r == x >> 11u64,
        ;
        r
    }
}

} // verus!
