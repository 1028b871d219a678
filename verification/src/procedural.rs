//! Deterministic xorshift64 generator and the daily-challenge layout built from it.

use vstd::prelude::*;
use crate::targets::TargetKind;

verus! {

/// State used in place of a zero seed (xorshift never leaves zero).
pub const ZERO_SEED_STATE: u64 = 0xDEAD_BEEF_CAFE_BABE;

/// One xorshift64 step with shifts 13, 7 and 17.
pub open spec fn xorshift64(s: u64) -> u64 {
    let a = s ^ (s << 13u64);
    let b = a ^ (a >> 7u64);
    b ^ (b << 17u64)
}

/// The state a generator starts from for a given seed.
pub open spec fn seed_state(seed: u64) -> u64 {
    if seed == 0 {
        ZERO_SEED_STATE
    } else {
        seed
    }
}

/// The low 32 bits of a state, which is what a draw returns.
pub open spec fn low_word(s: u64) -> u32 {
    (s & 0xFFFF_FFFFu64) as u32
}

/// The state after `n` steps from `start`.
pub open spec fn state_after(start: u64, n: nat) -> u64
    decreases n,
{
    if n == 0 {
        start
    } else {
        xorshift64(state_after(start, (n - 1) as nat))
    }
}

/// The `n`-th value (counting from 0) drawn from a generator seeded with `seed`.
pub open spec fn nth_draw(seed: u64, n: nat) -> u32 {
    low_word(state_after(seed_state(seed), n + 1))
}

/// A small deterministic pseudo-random generator (xorshift64).
#[derive(Debug, Clone)]
pub struct Rng {
    state: u64,
}

impl View for Rng {
    type V = u64;

    closed spec fn view(&self) -> u64 {
        self.state
    }
}

impl Rng {
    /// A generator seeded with `seed`; a zero seed is replaced by a fixed non-zero state.
    pub fn new(seed: u64) -> (r: Self)
        ensures
            r@ == seed_state(seed),
            r@ != 0,
    {
        Self { state: if seed == 0 { ZERO_SEED_STATE } else { seed } }
    }

    /// Advances the state one xorshift step and returns its low 32 bits.
    pub fn next_u32(&mut self) -> (r: u32)
        ensures
            final(self)@ == xorshift64(old(self)@),
            r == low_word(final(self)@),
            old(self)@ != 0 ==> final(self)@ != 0,
    {
        proof {
            if self.state != 0 {
                lemma_xorshift_nonzero(self.state);
            }
        }
        self.state = self.state ^ (self.state << 13u64);
        self.state = self.state ^ (self.state >> 7u64);
        self.state = self.state ^ (self.state << 17u64);
        (self.state & 0xFFFF_FFFFu64) as u32
    }
}

/// An xorshift step maps a non-zero state to a non-zero state, so a generator
/// never gets stuck at zero.
pub proof fn lemma_xorshift_nonzero(s: u64)
    requires
        s != 0,
    ensures
        xorshift64(s) != 0,
{
    let a = s ^ (s << 13u64);
    let b = a ^ (a >> 7u64);
    assert(s != 0 ==> s ^ (s << 13u64) != 0) by (bit_vector);
    assert(a != 0 ==> a ^ (a >> 7u64) != 0) by (bit_vector);
    assert(b != 0 ==> b ^ (b << 17u64) != 0) by (bit_vector);
}

/// Every state a generator reaches from a non-zero start is non-zero.
pub proof fn lemma_state_after_nonzero(start: u64, n: nat)
    requires
        start != 0,
    ensures
        state_after(start, n) != 0,
    decreases n,
{
    if n > 0 {
        lemma_state_after_nonzero(start, (n - 1) as nat);
        lemma_xorshift_nonzero(state_after(start, (n - 1) as nat));
    }
}

/// A target of a procedural layout: its kind and the three raw draws from which
/// its position is scaled (x in [-12, 12], y in [1, 3.5], z in [-40, -15]).
#[derive(Debug, Clone, Copy, PartialEq, Eq, Structural)]
pub struct ProceduralTarget {
    pub kind: TargetKind,
    pub x_draw: u32,
    pub y_draw: u32,
    pub z_draw: u32,
}

/// The targets of one procedural challenge.
#[derive(Debug, Clone)]
pub struct ProceduralLayout {
    pub targets: Vec<ProceduralTarget>,
}

/// Target kind chosen by a draw.
pub open spec fn kind_from_draw(d: u32) -> TargetKind {
    let k = d % 5;
    if k == 0 {
        TargetKind::Plate
    } else if k == 1 {
        TargetKind::Can
    } else if k == 2 {
        TargetKind::Bottle
    } else if k == 3 {
        TargetKind::Bell
    } else {
        TargetKind::Drone
    }
}

/// Number of targets in the layout for `seed`: 6 plus the first draw modulo 6.
pub open spec fn layout_target_count(seed: u64) -> nat {
    6 + (nth_draw(seed, 0) % 6) as nat
}

/// The `i`-th target of the layout for `seed`: each target uses four draws,
/// one for the kind and three for the position.
pub open spec fn layout_target(seed: u64, i: nat) -> ProceduralTarget {
    ProceduralTarget {
        kind: kind_from_draw(nth_draw(seed, 1 + 4 * i)),
        x_draw: nth_draw(seed, 2 + 4 * i),
        y_draw: nth_draw(seed, 3 + 4 * i),
        z_draw: nth_draw(seed, 4 + 4 * i),
    }
}

/// Seed source of the daily challenge.
pub struct DailySeed {
    seed: u64,
}

impl View for DailySeed {
    type V = u64;

    closed spec fn view(&self) -> u64 {
        self.seed
    }
}

/// The seed of today's challenge (a fixed day).
pub open spec fn spec_today_seed() -> u64 {
    20260610u64
}

impl DailySeed {
    /// Wraps a seed.
    pub fn new(seed: u64) -> (r: Self)
        ensures
            r@ == seed,
    {
        Self { seed }
    }

    /// The seed of today's challenge.
    pub fn today_seed() -> (s: u64)
        ensures
            s == spec_today_seed(),
    {
        20260610u64
    }

    /// Generates the layout for this seed: between 6 and 11 targets, each
    /// built from four consecutive draws of a generator seeded with it.
    pub fn generate_layout(&self) -> (layout: ProceduralLayout)
        ensures
            layout.targets@.len() == layout_target_count(self@),
            6 <= layout.targets@.len() <= 11,
            forall|i: int|
                0 <= i < layout.targets@.len() ==> #[trigger] layout.targets@[i] == layout_target(
                    self@,
                    i as nat,
                ),
    {
        let ghost seed = self.seed;
        let ghost start = seed_state(seed);
        let mut rng = Rng::new(self.seed);
        let first = rng.next_u32();
        assert(state_after(start, 1) == xorshift64(state_after(start, 0)));
        assert(first == nth_draw(seed, 0));
        let target_count: usize = 6 + (first % 6) as usize;
        let mut targets: Vec<ProceduralTarget> = Vec::with_capacity(target_count);
        let mut i: usize = 0;
        while i < target_count
            invariant
                start == seed_state(seed),
                target_count == layout_target_count(seed),
                target_count <= 11,
                i <= target_count,
                targets@.len() == i,
                rng@ == state_after(start, 1 + 4 * i as nat),
                forall|j: int| 0 <= j < i ==> #[trigger] targets@[j] == layout_target(seed, j as nat),
            decreases target_count - i,
        {
            let ghost n: nat = 1 + 4 * i as nat;
            let k = rng.next_u32();
            assert(rng@ == state_after(start, n + 1));
            let x = rng.next_u32();
            assert(rng@ == state_after(start, n + 2));
            let y = rng.next_u32();
            assert(rng@ == state_after(start, n + 3));
            let z = rng.next_u32();
            assert(rng@ == state_after(start, n + 4));
            let kind = match k % 5 {
                0 => TargetKind::Plate,
                1 => TargetKind::Can,
                2 => TargetKind::Bottle,
                3 => TargetKind::Bell,
                _ => TargetKind::Drone,
            };
            assert(k == nth_draw(seed, 1 + 4 * i as nat));
            assert(x == nth_draw(seed, 2 + 4 * i as nat));
            assert(y == nth_draw(seed, 3 + 4 * i as nat));
            assert(z == nth_draw(seed, 4 + 4 * i as nat));
            assert(kind == kind_from_draw(k));
            let t = ProceduralTarget { kind, x_draw: x, y_draw: y, z_draw: z };
            assert(t == layout_target(seed, i as nat));
            targets.push(t);
            i = i + 1;
        }
        ProceduralLayout { targets }
    }
}

} // verus!
