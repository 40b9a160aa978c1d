//! The small pseudo-random generator the minigames share.
//!
//! A 64-bit linear congruential generator. Its draws are the top 24 bits of the
//! state, which is exactly the precision of a unit float: a draw `b` stands for
//! the value `b / 2^24` in `0.0..1.0`.

use vstd::prelude::*;

verus! {

/// Multiplier of the generator's step.
pub const LCG_MULTIPLIER: u64 = 6364136223846793005;

/// Increment of the generator's step.
pub const LCG_INCREMENT: u64 = 1442695040888963407;

/// One draw spans `0..UNIT_SCALE`; divided by it, it is the unit value.
pub const UNIT_SCALE: u32 = 16777216;

/// The state after one step: `state * LCG_MULTIPLIER + LCG_INCREMENT` modulo `2^64`.
pub open spec fn lcg_next(state: u64) -> u64 {
    ((state as nat * LCG_MULTIPLIER as nat + LCG_INCREMENT as nat) % 0x1_0000_0000_0000_0000nat) as u64
}

/// The draw a state yields: its top 24 bits.
pub open spec fn draw_of(state: u64) -> u32 {
    (state as nat / 0x100_0000_0000nat) as u32
}

/// A 64-bit linear congruential generator.
#[derive(Debug, Clone, Copy, PartialEq, Eq)]
pub struct Rng {
    state: u64,
}

impl View for Rng {
    type V = u64;

    closed spec fn view(&self) -> u64 {
        self.state
    }
}

impl Rng {
    /// Seeds the generator. Any state is valid; the sequence depends only on it.
    pub fn from_state(state: u64) -> (rng: Self)
        ensures
            rng@ == state,
    {
        Self { state }
    }

    /// Steps the generator and returns the draw, the numerator of the next
    /// unit value over [`UNIT_SCALE`].
    pub fn unit_bits(&mut self) -> (bits: u32)
        ensures
            final(self)@ == lcg_next(old(self)@),
            bits == draw_of(final(self)@),
            bits < UNIT_SCALE,
    {
        let next = self.state.wrapping_mul(LCG_MULTIPLIER).wrapping_add(LCG_INCREMENT);
        proof {
            let m = (self.state as nat * LCG_MULTIPLIER as nat) % 0x1_0000_0000_0000_0000nat;
            vstd::arithmetic::div_mod::lemma_add_mod_noop(
                (self.state as nat * LCG_MULTIPLIER as nat) as int,
                LCG_INCREMENT as int,
                0x1_0000_0000_0000_0000int,
            );
        }
        self.state = next;
        let bits = (next >> 40u64) as u32;
        assert(next >> 40u64 == next / 0x100_0000_0000u64) by (bit_vector);
        assert(next / 0x100_0000_0000u64 < 0x100_0000u64) by (bit_vector);
        bits
    }
}

/// Rounds `p` to the 24 significant bits a unit float keeps, to nearest with
/// ties to even, for `p < 2^27`.
pub open spec fn round_to_float_precision(p: nat) -> nat {
    let e: nat = if p < 0x100_0000 { 0 } else if p < 0x200_0000 { 1 } else if p < 0x400_0000 { 2 } else { 3 };
    let unit: nat = if e == 0 { 1 } else if e == 1 { 2 } else if e == 2 { 4 } else { 8 };
    let q = p / unit;
    let r = p % unit;
    if 2 * r > unit || (2 * r == unit && q % 2 == 1) {
        (q + 1) * unit
    } else {
        q * unit
    }
}

/// The index `(unit * n as f32) as usize` picks for a draw: the unit value
/// `bits / 2^24` times `n`, rounded as a float product is, then truncated.
pub open spec fn scaled_index(bits: nat, n: nat) -> nat {
    round_to_float_precision(bits * n) / 0x100_0000
}

/// The index a draw picks among `n` choices, computed exactly as the float
/// expression `(bits as f32 / 2^24 * n as f32) as usize` rounds and truncates.
pub fn pick_index(bits: u32, n: u32) -> (index: usize)
    requires
        bits < UNIT_SCALE,
        1 <= n <= 8,
    ensures
        index == scaled_index(bits as nat, n as nat),
        index <= n,
{
    assert(bits as u64 * n as u64 <= 0x800_0000) by (nonlinear_arith)
        requires bits < 0x100_0000u32, n <= 8u32;
    let p: u64 = bits as u64 * n as u64;
    let unit: u64 = if p < 0x100_0000 {
        1
    } else if p < 0x200_0000 {
        2
    } else if p < 0x400_0000 {
        4
    } else {
        8
    };
    let q = p / unit;
    let r = p % unit;
    let ghost k: int = n as int * 0x100_0000 / unit as int;
    proof {
        assert(k * unit == n as int * 0x100_0000);
        assert(q * unit <= p) by (nonlinear_arith)
            requires q == p / unit, unit > 0;
        assert(p < n as int * 0x100_0000) by (nonlinear_arith)
            requires p == bits as int * n as int, bits < 0x100_0000, n >= 1;
        assert(q < k) by (nonlinear_arith)
            requires q * unit <= p, p < k * unit, unit > 0;
        assert((q + 1) * unit <= k * unit) by (nonlinear_arith)
            requires q + 1 <= k, unit > 0;
    }
    let rounded = if 2 * r > unit || (2 * r == unit && q % 2 == 1) {
        (q + 1) * unit
    } else {
        q * unit
    };
    assert(rounded <= n * 0x100_0000);
    (rounded / 0x100_0000) as usize
}

} // verus!
