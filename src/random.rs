//! A small seedable pseudo-random generator (xorshift64), so that instance
//! attributes can be reproduced from a seed.

use vstd::prelude::*;

verus! {

/// One xorshift64 step (shifts 13, 7, 17).
pub open spec fn xorshift_step(x: u64) -> u64 {
    let a = x ^ (x << 13u64);
    let b = a ^ (a >> 7u64);
    b ^ (b << 17u64)
}

/// The generator state after `j` steps from state `s`.
pub open spec fn stream_state(s: u64, j: nat) -> u64
    decreases j,
{
    if j == 0 {
        s
    } else {
        xorshift_step(stream_state(s, (j - 1) as nat))
    }
}

/// The `j`-th value (counting from zero) drawn from a generator in state `s`.
pub open spec fn stream_value(s: u64, j: nat) -> u64 {
    stream_state(s, j + 1)
}

/// State used in place of a zero seed, which xorshift would never leave.
pub const ZERO_SEED_STATE: u64 = 0x9E37_79B9_7F4A_7C15;

pub open spec fn seed_state(seed: u64) -> u64 {
    if seed == 0 {
        ZERO_SEED_STATE
    } else {
        seed
    }
}

/// Deterministic generator of 64-bit values.
#[derive(Debug)]
pub struct Rng {
    state: u64,
}

impl View for Rng {
    type V = u64;

    closed spec fn view(&self) -> u64 {
        self.state
    }
}

/// A value of `min..=max` chosen by the draw `d`.
pub open spec fn pick_in(d: u64, min: int, max: int) -> int {
    min + (d as int) % (max - min + 1)
}

impl Rng {
    /// A generator whose stream is fixed by `seed`.
    pub fn seeded(seed: u64) -> (r: Rng)
        ensures
            r@ == seed_state(seed),
    {
        if seed == 0 {
            Rng { state: ZERO_SEED_STATE }
        } else {
            Rng { state: seed }
        }
    }

    /// Advances the generator one step and returns the new state.
    pub fn next_u64(&mut self) -> (r: u64)
        ensures
            r == xorshift_step(old(self)@),
            final(self)@ == r,
    {
        let x = self.state;
        let a = x ^ (x << 13u64);
        let b = a ^ (a >> 7u64);
        let c = b ^ (b << 17u64);
        self.state = c;
        c
    }

    /// Draws a value of `min..=max`.
    pub fn next_in_i32(&mut self, min: i32, max: i32) -> (r: i32)
        requires
            min <= max,
        ensures
            final(self)@ == xorshift_step(old(self)@),
            r as int == pick_in(final(self)@, min as int, max as int),
            min <= r <= max,
    {
        let d = self.next_u64();
        let width: u64 = (max as i64 - min as i64 + 1) as u64;
        let m: u64 = d % width;
        (min as i64 + m as i64) as i32
    }

    /// Draws a value of `min..=max`.
    pub fn next_in_u32(&mut self, min: u32, max: u32) -> (r: u32)
        requires
            min <= max,
        ensures
            final(self)@ == xorshift_step(old(self)@),
            r as int == pick_in(final(self)@, min as int, max as int),
            min <= r <= max,
    {
        let d = self.next_u64();
        let width: u64 = (max as u64 - min as u64 + 1) as u64;
        let m: u64 = d % width;
        (min as u64 + m) as u32
    }

    /// Draws a byte, uniform over `0..=255` up to the generator's quality.
    pub fn next_u8(&mut self) -> (r: u8)
        ensures
            final(self)@ == xorshift_step(old(self)@),
            r as int == pick_in(final(self)@, 0, 255),
    {
        let d = self.next_u64();
        (d % 256) as u8
    }
}

} // verus!
