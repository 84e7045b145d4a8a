use vstd::prelude::*;

verus! {

/// Bit pattern of the single-precision value `1.0`.
pub const ONE_BITS: u32 = 0x3F80_0000;

/// Seed of the generator that picks background colors.
pub const COLOR_SEED: u64 = 666;

/// An RGBA color. Each channel holds the bit pattern of an IEEE 754
/// single-precision value, so that colors can be stored, compared and
/// reasoned about as plain integers.
#[derive(Clone, Copy, Debug, PartialEq, Eq, Structural)]
pub struct Rgba {
    pub r: u32,
    pub g: u32,
    pub b: u32,
    pub a: u32,
}

/// Generator state `(state, increment)` right after `oorandom::Rand32::new(seed)`.
pub uninterp spec fn rand32_seeded(seed: u64) -> (u64, u64);

/// What one call of `oorandom::Rand32::rand_float` gives on the generator
/// state `s`: the bits of the drawn value, and the state after the draw.
pub uninterp spec fn rand32_float_step(s: (u64, u64)) -> (u32, (u64, u64));

/// Relies on `oorandom::Rand32::new` and `Rand32::state`: a generator seeded
/// with `seed`, handed back as its plain state.
#[verifier::external_body]
pub(crate) fn seeded_generator(seed: u64) -> (r: (u64, u64))
    ensures
        r == rand32_seeded(seed),
{
    oorandom::Rand32::new(seed).state()
}

/// Relies on `oorandom::Rand32::from_state`, `rand_float` and `state`: one
/// draw from the generator whose state is `s`. `rand_float` gives a value in
/// `[0.0, 1.0)`, whose bit pattern is below that of `1.0`, and `rand_u32`,
/// under it, changes the state word alone and keeps the increment.
#[verifier::external_body]
pub(crate) fn draw_unit(s: (u64, u64)) -> (r: (u32, (u64, u64)))
    ensures
        r == rand32_float_step(s),
        r.0 < ONE_BITS,
        r.1.1 == s.1,
{
    let mut generator = oorandom::Rand32::from_state(s);
    let bits = generator.rand_float().to_bits();
    (bits, generator.state())
}

} // verus!
