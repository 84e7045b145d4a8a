use vstd::prelude::*;

use crate::color::{draw_unit, rand32_float_step, rand32_seeded, seeded_generator, Rgba, COLOR_SEED, ONE_BITS};

verus! {

/// Bit pattern of the single-precision value `0.0`.
pub const ZERO_BITS: u32 = 0;

/// Bit pattern of the single-precision value `-1.0`.
pub const MINUS_ONE_BITS: u32 = 0xBF80_0000;

/// The background color before any key press: `(0.1, 0.2, 0.3, 1.0)`.
pub open spec fn initial_color() -> Rgba {
    Rgba { r: 0x3DCC_CCCD, g: 0x3E4C_CCCD, b: 0x3E99_999A, a: ONE_BITS }
}

/// Three successive draws from the generator state `s` fill the red, green
/// and blue channels of `c`; alpha is kept. Gives the new color and state.
pub open spec fn recolored(c: Rgba, s: (u64, u64)) -> (Rgba, (u64, u64)) {
    let (r, s1) = rand32_float_step(s);
    let (g, s2) = rand32_float_step(s1);
    let (b, s3) = rand32_float_step(s2);
    (Rgba { r, g, b, a: c.a }, s3)
}

/// Color and generator state after `n` randomizations from the start.
pub open spec fn color_sequence(n: nat) -> (Rgba, (u64, u64))
    decreases n,
{
    if n == 0 {
        (initial_color(), rand32_seeded(COLOR_SEED))
    } else {
        let (c, s) = color_sequence((n - 1) as nat);
        recolored(c, s)
    }
}

/// A vertex of the background triangle: a 2D position `(x, y)` and an RGB
/// color, each component the bit pattern of a single-precision value.
#[derive(Clone, Copy, Debug, PartialEq, Eq, Structural)]
pub struct Vertex2dColor {
    pub x: u32,
    pub y: u32,
    pub r: u32,
    pub g: u32,
    pub b: u32,
}

/// The state behind the scene: the clear color and the generator that
/// picks new ones.
pub struct BackgroundState {
    pub background_color: Rgba,
    pub rng: (u64, u64),
    /// How many times the color has been randomized.
    pub draws: Ghost<nat>,
}

impl BackgroundState {
    /// The color and generator are those reached after `draws`
    /// randomizations from the start; alpha stays `1.0`.
    pub open spec fn wf(&self) -> bool {
        &&& (self.background_color, self.rng) == color_sequence(self.draws@)
        &&& self.background_color.a == ONE_BITS
    }

    pub fn new() -> (s: Self)
        ensures
            s.wf(),
            s.draws@ == 0,
            s.background_color == initial_color(),
            s.rng == rand32_seeded(COLOR_SEED),
    {
        BackgroundState {
            background_color: Rgba { r: 0x3DCC_CCCD, g: 0x3E4C_CCCD, b: 0x3E99_999A, a: ONE_BITS },
            rng: seeded_generator(COLOR_SEED),
            draws: Ghost(0),
        }
    }

    /// Draws three values from the generator into the red, green and blue
    /// channels; alpha is untouched.
    pub fn randomize_color(&mut self)
        requires
            old(self).wf(),
        ensures
            final(self).wf(),
            final(self).draws@ == old(self).draws@ + 1,
            (final(self).background_color, final(self).rng) == recolored(
                old(self).background_color,
                old(self).rng,
            ),
            final(self).background_color.a == ONE_BITS,
            final(self).background_color.r < ONE_BITS,
            final(self).background_color.g < ONE_BITS,
            final(self).background_color.b < ONE_BITS,
    {
        let (r, s1) = draw_unit(self.rng);
        let (g, s2) = draw_unit(s1);
        let (b, s3) = draw_unit(s2);
        self.background_color = Rgba { r, g, b, a: self.background_color.a };
        self.rng = s3;
        self.draws = Ghost(self.draws@ + 1);
    }

    /// The color the scene is cleared to.
    pub fn clear_color(&self) -> (c: Rgba)
        ensures
            c == self.background_color,
    {
        self.background_color
    }
}

/// The fixed triangle: top in red, bottom left in green, bottom right in blue.
pub fn triangle_vertices() -> (v: [Vertex2dColor; 3])
    ensures
        v@[0] == (Vertex2dColor { x: ZERO_BITS, y: ONE_BITS, r: ONE_BITS, g: ZERO_BITS, b: ZERO_BITS }),
        v@[1] == (Vertex2dColor { x: MINUS_ONE_BITS, y: MINUS_ONE_BITS, r: ZERO_BITS, g: ONE_BITS, b: ZERO_BITS }),
        v@[2] == (Vertex2dColor { x: ONE_BITS, y: MINUS_ONE_BITS, r: ZERO_BITS, g: ZERO_BITS, b: ONE_BITS }),
{
    [
        Vertex2dColor { x: ZERO_BITS, y: ONE_BITS, r: ONE_BITS, g: ZERO_BITS, b: ZERO_BITS },
        Vertex2dColor { x: MINUS_ONE_BITS, y: MINUS_ONE_BITS, r: ZERO_BITS, g: ONE_BITS, b: ZERO_BITS },
        Vertex2dColor { x: ONE_BITS, y: MINUS_ONE_BITS, r: ZERO_BITS, g: ZERO_BITS, b: ONE_BITS },
    ]
}

/// The triangle's index list: one triangle, counter-clockwise.
pub fn triangle_indices() -> (i: [u16; 3])
    ensures
        i@ == seq![0u16, 1u16, 2u16],
{
    [0, 1, 2]
}

/// Two states that have been randomized equally often from the start hold
/// the same color and generator: the sequence of colors is reproducible.
pub proof fn lemma_color_sequence_reproducible(x: BackgroundState, y: BackgroundState)
    requires
        x.wf(),
        y.wf(),
        x.draws@ == y.draws@,
    ensures
        x.background_color == y.background_color,
        x.rng == y.rng,
        x.background_color.a == ONE_BITS,
{
}

} // verus!
