//! Colors and how they blend.
use vstd::prelude::*;

verus! {

/// An RGBA color with eight bits per channel and straight alpha.
#[derive(Debug, Clone, Copy, PartialEq, Eq, Structural)]
pub struct Color {
    pub r: u8,
    pub g: u8,
    pub b: u8,
    pub a: u8,
}

/// One channel of `above` laid over `below` with opacity `alpha / 255`,
/// rounded to the nearest level.
pub open spec fn mix(above: int, below: int, alpha: int) -> int {
    (above * alpha + below * (255 - alpha) + 127) / 255
}

/// A mixture of two channel levels is a channel level.
pub proof fn lemma_mix_is_level(above: int, below: int, alpha: int)
    requires
        0 <= above <= 255,
        0 <= below <= 255,
        0 <= alpha <= 255,
    ensures
        0 <= mix(above, below, alpha) <= 255,
{
    assert(0 <= above * alpha <= 255 * alpha) by (nonlinear_arith)
        requires
            0 <= above <= 255,
            0 <= alpha,
    ;
    assert(0 <= below * (255 - alpha) <= 255 * (255 - alpha)) by (nonlinear_arith)
        requires
            0 <= below <= 255,
            0 <= 255 - alpha,
    ;
}

/// At full opacity a mixture is the level above, and without opacity it is
/// the level below.
pub proof fn lemma_mix_at_ends(above: int, below: int)
    ensures
        mix(above, below, 255) == above,
        mix(above, below, 0) == below,
{
    vstd::arithmetic::div_mod::lemma_fundamental_div_mod_converse(
        above * 255 + below * (255 - 255) + 127,
        255,
        above,
        127,
    );
    vstd::arithmetic::div_mod::lemma_fundamental_div_mod_converse(
        above * 0 + below * (255 - 0) + 127,
        255,
        below,
        127,
    );
}

fn mix_channel(above: u8, below: u8, alpha: u8) -> (level: u8)
    ensures
        level == mix(above as int, below as int, alpha as int),
{
    proof {
        lemma_mix_is_level(above as int, below as int, alpha as int);
        assert(0 <= above * alpha <= 255 * 255) by (nonlinear_arith)
            requires
                0 <= above <= 255,
                0 <= alpha <= 255,
        ;
        assert(0 <= below * (255 - alpha) <= 255 * 255) by (nonlinear_arith)
            requires
                0 <= below <= 255,
                0 <= 255 - alpha <= 255,
        ;
    }
    let weighted: u32 = above as u32 * alpha as u32 + below as u32 * (255 - alpha as u32);
    ((weighted + 127) / 255) as u8
}

impl Color {
    pub open spec fn spec_rgb(r: u8, g: u8, b: u8) -> Color {
        Color { r, g, b, a: 255 }
    }

    /// An opaque color.
    #[verifier::when_used_as_spec(spec_rgb)]
    pub fn rgb(r: u8, g: u8, b: u8) -> (color: Color)
        ensures
            color == Color::spec_rgb(r, g, b),
    {
        Color { r, g, b, a: 255 }
    }

    pub open spec fn spec_black() -> Color {
        Color { r: 0, g: 0, b: 0, a: 255 }
    }

    /// Opaque black.
    #[verifier::when_used_as_spec(spec_black)]
    pub fn black() -> (color: Color)
        ensures
            color == Color::spec_black(),
    {
        Color { r: 0, g: 0, b: 0, a: 255 }
    }

    pub open spec fn spec_red() -> Color {
        Color { r: 255, g: 0, b: 0, a: 255 }
    }

    /// Opaque red.
    #[verifier::when_used_as_spec(spec_red)]
    pub fn red() -> (color: Color)
        ensures
            color == Color::spec_red(),
    {
        Color { r: 255, g: 0, b: 0, a: 255 }
    }

    pub open spec fn spec_transparent() -> Color {
        Color { r: 0, g: 0, b: 0, a: 0 }
    }

    /// The color of memory that nothing has been drawn to: black without
    /// opacity.
    #[verifier::when_used_as_spec(spec_transparent)]
    pub fn transparent() -> (color: Color)
        ensures
            color == Color::spec_transparent(),
    {
        Color { r: 0, g: 0, b: 0, a: 0 }
    }

    /// Whether the color hides what is below it.
    pub open spec fn is_opaque(self) -> bool {
        self.a == 255
    }

    /// This color composited over `below`.
    pub open spec fn spec_over(self, below: Color) -> Color {
        Color {
            r: mix(self.r as int, below.r as int, self.a as int) as u8,
            g: mix(self.g as int, below.g as int, self.a as int) as u8,
            b: mix(self.b as int, below.b as int, self.a as int) as u8,
            a: mix(255, below.a as int, self.a as int) as u8,
        }
    }

    /// Composites this color over `below`: each channel moves from `below`
    /// towards this color by this color's opacity.
    #[verifier::when_used_as_spec(spec_over)]
    pub fn over(self, below: Color) -> (blend: Color)
        ensures
            blend == self.spec_over(below),
    {
        Color {
            r: mix_channel(self.r, below.r, self.a),
            g: mix_channel(self.g, below.g, self.a),
            b: mix_channel(self.b, below.b, self.a),
            a: mix_channel(255, below.a, self.a),
        }
    }

    /// An opaque color hides what is below it.
    pub proof fn lemma_opaque_covers(self, below: Color)
        requires
            self.is_opaque(),
        ensures
            self.over(below) == self,
    {
        lemma_mix_at_ends(self.r as int, below.r as int);
        lemma_mix_at_ends(self.g as int, below.g as int);
        lemma_mix_at_ends(self.b as int, below.b as int);
        lemma_mix_at_ends(255, below.a as int);
    }
}

} // verus!
